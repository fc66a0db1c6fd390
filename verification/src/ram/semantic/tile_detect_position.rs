use vstd::prelude::*;
use super::access;
use super::access::{byte, word};
use super::addresses::{
    BITFIELD_SPIKE_CACTUS_TILES, BITMASK_FOR_DASHABLE_TILES,
    DETECTION_OF_LEDGE_TILES_HORIZ_UPHORIZ, INDEX_OF_INTERACTING_TILE,
    LIFTABLE_TILE_DETECTED_INDEX_DOUBLED, LINK_PALETTE_BITS_OF_OAM, SCRATCH_1,
    TILEDETECT_BLOCK_FLAGS_LO, TILEDETECT_CHEST, TILEDETECT_COLLISION_BITS, TILEDETECT_DEEPWATER,
    TILEDETECT_DESTRUCTION_AFTERMATH, TILEDETECT_DIAGONAL_LEDGE_TILES, TILEDETECT_DIAGONAL_TILE,
    TILEDETECT_DIAG_STATE, TILEDETECT_DOOR_DIRECTION_FLAGS, TILEDETECT_ICY_FLOOR,
    TILEDETECT_INROOM_STAIRCASE, TILEDETECT_KEY_LOCK_GRAVESTONES, TILEDETECT_LEDGES_DOWN_LEFTRIGHT,
    TILEDETECT_MISC_TILES, TILEDETECT_MOVING_FLOOR_TILES, TILEDETECT_NORMAL_TILES,
    TILEDETECT_PIT_TILE, TILEDETECT_READ_SOMETHING, TILEDETECT_SHALLOW_WATER,
    TILEDETECT_SLOPE_COLLISION_BITS, TILEDETECT_SPIKE_FLOOR_AND_TILE_TRIGGERS,
    TILEDETECT_STAIRCASE_CACHE, TILEDETECT_STAIR_TILE, TILEDETECT_THICK_GRASS,
    TILEDETECT_TILE_TYPE, TILEDETECT_VERTICAL_LEDGE, TILEDETECT_WATER_STAIRCASE,
    TILEDETECT_WHICH_Y_POS, TILEMAP_LOCATION_CALC_MASK,
};
use crate::types;
use crate::types::{read_le_u16, write_le_u16};

verus! {

pub struct TileDetectPositionView<'a> {
    ram: &'a [u8],
}

impl<'a> TileDetectPositionView<'a> {
    /// The bytes of RAM this view reads and writes.
    pub closed spec fn ram(&self) -> Seq<u8> {
        self.ram@
    }

    pub fn new(ram: &'a [u8]) -> (view: Self)
        ensures
            view.ram() == ram@,
    {
        Self { ram }
    }

    pub fn y_low_at(&self, offset: usize) -> (result: u8)
        requires
            TILEDETECT_WHICH_Y_POS + offset <= usize::MAX,
        ensures
            result == access::byte_at(self.ram(), TILEDETECT_WHICH_Y_POS + offset),
    {
        byte(self.ram, TILEDETECT_WHICH_Y_POS + offset)
    }

    pub fn y(&self) -> (result: u16)
        ensures
            result == access::word_at(self.ram(), TILEDETECT_WHICH_Y_POS as int),
    {
        word(self.ram, TILEDETECT_WHICH_Y_POS)
    }

    pub fn y_low(&self) -> (result: u8)
        ensures
            result == access::byte_at(self.ram(), TILEDETECT_WHICH_Y_POS as int),
    {
        byte(self.ram, TILEDETECT_WHICH_Y_POS)
    }

    pub fn x(&self) -> (result: u16)
        ensures
            result == access::word_at(self.ram(), TILEDETECT_WHICH_Y_POS + 2),
    {
        word(self.ram, TILEDETECT_WHICH_Y_POS + 2)
    }

    pub fn x_low(&self) -> (result: u8)
        ensures
            result == access::byte_at(self.ram(), TILEDETECT_WHICH_Y_POS + 2),
    {
        byte(self.ram, TILEDETECT_WHICH_Y_POS + 2)
    }

    pub fn location_calc_mask(&self) -> (result: u16)
        ensures
            result == access::word_at(self.ram(), TILEMAP_LOCATION_CALC_MASK as int),
    {
        word(self.ram, TILEMAP_LOCATION_CALC_MASK)
    }

    pub fn interacting_tile(&self) -> (result: u16)
        ensures
            result == access::word_at(self.ram(), INDEX_OF_INTERACTING_TILE as int),
    {
        word(self.ram, INDEX_OF_INTERACTING_TILE)
    }

    pub fn pit_tile(&self) -> (result: u8)
        ensures
            result == access::byte_at(self.ram(), TILEDETECT_PIT_TILE as int),
    {
        byte(self.ram, TILEDETECT_PIT_TILE)
    }

    pub fn pit_tile_word(&self) -> (result: u16)
        ensures
            result == access::word_at(self.ram(), TILEDETECT_PIT_TILE as int),
    {
        word(self.ram, TILEDETECT_PIT_TILE)
    }

    pub fn deepwater(&self) -> (result: u16)
        ensures
            result == access::word_at(self.ram(), TILEDETECT_DEEPWATER as int),
    {
        word(self.ram, TILEDETECT_DEEPWATER)
    }

    pub fn deepwater_high(&self) -> (result: u8)
        ensures
            result == access::byte_at(self.ram(), TILEDETECT_DEEPWATER + 1),
    {
        byte(self.ram, TILEDETECT_DEEPWATER + 1)
    }

    pub fn normal_tiles(&self) -> (result: u16)
        ensures
            result == access::word_at(self.ram(), TILEDETECT_NORMAL_TILES as int),
    {
        word(self.ram, TILEDETECT_NORMAL_TILES)
    }

    pub fn normal_tiles_high(&self) -> (result: u8)
        ensures
            result == access::byte_at(self.ram(), TILEDETECT_NORMAL_TILES + 1),
    {
        byte(self.ram, TILEDETECT_NORMAL_TILES + 1)
    }

    pub fn misc_tiles(&self) -> (result: u16)
        ensures
            result == access::word_at(self.ram(), TILEDETECT_MISC_TILES as int),
    {
        word(self.ram, TILEDETECT_MISC_TILES)
    }

    pub fn thick_grass(&self) -> (result: u16)
        ensures
            result == access::word_at(self.ram(), TILEDETECT_THICK_GRASS as int),
    {
        word(self.ram, TILEDETECT_THICK_GRASS)
    }

    pub fn thick_grass_low(&self) -> (result: u8)
        ensures
            result == access::byte_at(self.ram(), TILEDETECT_THICK_GRASS as int),
    {
        byte(self.ram, TILEDETECT_THICK_GRASS)
    }

    pub fn diagonal_tile(&self) -> (result: u16)
        ensures
            result == access::word_at(self.ram(), TILEDETECT_DIAGONAL_TILE as int),
    {
        word(self.ram, TILEDETECT_DIAGONAL_TILE)
    }

    pub fn stair_tile(&self) -> (result: u8)
        ensures
            result == access::byte_at(self.ram(), TILEDETECT_STAIR_TILE as int),
    {
        byte(self.ram, TILEDETECT_STAIR_TILE)
    }

    pub fn block_flags(&self) -> (result: u16)
        ensures
            result == access::word_at(self.ram(), TILEDETECT_BLOCK_FLAGS_LO as int),
    {
        word(self.ram, TILEDETECT_BLOCK_FLAGS_LO)
    }

    pub fn door_direction_flags(&self) -> (result: u16)
        ensures
            result == access::word_at(self.ram(), TILEDETECT_DOOR_DIRECTION_FLAGS as int),
    {
        word(self.ram, TILEDETECT_DOOR_DIRECTION_FLAGS)
    }

    pub fn diag_state(&self) -> (result: u16)
        ensures
            result == access::word_at(self.ram(), TILEDETECT_DIAG_STATE as int),
    {
        word(self.ram, TILEDETECT_DIAG_STATE)
    }

    pub fn moving_floor_tiles(&self) -> (result: u16)
        ensures
            result == access::word_at(self.ram(), TILEDETECT_MOVING_FLOOR_TILES as int),
    {
        word(self.ram, TILEDETECT_MOVING_FLOOR_TILES)
    }

    pub fn icy_floor(&self) -> (result: u16)
        ensures
            result == access::word_at(self.ram(), TILEDETECT_ICY_FLOOR as int),
    {
        word(self.ram, TILEDETECT_ICY_FLOOR)
    }

    pub fn water_staircase(&self) -> (result: u16)
        ensures
            result == access::word_at(self.ram(), TILEDETECT_WATER_STAIRCASE as int),
    {
        word(self.ram, TILEDETECT_WATER_STAIRCASE)
    }

    pub fn shallow_water(&self) -> (result: u16)
        ensures
            result == access::word_at(self.ram(), TILEDETECT_SHALLOW_WATER as int),
    {
        word(self.ram, TILEDETECT_SHALLOW_WATER)
    }

    pub fn shallow_water_low(&self) -> (result: u8)
        ensures
            result == access::byte_at(self.ram(), TILEDETECT_SHALLOW_WATER as int),
    {
        byte(self.ram, TILEDETECT_SHALLOW_WATER)
    }

    pub fn destruction_aftermath(&self) -> (result: u16)
        ensures
            result == access::word_at(self.ram(), TILEDETECT_DESTRUCTION_AFTERMATH as int),
    {
        word(self.ram, TILEDETECT_DESTRUCTION_AFTERMATH)
    }

    pub fn destruction_aftermath_low(&self) -> (result: u8)
        ensures
            result == access::byte_at(self.ram(), TILEDETECT_DESTRUCTION_AFTERMATH as int),
    {
        byte(self.ram, TILEDETECT_DESTRUCTION_AFTERMATH)
    }

    pub fn read_something(&self) -> (result: u16)
        ensures
            result == access::word_at(self.ram(), TILEDETECT_READ_SOMETHING as int),
    {
        word(self.ram, TILEDETECT_READ_SOMETHING)
    }

    pub fn vertical_ledge(&self) -> (result: u8)
        ensures
            result == access::byte_at(self.ram(), TILEDETECT_VERTICAL_LEDGE as int),
    {
        byte(self.ram, TILEDETECT_VERTICAL_LEDGE)
    }

    pub fn horizontal_ledge(&self) -> (result: u8)
        ensures
            result == access::byte_at(self.ram(), DETECTION_OF_LEDGE_TILES_HORIZ_UPHORIZ as int),
    {
        byte(self.ram, DETECTION_OF_LEDGE_TILES_HORIZ_UPHORIZ)
    }

    pub fn ledge_mask(&self) -> (result: u8)
        ensures
            result == (access::byte_at(self.ram(), TILEDETECT_VERTICAL_LEDGE as int)
                 | access::byte_at(
                     self.ram(),
                     DETECTION_OF_LEDGE_TILES_HORIZ_UPHORIZ as int,
                 )),
    {
        self.vertical_ledge() | self.horizontal_ledge()
    }

    pub fn ledges_down_leftright(&self) -> (result: u8)
        ensures
            result == access::byte_at(self.ram(), TILEDETECT_LEDGES_DOWN_LEFTRIGHT as int),
    {
        byte(self.ram, TILEDETECT_LEDGES_DOWN_LEFTRIGHT)
    }

    pub fn diagonal_ledge_tiles(&self) -> (result: u8)
        ensures
            result == access::byte_at(self.ram(), TILEDETECT_DIAGONAL_LEDGE_TILES as int),
    {
        byte(self.ram, TILEDETECT_DIAGONAL_LEDGE_TILES)
    }

    pub fn chest(&self) -> (result: u16)
        ensures
            result == access::word_at(self.ram(), TILEDETECT_CHEST as int),
    {
        word(self.ram, TILEDETECT_CHEST)
    }

    pub fn key_lock_gravestones(&self) -> (result: u16)
        ensures
            result == access::word_at(self.ram(), TILEDETECT_KEY_LOCK_GRAVESTONES as int),
    {
        word(self.ram, TILEDETECT_KEY_LOCK_GRAVESTONES)
    }

    pub fn key_lock_gravestones_low(&self) -> (result: u8)
        ensures
            result == access::byte_at(self.ram(), TILEDETECT_KEY_LOCK_GRAVESTONES as int),
    {
        byte(self.ram, TILEDETECT_KEY_LOCK_GRAVESTONES)
    }

    pub fn spike_cactus_tiles(&self) -> (result: u8)
        ensures
            result == access::byte_at(self.ram(), BITFIELD_SPIKE_CACTUS_TILES as int),
    {
        byte(self.ram, BITFIELD_SPIKE_CACTUS_TILES)
    }

    pub fn tile_type(&self) -> (result: u16)
        ensures
            result == access::word_at(self.ram(), TILEDETECT_TILE_TYPE as int),
    {
        word(self.ram, TILEDETECT_TILE_TYPE)
    }

    pub fn spike_floor_and_triggers(&self) -> (result: u8)
        ensures
            result == access::byte_at(self.ram(), TILEDETECT_SPIKE_FLOOR_AND_TILE_TRIGGERS as int),
    {
        byte(self.ram, TILEDETECT_SPIKE_FLOOR_AND_TILE_TRIGGERS)
    }

    pub fn dashable_tiles(&self) -> (result: u8)
        ensures
            result == access::byte_at(self.ram(), BITMASK_FOR_DASHABLE_TILES as int),
    {
        byte(self.ram, BITMASK_FOR_DASHABLE_TILES)
    }

    pub fn staircase_cache(&self) -> (result: u8)
        ensures
            result == access::byte_at(self.ram(), TILEDETECT_STAIRCASE_CACHE as int),
    {
        byte(self.ram, TILEDETECT_STAIRCASE_CACHE)
    }

    pub fn slope_collision_bits(&self) -> (result: u16)
        ensures
            result == access::word_at(self.ram(), TILEDETECT_SLOPE_COLLISION_BITS as int),
    {
        word(self.ram, TILEDETECT_SLOPE_COLLISION_BITS)
    }

    pub fn collision_bits(&self) -> (result: u16)
        ensures
            result == access::word_at(self.ram(), TILEDETECT_COLLISION_BITS as int),
    {
        word(self.ram, TILEDETECT_COLLISION_BITS)
    }

    pub fn collision_bits_low(&self) -> (result: u8)
        ensures
            result == access::byte_at(self.ram(), TILEDETECT_COLLISION_BITS as int),
    {
        byte(self.ram, TILEDETECT_COLLISION_BITS)
    }

    pub fn bonk_bits_low(&self) -> (result: u8)
        ensures
            result == (access::byte_at(self.ram(), TILEDETECT_SLOPE_COLLISION_BITS as int)
                 | access::byte_at(self.ram(), TILEDETECT_COLLISION_BITS as int)),
    {
        byte(self.ram, TILEDETECT_SLOPE_COLLISION_BITS) | byte(self.ram, TILEDETECT_COLLISION_BITS)
    }

    pub fn has_collision_bits(&self, mask: u16) -> (result: bool)
        ensures
            result == ((access::word_at(self.ram(), TILEDETECT_COLLISION_BITS as int) & mask) != 0),
    {
        self.collision_bits() & mask != 0
    }

    pub fn has_slope_collision_bits(&self, mask: u16) -> (result: bool)
        ensures
            result == ((access::word_at(self.ram(), TILEDETECT_SLOPE_COLLISION_BITS as int) & mask) != 0),
    {
        self.slope_collision_bits() & mask != 0
    }

    pub fn palette_bits_high(&self) -> (result: u8)
        ensures
            result == access::byte_at(self.ram(), LINK_PALETTE_BITS_OF_OAM + 1),
    {
        byte(self.ram, LINK_PALETTE_BITS_OF_OAM + 1)
    }

    pub fn inroom_staircase(&self) -> (result: u16)
        ensures
            result == access::word_at(self.ram(), TILEDETECT_INROOM_STAIRCASE as int),
    {
        word(self.ram, TILEDETECT_INROOM_STAIRCASE)
    }
}

pub struct TileDetectPositionViewMut<'a> {
    pub ram: &'a mut [u8],
}

impl<'a> TileDetectPositionViewMut<'a> {
    /// The bytes of RAM this view reads and writes.
    pub open spec fn ram(&self) -> Seq<u8> {
        self.ram@
    }

    pub fn new(ram: &'a mut [u8]) -> (view: Self)
        ensures
            view.ram() == old(ram)@,
            final(view.ram)@ == final(ram)@,
    {
        Self { ram }
    }

    pub fn set_y_high(&mut self, value: u8)
        requires
            TILEDETECT_WHICH_Y_POS + 1 < old(self).ram().len(),
        ensures
            final(self).ram() == old(self).ram().update(TILEDETECT_WHICH_Y_POS + 1, value),
            final(final(self).ram)@ == final(old(self).ram)@,
    {
        self.ram[TILEDETECT_WHICH_Y_POS + 1] = value;
    }

    pub fn set_y(&mut self, value: u16)
        requires
            TILEDETECT_WHICH_Y_POS + 1 < old(self).ram().len(),
        ensures
            final(self).ram() == types::with_u16(
                old(self).ram(),
                TILEDETECT_WHICH_Y_POS as int,
                value,
            ),
            final(final(self).ram)@ == final(old(self).ram)@,
    {
        write_le_u16(self.ram, TILEDETECT_WHICH_Y_POS, value);
    }

    pub fn set_x(&mut self, value: u16)
        requires
            (TILEDETECT_WHICH_Y_POS + 2) + 1 < old(self).ram().len(),
        ensures
            final(self).ram() == types::with_u16(old(self).ram(), TILEDETECT_WHICH_Y_POS + 2, value),
            final(final(self).ram)@ == final(old(self).ram)@,
    {
        write_le_u16(self.ram, TILEDETECT_WHICH_Y_POS + 2, value);
    }

    pub fn set_location_calc_mask(&mut self, value: u16)
        requires
            TILEMAP_LOCATION_CALC_MASK + 1 < old(self).ram().len(),
        ensures
            final(self).ram() == types::with_u16(
                old(self).ram(),
                TILEMAP_LOCATION_CALC_MASK as int,
                value,
            ),
            final(final(self).ram)@ == final(old(self).ram)@,
    {
        write_le_u16(self.ram, TILEMAP_LOCATION_CALC_MASK, value);
    }

    pub fn set_interacting_tile(&mut self, value: u16)
        requires
            INDEX_OF_INTERACTING_TILE + 1 < old(self).ram().len(),
        ensures
            final(self).ram() == types::with_u16(
                old(self).ram(),
                INDEX_OF_INTERACTING_TILE as int,
                value,
            ),
            final(final(self).ram)@ == final(old(self).ram)@,
    {
        write_le_u16(self.ram, INDEX_OF_INTERACTING_TILE, value);
    }

    pub fn set_diagonal_tile(&mut self, value: u16)
        requires
            TILEDETECT_DIAGONAL_TILE + 1 < old(self).ram().len(),
        ensures
            final(self).ram() == types::with_u16(
                old(self).ram(),
                TILEDETECT_DIAGONAL_TILE as int,
                value,
            ),
            final(final(self).ram)@ == final(old(self).ram)@,
    {
        write_le_u16(self.ram, TILEDETECT_DIAGONAL_TILE, value);
    }

    pub fn clear_diagonal_tile(&mut self)
        requires
            TILEDETECT_DIAGONAL_TILE + 1 < old(self).ram().len(),
        ensures
            final(self).ram() == types::with_u16(
                old(self).ram(),
                TILEDETECT_DIAGONAL_TILE as int,
                0,
            ),
            final(final(self).ram)@ == final(old(self).ram)@,
    {
        self.set_diagonal_tile(0);
    }

    pub fn or_diagonal_tile(&mut self, value: u16) -> (result: u16)
        requires
            TILEDETECT_DIAGONAL_TILE + 1 < old(self).ram().len(),
        ensures
            result == (types::u16_at(old(self).ram(), TILEDETECT_DIAGONAL_TILE as int) | value),
            final(self).ram() == types::with_u16(
                old(self).ram(),
                TILEDETECT_DIAGONAL_TILE as int,
                types::u16_at(old(self).ram(), TILEDETECT_DIAGONAL_TILE as int)
                    | value,
            ),
            final(final(self).ram)@ == final(old(self).ram)@,
    {
        let next = read_le_u16(self.ram, TILEDETECT_DIAGONAL_TILE) | value;
        write_le_u16(self.ram, TILEDETECT_DIAGONAL_TILE, next);
        next
    }

    pub fn set_stair_tile(&mut self, value: u8)
        requires
            TILEDETECT_STAIR_TILE < old(self).ram().len(),
        ensures
            final(self).ram() == old(self).ram().update(TILEDETECT_STAIR_TILE as int, value),
            final(final(self).ram)@ == final(old(self).ram)@,
    {
        self.ram[TILEDETECT_STAIR_TILE] = value;
    }

    pub fn clear_stair_tile(&mut self)
        requires
            TILEDETECT_STAIR_TILE < old(self).ram().len(),
        ensures
            final(self).ram() == old(self).ram().update(TILEDETECT_STAIR_TILE as int, 0),
            final(final(self).ram)@ == final(old(self).ram)@,
    {
        self.set_stair_tile(0);
    }

    pub fn or_stair_tile(&mut self, value: u8)
        requires
            TILEDETECT_STAIR_TILE < old(self).ram().len(),
        ensures
            final(self).ram() == old(self).ram().update(
                TILEDETECT_STAIR_TILE as int,
                old(self).ram()[TILEDETECT_STAIR_TILE as int] | value,
            ),
            final(final(self).ram)@ == final(old(self).ram)@,
    {
        self.ram[TILEDETECT_STAIR_TILE] |= value;
    }

    pub fn set_block_flags(&mut self, value: u16)
        requires
            TILEDETECT_BLOCK_FLAGS_LO + 1 < old(self).ram().len(),
        ensures
            final(self).ram() == types::with_u16(
                old(self).ram(),
                TILEDETECT_BLOCK_FLAGS_LO as int,
                value,
            ),
            final(final(self).ram)@ == final(old(self).ram)@,
    {
        write_le_u16(self.ram, TILEDETECT_BLOCK_FLAGS_LO, value);
    }

    pub fn clear_block_flags(&mut self)
        requires
            TILEDETECT_BLOCK_FLAGS_LO + 1 < old(self).ram().len(),
        ensures
            final(self).ram() == types::with_u16(
                old(self).ram(),
                TILEDETECT_BLOCK_FLAGS_LO as int,
                0,
            ),
            final(final(self).ram)@ == final(old(self).ram)@,
    {
        self.set_block_flags(0);
    }

    pub fn or_block_flags(&mut self, value: u16) -> (result: u16)
        requires
            TILEDETECT_BLOCK_FLAGS_LO + 1 < old(self).ram().len(),
        ensures
            result == (types::u16_at(old(self).ram(), TILEDETECT_BLOCK_FLAGS_LO as int) | value),
            final(self).ram() == types::with_u16(
                old(self).ram(),
                TILEDETECT_BLOCK_FLAGS_LO as int,
                types::u16_at(
                    old(self).ram(),
                    TILEDETECT_BLOCK_FLAGS_LO as int,
                )
                    | value,
            ),
            final(final(self).ram)@ == final(old(self).ram)@,
    {
        let next = read_le_u16(self.ram, TILEDETECT_BLOCK_FLAGS_LO) | value;
        write_le_u16(self.ram, TILEDETECT_BLOCK_FLAGS_LO, next);
        next
    }

    pub fn set_door_direction_flags(&mut self, value: u16)
        requires
            TILEDETECT_DOOR_DIRECTION_FLAGS + 1 < old(self).ram().len(),
        ensures
            final(self).ram() == types::with_u16(
                old(self).ram(),
                TILEDETECT_DOOR_DIRECTION_FLAGS as int,
                value,
            ),
            final(final(self).ram)@ == final(old(self).ram)@,
    {
        write_le_u16(self.ram, TILEDETECT_DOOR_DIRECTION_FLAGS, value);
    }

    pub fn clear_door_direction_flags(&mut self)
        requires
            TILEDETECT_DOOR_DIRECTION_FLAGS + 1 < old(self).ram().len(),
        ensures
            final(self).ram() == types::with_u16(
                old(self).ram(),
                TILEDETECT_DOOR_DIRECTION_FLAGS as int,
                0,
            ),
            final(final(self).ram)@ == final(old(self).ram)@,
    {
        self.set_door_direction_flags(0);
    }

    pub fn set_diag_state(&mut self, value: u16)
        requires
            TILEDETECT_DIAG_STATE + 1 < old(self).ram().len(),
        ensures
            final(self).ram() == types::with_u16(
                old(self).ram(),
                TILEDETECT_DIAG_STATE as int,
                value,
            ),
            final(final(self).ram)@ == final(old(self).ram)@,
    {
        write_le_u16(self.ram, TILEDETECT_DIAG_STATE, value);
    }

    pub fn clear_diag_state(&mut self)
        requires
            TILEDETECT_DIAG_STATE + 1 < old(self).ram().len(),
        ensures
            final(self).ram() == types::with_u16(old(self).ram(), TILEDETECT_DIAG_STATE as int, 0),
            final(final(self).ram)@ == final(old(self).ram)@,
    {
        self.set_diag_state(0);
    }

    pub fn clear_pit_tile(&mut self)
        requires
            TILEDETECT_PIT_TILE < old(self).ram().len(),
        ensures
            final(self).ram() == old(self).ram().update(TILEDETECT_PIT_TILE as int, 0u8),
            final(final(self).ram)@ == final(old(self).ram)@,
    {
        self.ram[TILEDETECT_PIT_TILE] = 0;
    }

    pub fn or_pit_tile(&mut self, value: u8)
        requires
            TILEDETECT_PIT_TILE < old(self).ram().len(),
        ensures
            final(self).ram() == old(self).ram().update(
                TILEDETECT_PIT_TILE as int,
                old(self).ram()[TILEDETECT_PIT_TILE as int] | value,
            ),
            final(final(self).ram)@ == final(old(self).ram)@,
    {
        self.ram[TILEDETECT_PIT_TILE] |= value;
    }

    pub fn set_deepwater(&mut self, value: u16)
        requires
            TILEDETECT_DEEPWATER + 1 < old(self).ram().len(),
        ensures
            final(self).ram() == types::with_u16(
                old(self).ram(),
                TILEDETECT_DEEPWATER as int,
                value,
            ),
            final(final(self).ram)@ == final(old(self).ram)@,
    {
        write_le_u16(self.ram, TILEDETECT_DEEPWATER, value);
    }

    pub fn clear_deepwater(&mut self)
        requires
            TILEDETECT_DEEPWATER + 1 < old(self).ram().len(),
        ensures
            final(self).ram() == types::with_u16(old(self).ram(), TILEDETECT_DEEPWATER as int, 0),
            final(final(self).ram)@ == final(old(self).ram)@,
    {
        self.set_deepwater(0);
    }

    pub fn or_deepwater(&mut self, value: u16) -> (result: u16)
        requires
            TILEDETECT_DEEPWATER + 1 < old(self).ram().len(),
        ensures
            result == (types::u16_at(old(self).ram(), TILEDETECT_DEEPWATER as int) | value),
            final(self).ram() == types::with_u16(
                old(self).ram(),
                TILEDETECT_DEEPWATER as int,
                types::u16_at(old(self).ram(), TILEDETECT_DEEPWATER as int)
                    | value,
            ),
            final(final(self).ram)@ == final(old(self).ram)@,
    {
        let next = read_le_u16(self.ram, TILEDETECT_DEEPWATER) | value;
        write_le_u16(self.ram, TILEDETECT_DEEPWATER, next);
        next
    }

    pub fn set_normal_tiles(&mut self, value: u16)
        requires
            TILEDETECT_NORMAL_TILES + 1 < old(self).ram().len(),
        ensures
            final(self).ram() == types::with_u16(
                old(self).ram(),
                TILEDETECT_NORMAL_TILES as int,
                value,
            ),
            final(final(self).ram)@ == final(old(self).ram)@,
    {
        write_le_u16(self.ram, TILEDETECT_NORMAL_TILES, value);
    }

    pub fn clear_normal_tiles(&mut self)
        requires
            TILEDETECT_NORMAL_TILES + 1 < old(self).ram().len(),
        ensures
            final(self).ram() == types::with_u16(old(self).ram(), TILEDETECT_NORMAL_TILES as int, 0),
            final(final(self).ram)@ == final(old(self).ram)@,
    {
        self.set_normal_tiles(0);
    }

    pub fn or_normal_tiles(&mut self, value: u16) -> (result: u16)
        requires
            TILEDETECT_NORMAL_TILES + 1 < old(self).ram().len(),
        ensures
            result == (types::u16_at(old(self).ram(), TILEDETECT_NORMAL_TILES as int) | value),
            final(self).ram() == types::with_u16(
                old(self).ram(),
                TILEDETECT_NORMAL_TILES as int,
                types::u16_at(old(self).ram(), TILEDETECT_NORMAL_TILES as int)
                    | value,
            ),
            final(final(self).ram)@ == final(old(self).ram)@,
    {
        let next = read_le_u16(self.ram, TILEDETECT_NORMAL_TILES) | value;
        write_le_u16(self.ram, TILEDETECT_NORMAL_TILES, next);
        next
    }

    pub fn set_misc_tiles(&mut self, value: u16)
        requires
            TILEDETECT_MISC_TILES + 1 < old(self).ram().len(),
        ensures
            final(self).ram() == types::with_u16(
                old(self).ram(),
                TILEDETECT_MISC_TILES as int,
                value,
            ),
            final(final(self).ram)@ == final(old(self).ram)@,
    {
        write_le_u16(self.ram, TILEDETECT_MISC_TILES, value);
    }

    pub fn clear_misc_tiles(&mut self)
        requires
            TILEDETECT_MISC_TILES + 1 < old(self).ram().len(),
        ensures
            final(self).ram() == types::with_u16(old(self).ram(), TILEDETECT_MISC_TILES as int, 0),
            final(final(self).ram)@ == final(old(self).ram)@,
    {
        self.set_misc_tiles(0);
    }

    pub fn or_misc_tiles(&mut self, value: u16) -> (result: u16)
        requires
            TILEDETECT_MISC_TILES + 1 < old(self).ram().len(),
        ensures
            result == (types::u16_at(old(self).ram(), TILEDETECT_MISC_TILES as int) | value),
            final(self).ram() == types::with_u16(
                old(self).ram(),
                TILEDETECT_MISC_TILES as int,
                types::u16_at(old(self).ram(), TILEDETECT_MISC_TILES as int)
                    | value,
            ),
            final(final(self).ram)@ == final(old(self).ram)@,
    {
        let next = read_le_u16(self.ram, TILEDETECT_MISC_TILES) | value;
        write_le_u16(self.ram, TILEDETECT_MISC_TILES, next);
        next
    }

    pub fn set_thick_grass(&mut self, value: u16)
        requires
            TILEDETECT_THICK_GRASS + 1 < old(self).ram().len(),
        ensures
            final(self).ram() == types::with_u16(
                old(self).ram(),
                TILEDETECT_THICK_GRASS as int,
                value,
            ),
            final(final(self).ram)@ == final(old(self).ram)@,
    {
        write_le_u16(self.ram, TILEDETECT_THICK_GRASS, value);
    }

    pub fn clear_thick_grass(&mut self)
        requires
            TILEDETECT_THICK_GRASS + 1 < old(self).ram().len(),
        ensures
            final(self).ram() == types::with_u16(old(self).ram(), TILEDETECT_THICK_GRASS as int, 0),
            final(final(self).ram)@ == final(old(self).ram)@,
    {
        self.set_thick_grass(0);
    }

    pub fn or_thick_grass(&mut self, value: u16) -> (result: u16)
        requires
            TILEDETECT_THICK_GRASS + 1 < old(self).ram().len(),
        ensures
            result == (types::u16_at(old(self).ram(), TILEDETECT_THICK_GRASS as int) | value),
            final(self).ram() == types::with_u16(
                old(self).ram(),
                TILEDETECT_THICK_GRASS as int,
                types::u16_at(old(self).ram(), TILEDETECT_THICK_GRASS as int)
                    | value,
            ),
            final(final(self).ram)@ == final(old(self).ram)@,
    {
        let next = read_le_u16(self.ram, TILEDETECT_THICK_GRASS) | value;
        write_le_u16(self.ram, TILEDETECT_THICK_GRASS, next);
        next
    }

    pub fn clear_vertical_ledge(&mut self)
        requires
            TILEDETECT_VERTICAL_LEDGE < old(self).ram().len(),
        ensures
            final(self).ram() == old(self).ram().update(TILEDETECT_VERTICAL_LEDGE as int, 0u8),
            final(final(self).ram)@ == final(old(self).ram)@,
    {
        self.ram[TILEDETECT_VERTICAL_LEDGE] = 0;
    }

    pub fn or_vertical_ledge(&mut self, value: u8)
        requires
            TILEDETECT_VERTICAL_LEDGE < old(self).ram().len(),
        ensures
            final(self).ram() == old(self).ram().update(
                TILEDETECT_VERTICAL_LEDGE as int,
                old(self).ram()[TILEDETECT_VERTICAL_LEDGE as int] | value,
            ),
            final(final(self).ram)@ == final(old(self).ram)@,
    {
        self.ram[TILEDETECT_VERTICAL_LEDGE] |= value;
    }

    pub fn clear_horizontal_ledge(&mut self)
        requires
            DETECTION_OF_LEDGE_TILES_HORIZ_UPHORIZ < old(self).ram().len(),
        ensures
            final(self).ram() == old(self).ram().update(
                DETECTION_OF_LEDGE_TILES_HORIZ_UPHORIZ as int,
                0u8,
            ),
            final(final(self).ram)@ == final(old(self).ram)@,
    {
        self.ram[DETECTION_OF_LEDGE_TILES_HORIZ_UPHORIZ] = 0;
    }

    pub fn or_horizontal_ledge(&mut self, value: u8)
        requires
            DETECTION_OF_LEDGE_TILES_HORIZ_UPHORIZ < old(self).ram().len(),
        ensures
            final(self).ram() == old(self).ram().update(
                DETECTION_OF_LEDGE_TILES_HORIZ_UPHORIZ as int,
                old(self).ram()[DETECTION_OF_LEDGE_TILES_HORIZ_UPHORIZ as int] | value,
            ),
            final(final(self).ram)@ == final(old(self).ram)@,
    {
        self.ram[DETECTION_OF_LEDGE_TILES_HORIZ_UPHORIZ] |= value;
    }

    pub fn set_moving_floor_tiles(&mut self, value: u16)
        requires
            TILEDETECT_MOVING_FLOOR_TILES + 1 < old(self).ram().len(),
        ensures
            final(self).ram() == types::with_u16(
                old(self).ram(),
                TILEDETECT_MOVING_FLOOR_TILES as int,
                value,
            ),
            final(final(self).ram)@ == final(old(self).ram)@,
    {
        write_le_u16(self.ram, TILEDETECT_MOVING_FLOOR_TILES, value);
    }

    pub fn clear_moving_floor_tiles(&mut self)
        requires
            TILEDETECT_MOVING_FLOOR_TILES + 1 < old(self).ram().len(),
        ensures
            final(self).ram() == types::with_u16(
                old(self).ram(),
                TILEDETECT_MOVING_FLOOR_TILES as int,
                0,
            ),
            final(final(self).ram)@ == final(old(self).ram)@,
    {
        self.set_moving_floor_tiles(0);
    }

    pub fn or_moving_floor_tiles(&mut self, value: u16) -> (result: u16)
        requires
            TILEDETECT_MOVING_FLOOR_TILES + 1 < old(self).ram().len(),
        ensures
            result == (types::u16_at(old(self).ram(), TILEDETECT_MOVING_FLOOR_TILES as int) | value),
            final(self).ram() == types::with_u16(
                old(self).ram(),
                TILEDETECT_MOVING_FLOOR_TILES as int,
                types::u16_at(
                    old(self).ram(),
                    TILEDETECT_MOVING_FLOOR_TILES as int,
                )
                    | value,
            ),
            final(final(self).ram)@ == final(old(self).ram)@,
    {
        let next = read_le_u16(self.ram, TILEDETECT_MOVING_FLOOR_TILES) | value;
        write_le_u16(self.ram, TILEDETECT_MOVING_FLOOR_TILES, next);
        next
    }

    pub fn set_icy_floor(&mut self, value: u16)
        requires
            TILEDETECT_ICY_FLOOR + 1 < old(self).ram().len(),
        ensures
            final(self).ram() == types::with_u16(
                old(self).ram(),
                TILEDETECT_ICY_FLOOR as int,
                value,
            ),
            final(final(self).ram)@ == final(old(self).ram)@,
    {
        write_le_u16(self.ram, TILEDETECT_ICY_FLOOR, value);
    }

    pub fn clear_icy_floor(&mut self)
        requires
            TILEDETECT_ICY_FLOOR + 1 < old(self).ram().len(),
        ensures
            final(self).ram() == types::with_u16(old(self).ram(), TILEDETECT_ICY_FLOOR as int, 0),
            final(final(self).ram)@ == final(old(self).ram)@,
    {
        self.set_icy_floor(0);
    }

    pub fn or_icy_floor(&mut self, value: u16) -> (result: u16)
        requires
            TILEDETECT_ICY_FLOOR + 1 < old(self).ram().len(),
        ensures
            result == (types::u16_at(old(self).ram(), TILEDETECT_ICY_FLOOR as int) | value),
            final(self).ram() == types::with_u16(
                old(self).ram(),
                TILEDETECT_ICY_FLOOR as int,
                types::u16_at(old(self).ram(), TILEDETECT_ICY_FLOOR as int)
                    | value,
            ),
            final(final(self).ram)@ == final(old(self).ram)@,
    {
        let next = read_le_u16(self.ram, TILEDETECT_ICY_FLOOR) | value;
        write_le_u16(self.ram, TILEDETECT_ICY_FLOOR, next);
        next
    }

    pub fn set_water_staircase(&mut self, value: u16)
        requires
            TILEDETECT_WATER_STAIRCASE + 1 < old(self).ram().len(),
        ensures
            final(self).ram() == types::with_u16(
                old(self).ram(),
                TILEDETECT_WATER_STAIRCASE as int,
                value,
            ),
            final(final(self).ram)@ == final(old(self).ram)@,
    {
        write_le_u16(self.ram, TILEDETECT_WATER_STAIRCASE, value);
    }

    pub fn clear_water_staircase(&mut self)
        requires
            TILEDETECT_WATER_STAIRCASE + 1 < old(self).ram().len(),
        ensures
            final(self).ram() == types::with_u16(
                old(self).ram(),
                TILEDETECT_WATER_STAIRCASE as int,
                0,
            ),
            final(final(self).ram)@ == final(old(self).ram)@,
    {
        self.set_water_staircase(0);
    }

    pub fn or_water_staircase(&mut self, value: u16) -> (result: u16)
        requires
            TILEDETECT_WATER_STAIRCASE + 1 < old(self).ram().len(),
        ensures
            result == (types::u16_at(old(self).ram(), TILEDETECT_WATER_STAIRCASE as int) | value),
            final(self).ram() == types::with_u16(
                old(self).ram(),
                TILEDETECT_WATER_STAIRCASE as int,
                types::u16_at(
                    old(self).ram(),
                    TILEDETECT_WATER_STAIRCASE as int,
                )
                    | value,
            ),
            final(final(self).ram)@ == final(old(self).ram)@,
    {
        let next = read_le_u16(self.ram, TILEDETECT_WATER_STAIRCASE) | value;
        write_le_u16(self.ram, TILEDETECT_WATER_STAIRCASE, next);
        next
    }

    pub fn set_shallow_water(&mut self, value: u16)
        requires
            TILEDETECT_SHALLOW_WATER + 1 < old(self).ram().len(),
        ensures
            final(self).ram() == types::with_u16(
                old(self).ram(),
                TILEDETECT_SHALLOW_WATER as int,
                value,
            ),
            final(final(self).ram)@ == final(old(self).ram)@,
    {
        write_le_u16(self.ram, TILEDETECT_SHALLOW_WATER, value);
    }

    pub fn clear_shallow_water(&mut self)
        requires
            TILEDETECT_SHALLOW_WATER + 1 < old(self).ram().len(),
        ensures
            final(self).ram() == types::with_u16(
                old(self).ram(),
                TILEDETECT_SHALLOW_WATER as int,
                0,
            ),
            final(final(self).ram)@ == final(old(self).ram)@,
    {
        self.set_shallow_water(0);
    }

    pub fn or_shallow_water(&mut self, value: u16) -> (result: u16)
        requires
            TILEDETECT_SHALLOW_WATER + 1 < old(self).ram().len(),
        ensures
            result == (types::u16_at(old(self).ram(), TILEDETECT_SHALLOW_WATER as int) | value),
            final(self).ram() == types::with_u16(
                old(self).ram(),
                TILEDETECT_SHALLOW_WATER as int,
                types::u16_at(old(self).ram(), TILEDETECT_SHALLOW_WATER as int)
                    | value,
            ),
            final(final(self).ram)@ == final(old(self).ram)@,
    {
        let next = read_le_u16(self.ram, TILEDETECT_SHALLOW_WATER) | value;
        write_le_u16(self.ram, TILEDETECT_SHALLOW_WATER, next);
        next
    }

    pub fn set_destruction_aftermath(&mut self, value: u16)
        requires
            TILEDETECT_DESTRUCTION_AFTERMATH + 1 < old(self).ram().len(),
        ensures
            final(self).ram() == types::with_u16(
                old(self).ram(),
                TILEDETECT_DESTRUCTION_AFTERMATH as int,
                value,
            ),
            final(final(self).ram)@ == final(old(self).ram)@,
    {
        write_le_u16(self.ram, TILEDETECT_DESTRUCTION_AFTERMATH, value);
    }

    pub fn clear_destruction_aftermath(&mut self)
        requires
            TILEDETECT_DESTRUCTION_AFTERMATH + 1 < old(self).ram().len(),
        ensures
            final(self).ram() == types::with_u16(
                old(self).ram(),
                TILEDETECT_DESTRUCTION_AFTERMATH as int,
                0,
            ),
            final(final(self).ram)@ == final(old(self).ram)@,
    {
        self.set_destruction_aftermath(0);
    }

    pub fn or_destruction_aftermath(&mut self, value: u16) -> (result: u16)
        requires
            TILEDETECT_DESTRUCTION_AFTERMATH + 1 < old(self).ram().len(),
        ensures
            result == (types::u16_at(old(self).ram(), TILEDETECT_DESTRUCTION_AFTERMATH as int)
                 | value),
            final(self).ram() == types::with_u16(
                old(self).ram(),
                TILEDETECT_DESTRUCTION_AFTERMATH as int,
                types::u16_at(
                    old(self).ram(),
                    TILEDETECT_DESTRUCTION_AFTERMATH as int,
                )
                    | value,
            ),
            final(final(self).ram)@ == final(old(self).ram)@,
    {
        let next = read_le_u16(self.ram, TILEDETECT_DESTRUCTION_AFTERMATH) | value;
        write_le_u16(self.ram, TILEDETECT_DESTRUCTION_AFTERMATH, next);
        next
    }

    pub fn set_read_something(&mut self, value: u16)
        requires
            TILEDETECT_READ_SOMETHING + 1 < old(self).ram().len(),
        ensures
            final(self).ram() == types::with_u16(
                old(self).ram(),
                TILEDETECT_READ_SOMETHING as int,
                value,
            ),
            final(final(self).ram)@ == final(old(self).ram)@,
    {
        write_le_u16(self.ram, TILEDETECT_READ_SOMETHING, value);
    }

    pub fn clear_read_something(&mut self)
        requires
            TILEDETECT_READ_SOMETHING + 1 < old(self).ram().len(),
        ensures
            final(self).ram() == types::with_u16(
                old(self).ram(),
                TILEDETECT_READ_SOMETHING as int,
                0,
            ),
            final(final(self).ram)@ == final(old(self).ram)@,
    {
        self.set_read_something(0);
    }

    pub fn or_read_something(&mut self, value: u16) -> (result: u16)
        requires
            TILEDETECT_READ_SOMETHING + 1 < old(self).ram().len(),
        ensures
            result == (types::u16_at(old(self).ram(), TILEDETECT_READ_SOMETHING as int) | value),
            final(self).ram() == types::with_u16(
                old(self).ram(),
                TILEDETECT_READ_SOMETHING as int,
                types::u16_at(
                    old(self).ram(),
                    TILEDETECT_READ_SOMETHING as int,
                )
                    | value,
            ),
            final(final(self).ram)@ == final(old(self).ram)@,
    {
        let next = read_le_u16(self.ram, TILEDETECT_READ_SOMETHING) | value;
        write_le_u16(self.ram, TILEDETECT_READ_SOMETHING, next);
        next
    }

    pub fn set_ledges_down_leftright(&mut self, value: u8)
        requires
            TILEDETECT_LEDGES_DOWN_LEFTRIGHT < old(self).ram().len(),
        ensures
            final(self).ram() == old(self).ram().update(
                TILEDETECT_LEDGES_DOWN_LEFTRIGHT as int,
                value,
            ),
            final(final(self).ram)@ == final(old(self).ram)@,
    {
        self.ram[TILEDETECT_LEDGES_DOWN_LEFTRIGHT] = value;
    }

    pub fn clear_ledges_down_leftright(&mut self)
        requires
            TILEDETECT_LEDGES_DOWN_LEFTRIGHT < old(self).ram().len(),
        ensures
            final(self).ram() == old(self).ram().update(TILEDETECT_LEDGES_DOWN_LEFTRIGHT as int, 0),
            final(final(self).ram)@ == final(old(self).ram)@,
    {
        self.set_ledges_down_leftright(0);
    }

    pub fn or_ledges_down_leftright(&mut self, value: u8)
        requires
            TILEDETECT_LEDGES_DOWN_LEFTRIGHT < old(self).ram().len(),
        ensures
            final(self).ram() == old(self).ram().update(
                TILEDETECT_LEDGES_DOWN_LEFTRIGHT as int,
                old(self).ram()[TILEDETECT_LEDGES_DOWN_LEFTRIGHT as int] | value,
            ),
            final(final(self).ram)@ == final(old(self).ram)@,
    {
        self.ram[TILEDETECT_LEDGES_DOWN_LEFTRIGHT] |= value;
    }

    pub fn set_diagonal_ledge_tiles(&mut self, value: u8)
        requires
            TILEDETECT_DIAGONAL_LEDGE_TILES < old(self).ram().len(),
        ensures
            final(self).ram() == old(self).ram().update(
                TILEDETECT_DIAGONAL_LEDGE_TILES as int,
                value,
            ),
            final(final(self).ram)@ == final(old(self).ram)@,
    {
        self.ram[TILEDETECT_DIAGONAL_LEDGE_TILES] = value;
    }

    pub fn clear_diagonal_ledge_tiles(&mut self)
        requires
            TILEDETECT_DIAGONAL_LEDGE_TILES < old(self).ram().len(),
        ensures
            final(self).ram() == old(self).ram().update(TILEDETECT_DIAGONAL_LEDGE_TILES as int, 0),
            final(final(self).ram)@ == final(old(self).ram)@,
    {
        self.set_diagonal_ledge_tiles(0);
    }

    pub fn or_diagonal_ledge_tiles(&mut self, value: u8)
        requires
            TILEDETECT_DIAGONAL_LEDGE_TILES < old(self).ram().len(),
        ensures
            final(self).ram() == old(self).ram().update(
                TILEDETECT_DIAGONAL_LEDGE_TILES as int,
                old(self).ram()[TILEDETECT_DIAGONAL_LEDGE_TILES as int] | value,
            ),
            final(final(self).ram)@ == final(old(self).ram)@,
    {
        self.ram[TILEDETECT_DIAGONAL_LEDGE_TILES] |= value;
    }

    pub fn set_chest(&mut self, value: u16)
        requires
            TILEDETECT_CHEST + 1 < old(self).ram().len(),
        ensures
            final(self).ram() == types::with_u16(old(self).ram(), TILEDETECT_CHEST as int, value),
            final(final(self).ram)@ == final(old(self).ram)@,
    {
        write_le_u16(self.ram, TILEDETECT_CHEST, value);
    }

    pub fn clear_chest(&mut self)
        requires
            TILEDETECT_CHEST + 1 < old(self).ram().len(),
        ensures
            final(self).ram() == types::with_u16(old(self).ram(), TILEDETECT_CHEST as int, 0),
            final(final(self).ram)@ == final(old(self).ram)@,
    {
        self.set_chest(0);
    }

    pub fn or_chest(&mut self, value: u16) -> (result: u16)
        requires
            TILEDETECT_CHEST + 1 < old(self).ram().len(),
        ensures
            result == (types::u16_at(old(self).ram(), TILEDETECT_CHEST as int) | value),
            final(self).ram() == types::with_u16(
                old(self).ram(),
                TILEDETECT_CHEST as int,
                types::u16_at(old(self).ram(), TILEDETECT_CHEST as int)
                    | value,
            ),
            final(final(self).ram)@ == final(old(self).ram)@,
    {
        let next = read_le_u16(self.ram, TILEDETECT_CHEST) | value;
        write_le_u16(self.ram, TILEDETECT_CHEST, next);
        next
    }

    pub fn set_key_lock_gravestones(&mut self, value: u8)
        requires
            TILEDETECT_KEY_LOCK_GRAVESTONES < old(self).ram().len(),
        ensures
            final(self).ram() == old(self).ram().update(
                TILEDETECT_KEY_LOCK_GRAVESTONES as int,
                value,
            ),
            final(final(self).ram)@ == final(old(self).ram)@,
    {
        self.ram[TILEDETECT_KEY_LOCK_GRAVESTONES] = value;
    }

    pub fn clear_key_lock_gravestones(&mut self)
        requires
            TILEDETECT_KEY_LOCK_GRAVESTONES < old(self).ram().len(),
        ensures
            final(self).ram() == old(self).ram().update(TILEDETECT_KEY_LOCK_GRAVESTONES as int, 0),
            final(final(self).ram)@ == final(old(self).ram)@,
    {
        self.set_key_lock_gravestones(0);
    }

    pub fn or_key_lock_gravestones(&mut self, value: u8)
        requires
            TILEDETECT_KEY_LOCK_GRAVESTONES < old(self).ram().len(),
        ensures
            final(self).ram() == old(self).ram().update(
                TILEDETECT_KEY_LOCK_GRAVESTONES as int,
                old(self).ram()[TILEDETECT_KEY_LOCK_GRAVESTONES as int] | value,
            ),
            final(final(self).ram)@ == final(old(self).ram)@,
    {
        self.ram[TILEDETECT_KEY_LOCK_GRAVESTONES] |= value;
    }

    pub fn set_spike_cactus_tiles(&mut self, value: u8)
        requires
            BITFIELD_SPIKE_CACTUS_TILES < old(self).ram().len(),
        ensures
            final(self).ram() == old(self).ram().update(BITFIELD_SPIKE_CACTUS_TILES as int, value),
            final(final(self).ram)@ == final(old(self).ram)@,
    {
        self.ram[BITFIELD_SPIKE_CACTUS_TILES] = value;
    }

    pub fn clear_spike_cactus_tiles(&mut self)
        requires
            BITFIELD_SPIKE_CACTUS_TILES < old(self).ram().len(),
        ensures
            final(self).ram() == old(self).ram().update(BITFIELD_SPIKE_CACTUS_TILES as int, 0),
            final(final(self).ram)@ == final(old(self).ram)@,
    {
        self.set_spike_cactus_tiles(0);
    }

    pub fn or_spike_cactus_tiles(&mut self, value: u8)
        requires
            BITFIELD_SPIKE_CACTUS_TILES < old(self).ram().len(),
        ensures
            final(self).ram() == old(self).ram().update(
                BITFIELD_SPIKE_CACTUS_TILES as int,
                old(self).ram()[BITFIELD_SPIKE_CACTUS_TILES as int] | value,
            ),
            final(final(self).ram)@ == final(old(self).ram)@,
    {
        self.ram[BITFIELD_SPIKE_CACTUS_TILES] |= value;
    }

    pub fn set_tile_type(&mut self, value: u16)
        requires
            TILEDETECT_TILE_TYPE + 1 < old(self).ram().len(),
        ensures
            final(self).ram() == types::with_u16(
                old(self).ram(),
                TILEDETECT_TILE_TYPE as int,
                value,
            ),
            final(final(self).ram)@ == final(old(self).ram)@,
    {
        write_le_u16(self.ram, TILEDETECT_TILE_TYPE, value);
    }

    pub fn clear_tile_type(&mut self)
        requires
            TILEDETECT_TILE_TYPE + 1 < old(self).ram().len(),
        ensures
            final(self).ram() == types::with_u16(old(self).ram(), TILEDETECT_TILE_TYPE as int, 0),
            final(final(self).ram)@ == final(old(self).ram)@,
    {
        self.set_tile_type(0);
    }

    pub fn set_spike_floor_and_triggers(&mut self, value: u8)
        requires
            TILEDETECT_SPIKE_FLOOR_AND_TILE_TRIGGERS < old(self).ram().len(),
        ensures
            final(self).ram() == old(self).ram().update(
                TILEDETECT_SPIKE_FLOOR_AND_TILE_TRIGGERS as int,
                value,
            ),
            final(final(self).ram)@ == final(old(self).ram)@,
    {
        self.ram[TILEDETECT_SPIKE_FLOOR_AND_TILE_TRIGGERS] = value;
    }

    pub fn clear_spike_floor_and_triggers(&mut self)
        requires
            TILEDETECT_SPIKE_FLOOR_AND_TILE_TRIGGERS < old(self).ram().len(),
        ensures
            final(self).ram() == old(self).ram().update(
                TILEDETECT_SPIKE_FLOOR_AND_TILE_TRIGGERS as int,
                0,
            ),
            final(final(self).ram)@ == final(old(self).ram)@,
    {
        self.set_spike_floor_and_triggers(0);
    }

    pub fn or_spike_floor_and_triggers(&mut self, value: u8)
        requires
            TILEDETECT_SPIKE_FLOOR_AND_TILE_TRIGGERS < old(self).ram().len(),
        ensures
            final(self).ram() == old(self).ram().update(
                TILEDETECT_SPIKE_FLOOR_AND_TILE_TRIGGERS as int,
                old(self).ram()[TILEDETECT_SPIKE_FLOOR_AND_TILE_TRIGGERS as int] | value,
            ),
            final(final(self).ram)@ == final(old(self).ram)@,
    {
        self.ram[TILEDETECT_SPIKE_FLOOR_AND_TILE_TRIGGERS] |= value;
    }

    pub fn set_dashable_tiles(&mut self, value: u8)
        requires
            BITMASK_FOR_DASHABLE_TILES < old(self).ram().len(),
        ensures
            final(self).ram() == old(self).ram().update(BITMASK_FOR_DASHABLE_TILES as int, value),
            final(final(self).ram)@ == final(old(self).ram)@,
    {
        self.ram[BITMASK_FOR_DASHABLE_TILES] = value;
    }

    pub fn clear_dashable_tiles(&mut self)
        requires
            BITMASK_FOR_DASHABLE_TILES < old(self).ram().len(),
        ensures
            final(self).ram() == old(self).ram().update(BITMASK_FOR_DASHABLE_TILES as int, 0),
            final(final(self).ram)@ == final(old(self).ram)@,
    {
        self.set_dashable_tiles(0);
    }

    pub fn or_dashable_tiles(&mut self, value: u8)
        requires
            BITMASK_FOR_DASHABLE_TILES < old(self).ram().len(),
        ensures
            final(self).ram() == old(self).ram().update(
                BITMASK_FOR_DASHABLE_TILES as int,
                old(self).ram()[BITMASK_FOR_DASHABLE_TILES as int] | value,
            ),
            final(final(self).ram)@ == final(old(self).ram)@,
    {
        self.ram[BITMASK_FOR_DASHABLE_TILES] |= value;
    }

    pub fn set_staircase_cache(&mut self, value: u8)
        requires
            TILEDETECT_STAIRCASE_CACHE < old(self).ram().len(),
        ensures
            final(self).ram() == old(self).ram().update(TILEDETECT_STAIRCASE_CACHE as int, value),
            final(final(self).ram)@ == final(old(self).ram)@,
    {
        self.ram[TILEDETECT_STAIRCASE_CACHE] = value;
    }

    pub fn set_slope_collision_bits(&mut self, value: u16)
        requires
            TILEDETECT_SLOPE_COLLISION_BITS + 1 < old(self).ram().len(),
        ensures
            final(self).ram() == types::with_u16(
                old(self).ram(),
                TILEDETECT_SLOPE_COLLISION_BITS as int,
                value,
            ),
            final(final(self).ram)@ == final(old(self).ram)@,
    {
        write_le_u16(self.ram, TILEDETECT_SLOPE_COLLISION_BITS, value);
    }

    pub fn clear_slope_collision_bits(&mut self)
        requires
            TILEDETECT_SLOPE_COLLISION_BITS + 1 < old(self).ram().len(),
        ensures
            final(self).ram() == types::with_u16(
                old(self).ram(),
                TILEDETECT_SLOPE_COLLISION_BITS as int,
                0,
            ),
            final(final(self).ram)@ == final(old(self).ram)@,
    {
        self.set_slope_collision_bits(0);
    }

    pub fn or_slope_collision_bits(&mut self, value: u16) -> (result: u16)
        requires
            TILEDETECT_SLOPE_COLLISION_BITS + 1 < old(self).ram().len(),
        ensures
            result == (types::u16_at(old(self).ram(), TILEDETECT_SLOPE_COLLISION_BITS as int)
                 | value),
            final(self).ram() == types::with_u16(
                old(self).ram(),
                TILEDETECT_SLOPE_COLLISION_BITS as int,
                types::u16_at(
                    old(self).ram(),
                    TILEDETECT_SLOPE_COLLISION_BITS as int,
                )
                    | value,
            ),
            final(final(self).ram)@ == final(old(self).ram)@,
    {
        let next = read_le_u16(self.ram, TILEDETECT_SLOPE_COLLISION_BITS) | value;
        write_le_u16(self.ram, TILEDETECT_SLOPE_COLLISION_BITS, next);
        next
    }

    pub fn set_collision_bits(&mut self, value: u16)
        requires
            TILEDETECT_COLLISION_BITS + 1 < old(self).ram().len(),
        ensures
            final(self).ram() == types::with_u16(
                old(self).ram(),
                TILEDETECT_COLLISION_BITS as int,
                value,
            ),
            final(final(self).ram)@ == final(old(self).ram)@,
    {
        write_le_u16(self.ram, TILEDETECT_COLLISION_BITS, value);
    }

    pub fn clear_collision_bits(&mut self)
        requires
            TILEDETECT_COLLISION_BITS + 1 < old(self).ram().len(),
        ensures
            final(self).ram() == types::with_u16(
                old(self).ram(),
                TILEDETECT_COLLISION_BITS as int,
                0,
            ),
            final(final(self).ram)@ == final(old(self).ram)@,
    {
        self.set_collision_bits(0);
    }

    pub fn or_collision_bits(&mut self, value: u16) -> (result: u16)
        requires
            TILEDETECT_COLLISION_BITS + 1 < old(self).ram().len(),
        ensures
            result == (types::u16_at(old(self).ram(), TILEDETECT_COLLISION_BITS as int) | value),
            final(self).ram() == types::with_u16(
                old(self).ram(),
                TILEDETECT_COLLISION_BITS as int,
                types::u16_at(
                    old(self).ram(),
                    TILEDETECT_COLLISION_BITS as int,
                )
                    | value,
            ),
            final(final(self).ram)@ == final(old(self).ram)@,
    {
        let next = read_le_u16(self.ram, TILEDETECT_COLLISION_BITS) | value;
        write_le_u16(self.ram, TILEDETECT_COLLISION_BITS, next);
        next
    }

    pub fn set_tile_probe_anchor(&mut self, value: u16)
        requires
            SCRATCH_1 + 1 < old(self).ram().len(),
        ensures
            final(self).ram() == types::with_u16(old(self).ram(), SCRATCH_1 as int, value),
            final(final(self).ram)@ == final(old(self).ram)@,
    {
        write_le_u16(self.ram, SCRATCH_1, value);
    }

    pub fn clear_inroom_staircase(&mut self)
        requires
            TILEDETECT_INROOM_STAIRCASE + 1 < old(self).ram().len(),
        ensures
            final(self).ram() == types::with_u16(
                old(self).ram(),
                TILEDETECT_INROOM_STAIRCASE as int,
                0u16,
            ),
            final(final(self).ram)@ == final(old(self).ram)@,
    {
        write_le_u16(self.ram, TILEDETECT_INROOM_STAIRCASE, 0);
    }

    pub fn or_inroom_staircase(&mut self, bits: u16) -> (result: u16)
        requires
            TILEDETECT_INROOM_STAIRCASE + 1 < old(self).ram().len(),
        ensures
            result == (types::u16_at(old(self).ram(), TILEDETECT_INROOM_STAIRCASE as int) | bits),
            final(self).ram() == types::with_u16(
                old(self).ram(),
                TILEDETECT_INROOM_STAIRCASE as int,
                types::u16_at(
                    old(self).ram(),
                    TILEDETECT_INROOM_STAIRCASE as int,
                )
                    | bits,
            ),
            final(final(self).ram)@ == final(old(self).ram)@,
    {
        let next = read_le_u16(self.ram, TILEDETECT_INROOM_STAIRCASE) | bits;
        write_le_u16(self.ram, TILEDETECT_INROOM_STAIRCASE, next);
        next
    }

    pub fn set_liftable_tile_index(&mut self, value: u8)
        requires
            LIFTABLE_TILE_DETECTED_INDEX_DOUBLED < old(self).ram().len(),
        ensures
            final(self).ram() == old(self).ram().update(
                LIFTABLE_TILE_DETECTED_INDEX_DOUBLED as int,
                value,
            ),
            final(final(self).ram)@ == final(old(self).ram)@,
    {
        self.ram[LIFTABLE_TILE_DETECTED_INDEX_DOUBLED] = value;
    }
}

} // verus!
