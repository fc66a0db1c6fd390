use vstd::prelude::*;
use super::access;
use super::access::{byte, word};
use super::addresses::{
    BG1_X_OFFSET, BG1_X_SCROLL, BG1_Y_OFFSET, BG1_Y_SCROLL, BG2_X_SCROLL, BG2_Y_SCROLL,
    BIRDTRAVEL_STATUS, CAMERA_X, CAMERA_Y, DUNGEON_ROOM, FLAG_OVERWORLD_AREA_CHANGED,
    FLAG_TRAVEL_BIRD, IS_IN_DARK_WORLD_FLAG, LAST_LIGHT_VS_DARK_WORLD, MAP16_LOAD_DST_OFF,
    MAP16_LOAD_SRC_OFF, MAP16_LOAD_Y_UNIT, OVERLAY_INDEX, OVERWORLD_AREA_INDEX,
    OVERWORLD_ENTRANCE_SEQUENCE_COUNTER, OVERWORLD_MAP_STATE, OVERWORLD_OFFSET_BASE_X,
    OVERWORLD_OFFSET_BASE_Y, OVERWORLD_OFFSET_MASK_X, OVERWORLD_OFFSET_MASK_Y,
    OVERWORLD_SCREEN_INDEX, OVERWORLD_SCREEN_TRANSITION, OVERWORLD_SCREEN_TRANS_DIR_BITS,
    OVERWORLD_SCREEN_TRANS_DIR_BITS2, OVERWORLD_TRANSITION_DIR, PLAYER_IS_INDOORS, RNG_SEED,
    ROOM_TRANSITIONING_FLAGS, TILE_INTERACTION_SHARED_FLAG, TRIGGER_SPECIAL_ENTRANCE,
    WHICH_ENTRANCE,
};
use crate::types;
use crate::types::{read_le_u16, write_le_u16};

verus! {

pub struct WorldStateView<'a> {
    ram: &'a [u8],
}

impl<'a> WorldStateView<'a> {
    /// The bytes of RAM this view reads and writes.
    pub closed spec fn ram(&self) -> Seq<u8> {
        self.ram@
    }

    pub fn new(ram: &'a [u8]) -> (view: Self)
        ensures
            view.ram() == ram@,
    {
        Self { ram }
    }

    pub fn dungeon_room(&self) -> (result: u16)
        ensures
            result == access::word_at(self.ram(), DUNGEON_ROOM as int),
    {
        word(self.ram, DUNGEON_ROOM)
    }

    pub fn dungeon_room_index(&self) -> (result: u8)
        ensures
            result == access::byte_at(self.ram(), DUNGEON_ROOM as int),
    {
        byte(self.ram, DUNGEON_ROOM)
    }

    pub fn overworld_screen(&self) -> (result: u8)
        ensures
            result == access::byte_at(self.ram(), OVERWORLD_SCREEN_INDEX as int),
    {
        byte(self.ram, OVERWORLD_SCREEN_INDEX)
    }

    pub fn overworld_screen_word(&self) -> (result: u16)
        ensures
            result == access::word_at(self.ram(), OVERWORLD_SCREEN_INDEX as int),
    {
        word(self.ram, OVERWORLD_SCREEN_INDEX)
    }

    pub fn is_indoors(&self) -> (result: bool)
        ensures
            result == (access::byte_at(self.ram(), PLAYER_IS_INDOORS as int) != 0),
    {
        byte(self.ram, PLAYER_IS_INDOORS) != 0
    }

    pub fn indoor_flag(&self) -> (result: u8)
        ensures
            result == access::byte_at(self.ram(), PLAYER_IS_INDOORS as int),
    {
        byte(self.ram, PLAYER_IS_INDOORS)
    }

    pub fn is_outdoors(&self) -> (result: bool)
        ensures
            result == (access::byte_at(self.ram(), PLAYER_IS_INDOORS as int) == 0),
    {
        !self.is_indoors()
    }

    pub fn overworld_map_state(&self) -> (result: u8)
        ensures
            result == access::byte_at(self.ram(), OVERWORLD_MAP_STATE as int),
    {
        byte(self.ram, OVERWORLD_MAP_STATE)
    }

    pub fn entrance_sequence_counter(&self) -> (result: u8)
        ensures
            result == access::byte_at(self.ram(), OVERWORLD_ENTRANCE_SEQUENCE_COUNTER as int),
    {
        byte(self.ram, OVERWORLD_ENTRANCE_SEQUENCE_COUNTER)
    }

    pub fn overworld_area(&self) -> (result: u16)
        ensures
            result == access::word_at(self.ram(), OVERWORLD_AREA_INDEX as int),
    {
        word(self.ram, OVERWORLD_AREA_INDEX)
    }

    pub fn overworld_area_low(&self) -> (result: u8)
        ensures
            result == access::byte_at(self.ram(), OVERWORLD_AREA_INDEX as int),
    {
        byte(self.ram, OVERWORLD_AREA_INDEX)
    }

    pub fn transition_direction(&self) -> (result: u8)
        ensures
            result == access::byte_at(self.ram(), OVERWORLD_TRANSITION_DIR as int),
    {
        byte(self.ram, OVERWORLD_TRANSITION_DIR)
    }

    pub fn screen_transition_direction_bits(&self) -> (result: u8)
        ensures
            result == access::byte_at(self.ram(), OVERWORLD_SCREEN_TRANS_DIR_BITS2 as int),
    {
        byte(self.ram, OVERWORLD_SCREEN_TRANS_DIR_BITS2)
    }

    pub fn screen_transition_direction_bits_word(&self) -> (result: u16)
        ensures
            result == access::word_at(self.ram(), OVERWORLD_SCREEN_TRANS_DIR_BITS2 as int),
    {
        word(self.ram, OVERWORLD_SCREEN_TRANS_DIR_BITS2)
    }

    pub fn has_screen_transition_direction_bits(&self) -> (result: bool)
        ensures
            result == (access::byte_at(self.ram(), OVERWORLD_SCREEN_TRANS_DIR_BITS2 as int) != 0),
    {
        self.screen_transition_direction_bits() != 0
    }

    pub fn screen_transition(&self) -> (result: u8)
        ensures
            result == access::byte_at(self.ram(), OVERWORLD_SCREEN_TRANSITION as int),
    {
        byte(self.ram, OVERWORLD_SCREEN_TRANSITION)
    }

    pub fn screen_transition_word(&self) -> (result: u16)
        ensures
            result == access::word_at(self.ram(), OVERWORLD_SCREEN_TRANSITION as int),
    {
        word(self.ram, OVERWORLD_SCREEN_TRANSITION)
    }

    pub fn overlay_index(&self) -> (result: u8)
        ensures
            result == access::byte_at(self.ram(), OVERLAY_INDEX as int),
    {
        byte(self.ram, OVERLAY_INDEX)
    }

    pub fn map16_load_src(&self) -> (result: u16)
        ensures
            result == access::word_at(self.ram(), MAP16_LOAD_SRC_OFF as int),
    {
        word(self.ram, MAP16_LOAD_SRC_OFF)
    }

    pub fn map16_load_dst(&self) -> (result: u16)
        ensures
            result == access::word_at(self.ram(), MAP16_LOAD_DST_OFF as int),
    {
        word(self.ram, MAP16_LOAD_DST_OFF)
    }

    pub fn map16_load_y_unit(&self) -> (result: u16)
        ensures
            result == access::word_at(self.ram(), MAP16_LOAD_Y_UNIT as int),
    {
        word(self.ram, MAP16_LOAD_Y_UNIT)
    }

    pub fn bg1_x(&self) -> (result: u16)
        ensures
            result == access::word_at(self.ram(), BG1_X_SCROLL as int),
    {
        word(self.ram, BG1_X_SCROLL)
    }

    pub fn bg1_x_low(&self) -> (result: u8)
        ensures
            result == access::byte_at(self.ram(), BG1_X_SCROLL as int),
    {
        byte(self.ram, BG1_X_SCROLL)
    }

    pub fn bg1_y(&self) -> (result: u16)
        ensures
            result == access::word_at(self.ram(), BG1_Y_SCROLL as int),
    {
        word(self.ram, BG1_Y_SCROLL)
    }

    pub fn bg1_y_low(&self) -> (result: u8)
        ensures
            result == access::byte_at(self.ram(), BG1_Y_SCROLL as int),
    {
        byte(self.ram, BG1_Y_SCROLL)
    }

    pub fn bg2_x(&self) -> (result: u16)
        ensures
            result == access::word_at(self.ram(), BG2_X_SCROLL as int),
    {
        word(self.ram, BG2_X_SCROLL)
    }

    pub fn bg2_x_low(&self) -> (result: u8)
        ensures
            result == access::byte_at(self.ram(), BG2_X_SCROLL as int),
    {
        byte(self.ram, BG2_X_SCROLL)
    }

    pub fn bg2_y(&self) -> (result: u16)
        ensures
            result == access::word_at(self.ram(), BG2_Y_SCROLL as int),
    {
        word(self.ram, BG2_Y_SCROLL)
    }

    pub fn bg2_y_low(&self) -> (result: u8)
        ensures
            result == access::byte_at(self.ram(), BG2_Y_SCROLL as int),
    {
        byte(self.ram, BG2_Y_SCROLL)
    }

    pub fn bg1_x_offset(&self) -> (result: u16)
        ensures
            result == access::word_at(self.ram(), BG1_X_OFFSET as int),
    {
        word(self.ram, BG1_X_OFFSET)
    }

    pub fn bg1_y_offset(&self) -> (result: u16)
        ensures
            result == access::word_at(self.ram(), BG1_Y_OFFSET as int),
    {
        word(self.ram, BG1_Y_OFFSET)
    }

    pub fn bg1_offset_mask(&self) -> (result: u16)
        ensures
            result == (access::word_at(self.ram(), BG1_X_OFFSET as int)
                 | access::word_at(self.ram(), BG1_Y_OFFSET as int)),
    {
        self.bg1_x_offset() | self.bg1_y_offset()
    }

    pub fn camera_x(&self) -> (result: u16)
        ensures
            result == access::word_at(self.ram(), CAMERA_X as int),
    {
        word(self.ram, CAMERA_X)
    }

    pub fn camera_y(&self) -> (result: u16)
        ensures
            result == access::word_at(self.ram(), CAMERA_Y as int),
    {
        word(self.ram, CAMERA_Y)
    }

    pub fn rng_seed(&self) -> (result: u8)
        ensures
            result == access::byte_at(self.ram(), RNG_SEED as int),
    {
        byte(self.ram, RNG_SEED)
    }

    pub fn overworld_offset_base_x(&self) -> (result: u16)
        ensures
            result == access::word_at(self.ram(), OVERWORLD_OFFSET_BASE_X as int),
    {
        word(self.ram, OVERWORLD_OFFSET_BASE_X)
    }

    pub fn overworld_offset_base_y(&self) -> (result: u16)
        ensures
            result == access::word_at(self.ram(), OVERWORLD_OFFSET_BASE_Y as int),
    {
        word(self.ram, OVERWORLD_OFFSET_BASE_Y)
    }

    pub fn overworld_offset_mask_x(&self) -> (result: u16)
        ensures
            result == access::word_at(self.ram(), OVERWORLD_OFFSET_MASK_X as int),
    {
        word(self.ram, OVERWORLD_OFFSET_MASK_X)
    }

    pub fn overworld_offset_mask_y(&self) -> (result: u16)
        ensures
            result == access::word_at(self.ram(), OVERWORLD_OFFSET_MASK_Y as int),
    {
        word(self.ram, OVERWORLD_OFFSET_MASK_Y)
    }

    pub fn dark_world_region_index(&self) -> (result: u8)
        ensures
            result == access::byte_at(self.ram(), IS_IN_DARK_WORLD_FLAG as int),
    {
        byte(self.ram, IS_IN_DARK_WORLD_FLAG)
    }

    pub fn is_in_dark_world(&self) -> (result: bool)
        ensures
            result == (access::byte_at(self.ram(), IS_IN_DARK_WORLD_FLAG as int) != 0),
    {
        byte(self.ram, IS_IN_DARK_WORLD_FLAG) != 0
    }

    pub fn flag_overworld_area_changed(&self) -> (result: bool)
        ensures
            result == (access::byte_at(self.ram(), FLAG_OVERWORLD_AREA_CHANGED as int) != 0),
    {
        byte(self.ram, FLAG_OVERWORLD_AREA_CHANGED) != 0
    }

    pub fn overworld_area_index(&self) -> (result: u16)
        ensures
            result == access::word_at(self.ram(), OVERWORLD_AREA_INDEX as int),
    {
        word(self.ram, OVERWORLD_AREA_INDEX)
    }
}

pub struct WorldStateViewMut<'a> {
    pub ram: &'a mut [u8],
}

impl<'a> WorldStateViewMut<'a> {
    /// The bytes of RAM this view reads and writes.
    pub open spec fn ram(&self) -> Seq<u8> {
        self.ram@
    }

    pub fn new(ram: &'a mut [u8]) -> (view: Self)
        ensures
            view.ram() == old(ram)@,
            final(view.ram)@ == final(ram)@,
    {
        Self { ram }
    }

    pub fn set_overlay_high(&mut self, value: u8)
        requires
            OVERLAY_INDEX + 1 < old(self).ram().len(),
        ensures
            final(self).ram() == old(self).ram().update(OVERLAY_INDEX + 1, value),
            final(final(self).ram)@ == final(old(self).ram)@,
    {
        self.ram[OVERLAY_INDEX + 1] = value;
    }

    pub fn set_dungeon_room(&mut self, value: u16)
        requires
            DUNGEON_ROOM + 1 < old(self).ram().len(),
        ensures
            final(self).ram() == types::with_u16(old(self).ram(), DUNGEON_ROOM as int, value),
            final(final(self).ram)@ == final(old(self).ram)@,
    {
        write_le_u16(self.ram, DUNGEON_ROOM, value);
    }

    pub fn set_dungeon_room_index(&mut self, value: u8)
        requires
            DUNGEON_ROOM < old(self).ram().len(),
        ensures
            final(self).ram() == old(self).ram().update(DUNGEON_ROOM as int, value),
            final(final(self).ram)@ == final(old(self).ram)@,
    {
        self.ram[DUNGEON_ROOM] = value;
    }

    pub fn increment_dungeon_room_index_by(&mut self, value: u8) -> (result: u8)
        requires
            DUNGEON_ROOM < old(self).ram().len(),
        ensures
            result == old(self).ram()[DUNGEON_ROOM as int].wrapping_add(value),
            final(self).ram() == old(self).ram().update(
                DUNGEON_ROOM as int,
                old(self).ram()[DUNGEON_ROOM as int].wrapping_add(value),
            ),
            final(final(self).ram)@ == final(old(self).ram)@,
    {
        self.ram[DUNGEON_ROOM] = self.ram[DUNGEON_ROOM].wrapping_add(value);
        self.ram[DUNGEON_ROOM]
    }

    pub fn decrement_dungeon_room_index_by(&mut self, value: u8) -> (result: u8)
        requires
            DUNGEON_ROOM < old(self).ram().len(),
        ensures
            result == old(self).ram()[DUNGEON_ROOM as int].wrapping_sub(value),
            final(self).ram() == old(self).ram().update(
                DUNGEON_ROOM as int,
                old(self).ram()[DUNGEON_ROOM as int].wrapping_sub(value),
            ),
            final(final(self).ram)@ == final(old(self).ram)@,
    {
        self.ram[DUNGEON_ROOM] = self.ram[DUNGEON_ROOM].wrapping_sub(value);
        self.ram[DUNGEON_ROOM]
    }

    pub fn set_overworld_screen(&mut self, value: u8)
        requires
            OVERWORLD_SCREEN_INDEX < old(self).ram().len(),
        ensures
            final(self).ram() == old(self).ram().update(OVERWORLD_SCREEN_INDEX as int, value),
            final(final(self).ram)@ == final(old(self).ram)@,
    {
        self.ram[OVERWORLD_SCREEN_INDEX] = value;
    }

    pub fn set_overworld_screen_word(&mut self, value: u16)
        requires
            OVERWORLD_SCREEN_INDEX + 1 < old(self).ram().len(),
        ensures
            final(self).ram() == types::with_u16(
                old(self).ram(),
                OVERWORLD_SCREEN_INDEX as int,
                value,
            ),
            final(final(self).ram)@ == final(old(self).ram)@,
    {
        write_le_u16(self.ram, OVERWORLD_SCREEN_INDEX, value);
    }

    pub fn set_indoor_flag(&mut self, value: u8)
        requires
            PLAYER_IS_INDOORS < old(self).ram().len(),
        ensures
            final(self).ram() == old(self).ram().update(PLAYER_IS_INDOORS as int, value),
            final(final(self).ram)@ == final(old(self).ram)@,
    {
        self.ram[PLAYER_IS_INDOORS] = value;
    }

    pub fn set_overworld_map_state(&mut self, value: u8)
        requires
            OVERWORLD_MAP_STATE < old(self).ram().len(),
        ensures
            final(self).ram() == old(self).ram().update(OVERWORLD_MAP_STATE as int, value),
            final(final(self).ram)@ == final(old(self).ram)@,
    {
        self.ram[OVERWORLD_MAP_STATE] = value;
    }

    pub fn increment_overworld_map_state(&mut self)
        requires
            OVERWORLD_MAP_STATE < old(self).ram().len(),
        ensures
            final(self).ram() == old(self).ram().update(
                OVERWORLD_MAP_STATE as int,
                old(self).ram()[OVERWORLD_MAP_STATE as int].wrapping_add(1),
            ),
            final(final(self).ram)@ == final(old(self).ram)@,
    {
        self.ram[OVERWORLD_MAP_STATE] = self.ram[OVERWORLD_MAP_STATE].wrapping_add(1);
    }

    pub fn set_entrance_sequence_counter(&mut self, value: u8)
        requires
            OVERWORLD_ENTRANCE_SEQUENCE_COUNTER < old(self).ram().len(),
        ensures
            final(self).ram() == old(self).ram().update(
                OVERWORLD_ENTRANCE_SEQUENCE_COUNTER as int,
                value,
            ),
            final(final(self).ram)@ == final(old(self).ram)@,
    {
        self.ram[OVERWORLD_ENTRANCE_SEQUENCE_COUNTER] = value;
    }

    pub fn clear_entrance_sequence_counter(&mut self)
        requires
            OVERWORLD_ENTRANCE_SEQUENCE_COUNTER < old(self).ram().len(),
        ensures
            final(self).ram() == old(self).ram().update(
                OVERWORLD_ENTRANCE_SEQUENCE_COUNTER as int,
                0u8,
            ),
            final(final(self).ram)@ == final(old(self).ram)@,
    {
        self.ram[OVERWORLD_ENTRANCE_SEQUENCE_COUNTER] = 0;
    }

    pub fn increment_entrance_sequence_counter(&mut self) -> (result: u8)
        requires
            OVERWORLD_ENTRANCE_SEQUENCE_COUNTER < old(self).ram().len(),
        ensures
            result == old(self).ram()[OVERWORLD_ENTRANCE_SEQUENCE_COUNTER as int].wrapping_add(1),
            final(self).ram() == old(self).ram().update(
                OVERWORLD_ENTRANCE_SEQUENCE_COUNTER as int,
                old(self).ram()[OVERWORLD_ENTRANCE_SEQUENCE_COUNTER as int].wrapping_add(1),
            ),
            final(final(self).ram)@ == final(old(self).ram)@,
    {
        self.ram[OVERWORLD_ENTRANCE_SEQUENCE_COUNTER] = self.ram[OVERWORLD_ENTRANCE_SEQUENCE_COUNTER].wrapping_add(1);
        self.ram[OVERWORLD_ENTRANCE_SEQUENCE_COUNTER]
    }

    pub fn decrement_entrance_sequence_counter(&mut self) -> (result: u8)
        requires
            OVERWORLD_ENTRANCE_SEQUENCE_COUNTER < old(self).ram().len(),
        ensures
            result == old(self).ram()[OVERWORLD_ENTRANCE_SEQUENCE_COUNTER as int].wrapping_sub(1),
            final(self).ram() == old(self).ram().update(
                OVERWORLD_ENTRANCE_SEQUENCE_COUNTER as int,
                old(self).ram()[OVERWORLD_ENTRANCE_SEQUENCE_COUNTER as int].wrapping_sub(1),
            ),
            final(final(self).ram)@ == final(old(self).ram)@,
    {
        self.ram[OVERWORLD_ENTRANCE_SEQUENCE_COUNTER] = self.ram[OVERWORLD_ENTRANCE_SEQUENCE_COUNTER].wrapping_sub(1);
        self.ram[OVERWORLD_ENTRANCE_SEQUENCE_COUNTER]
    }

    pub fn set_screen_transition_direction_bits(&mut self, value: u8)
        requires
            OVERWORLD_SCREEN_TRANS_DIR_BITS2 < old(self).ram().len(),
        ensures
            final(self).ram() == old(self).ram().update(
                OVERWORLD_SCREEN_TRANS_DIR_BITS2 as int,
                value,
            ),
            final(final(self).ram)@ == final(old(self).ram)@,
    {
        self.ram[OVERWORLD_SCREEN_TRANS_DIR_BITS2] = value;
    }

    pub fn set_screen_transition_direction_bits_word(&mut self, value: u16)
        requires
            OVERWORLD_SCREEN_TRANS_DIR_BITS2 + 1 < old(self).ram().len(),
        ensures
            final(self).ram() == types::with_u16(
                old(self).ram(),
                OVERWORLD_SCREEN_TRANS_DIR_BITS2 as int,
                value,
            ),
            final(final(self).ram)@ == final(old(self).ram)@,
    {
        write_le_u16(self.ram, OVERWORLD_SCREEN_TRANS_DIR_BITS2, value);
    }

    pub fn clear_screen_transition_direction_bits(&mut self)
        requires
            OVERWORLD_SCREEN_TRANS_DIR_BITS2 < old(self).ram().len(),
        ensures
            final(self).ram() == old(self).ram().update(
                OVERWORLD_SCREEN_TRANS_DIR_BITS2 as int,
                0u8,
            ),
            final(final(self).ram)@ == final(old(self).ram)@,
    {
        self.ram[OVERWORLD_SCREEN_TRANS_DIR_BITS2] = 0;
    }

    pub fn clear_screen_transition_direction_bits_word(&mut self)
        requires
            OVERWORLD_SCREEN_TRANS_DIR_BITS2 + 1 < old(self).ram().len(),
        ensures
            final(self).ram() == types::with_u16(
                old(self).ram(),
                OVERWORLD_SCREEN_TRANS_DIR_BITS2 as int,
                0u16,
            ),
            final(final(self).ram)@ == final(old(self).ram)@,
    {
        write_le_u16(self.ram, OVERWORLD_SCREEN_TRANS_DIR_BITS2, 0);
    }

    pub fn and_screen_transition_direction_bits(&mut self, value: u8)
        requires
            OVERWORLD_SCREEN_TRANS_DIR_BITS2 < old(self).ram().len(),
        ensures
            final(self).ram() == old(self).ram().update(
                OVERWORLD_SCREEN_TRANS_DIR_BITS2 as int,
                old(self).ram()[OVERWORLD_SCREEN_TRANS_DIR_BITS2 as int] & value,
            ),
            final(final(self).ram)@ == final(old(self).ram)@,
    {
        self.ram[OVERWORLD_SCREEN_TRANS_DIR_BITS2] &= value;
    }

    pub fn or_screen_transition_direction_bits(&mut self, value: u8)
        requires
            OVERWORLD_SCREEN_TRANS_DIR_BITS2 < old(self).ram().len(),
        ensures
            final(self).ram() == old(self).ram().update(
                OVERWORLD_SCREEN_TRANS_DIR_BITS2 as int,
                old(self).ram()[OVERWORLD_SCREEN_TRANS_DIR_BITS2 as int] | value,
            ),
            final(final(self).ram)@ == final(old(self).ram)@,
    {
        self.ram[OVERWORLD_SCREEN_TRANS_DIR_BITS2] |= value;
    }

    pub fn or_screen_transition_direction_bits_word(&mut self, value: u16) -> (result: u16)
        requires
            OVERWORLD_SCREEN_TRANS_DIR_BITS2 + 1 < old(self).ram().len(),
        ensures
            result == (types::u16_at(old(self).ram(), OVERWORLD_SCREEN_TRANS_DIR_BITS2 as int)
                 | value),
            final(self).ram() == types::with_u16(
                old(self).ram(),
                OVERWORLD_SCREEN_TRANS_DIR_BITS2 as int,
                types::u16_at(
                    old(self).ram(),
                    OVERWORLD_SCREEN_TRANS_DIR_BITS2 as int,
                )
                    | value,
            ),
            final(final(self).ram)@ == final(old(self).ram)@,
    {
        let bits = read_le_u16(self.ram, OVERWORLD_SCREEN_TRANS_DIR_BITS2) | value;
        write_le_u16(self.ram, OVERWORLD_SCREEN_TRANS_DIR_BITS2, bits);
        bits
    }

    pub fn set_screen_transition(&mut self, value: u8)
        requires
            OVERWORLD_SCREEN_TRANSITION < old(self).ram().len(),
        ensures
            final(self).ram() == old(self).ram().update(OVERWORLD_SCREEN_TRANSITION as int, value),
            final(final(self).ram)@ == final(old(self).ram)@,
    {
        self.ram[OVERWORLD_SCREEN_TRANSITION] = value;
    }

    pub fn set_screen_transition_word(&mut self, value: u16)
        requires
            OVERWORLD_SCREEN_TRANSITION + 1 < old(self).ram().len(),
        ensures
            final(self).ram() == types::with_u16(
                old(self).ram(),
                OVERWORLD_SCREEN_TRANSITION as int,
                value,
            ),
            final(final(self).ram)@ == final(old(self).ram)@,
    {
        write_le_u16(self.ram, OVERWORLD_SCREEN_TRANSITION, value);
    }

    pub fn clear_screen_transition(&mut self)
        requires
            OVERWORLD_SCREEN_TRANSITION < old(self).ram().len(),
        ensures
            final(self).ram() == old(self).ram().update(OVERWORLD_SCREEN_TRANSITION as int, 0u8),
            final(final(self).ram)@ == final(old(self).ram)@,
    {
        self.ram[OVERWORLD_SCREEN_TRANSITION] = 0;
    }

    pub fn set_bg1_x(&mut self, value: u16)
        requires
            BG1_X_SCROLL + 1 < old(self).ram().len(),
        ensures
            final(self).ram() == types::with_u16(old(self).ram(), BG1_X_SCROLL as int, value),
            final(final(self).ram)@ == final(old(self).ram)@,
    {
        write_le_u16(self.ram, BG1_X_SCROLL, value);
    }

    pub fn set_bg1_x_low(&mut self, value: u8)
        requires
            BG1_X_SCROLL < old(self).ram().len(),
        ensures
            final(self).ram() == old(self).ram().update(BG1_X_SCROLL as int, value),
            final(final(self).ram)@ == final(old(self).ram)@,
    {
        self.ram[BG1_X_SCROLL] = value;
    }

    pub fn set_bg1_y(&mut self, value: u16)
        requires
            BG1_Y_SCROLL + 1 < old(self).ram().len(),
        ensures
            final(self).ram() == types::with_u16(old(self).ram(), BG1_Y_SCROLL as int, value),
            final(final(self).ram)@ == final(old(self).ram)@,
    {
        write_le_u16(self.ram, BG1_Y_SCROLL, value);
    }

    pub fn set_bg1_y_low(&mut self, value: u8)
        requires
            BG1_Y_SCROLL < old(self).ram().len(),
        ensures
            final(self).ram() == old(self).ram().update(BG1_Y_SCROLL as int, value),
            final(final(self).ram)@ == final(old(self).ram)@,
    {
        self.ram[BG1_Y_SCROLL] = value;
    }

    pub fn set_bg2_x(&mut self, value: u16)
        requires
            BG2_X_SCROLL + 1 < old(self).ram().len(),
        ensures
            final(self).ram() == types::with_u16(old(self).ram(), BG2_X_SCROLL as int, value),
            final(final(self).ram)@ == final(old(self).ram)@,
    {
        write_le_u16(self.ram, BG2_X_SCROLL, value);
    }

    pub fn set_bg2_y(&mut self, value: u16)
        requires
            BG2_Y_SCROLL + 1 < old(self).ram().len(),
        ensures
            final(self).ram() == types::with_u16(old(self).ram(), BG2_Y_SCROLL as int, value),
            final(final(self).ram)@ == final(old(self).ram)@,
    {
        write_le_u16(self.ram, BG2_Y_SCROLL, value);
    }

    pub fn set_bg1_x_offset(&mut self, value: u16)
        requires
            BG1_X_OFFSET + 1 < old(self).ram().len(),
        ensures
            final(self).ram() == types::with_u16(old(self).ram(), BG1_X_OFFSET as int, value),
            final(final(self).ram)@ == final(old(self).ram)@,
    {
        write_le_u16(self.ram, BG1_X_OFFSET, value);
    }

    pub fn set_bg1_y_offset(&mut self, value: u16)
        requires
            BG1_Y_OFFSET + 1 < old(self).ram().len(),
        ensures
            final(self).ram() == types::with_u16(old(self).ram(), BG1_Y_OFFSET as int, value),
            final(final(self).ram)@ == final(old(self).ram)@,
    {
        write_le_u16(self.ram, BG1_Y_OFFSET, value);
    }

    pub fn set_bg1_offsets(&mut self, x: u16, y: u16)
        requires
            BG1_X_OFFSET + 1 < old(self).ram().len(),
            BG1_Y_OFFSET + 1 < old(self).ram().len(),
        ensures
            final(self).ram() == types::with_u16(
                types::with_u16(old(self).ram(), BG1_X_OFFSET as int, x),
                BG1_Y_OFFSET as int,
                y,
            ),
            final(final(self).ram)@ == final(old(self).ram)@,
    {
        write_le_u16(self.ram, BG1_X_OFFSET, x);
        write_le_u16(self.ram, BG1_Y_OFFSET, y);
    }

    pub fn clear_bg1_offsets(&mut self)
        requires
            BG1_X_OFFSET + 1 < old(self).ram().len(),
            BG1_Y_OFFSET + 1 < old(self).ram().len(),
        ensures
            final(self).ram() == types::with_u16(
                types::with_u16(old(self).ram(), BG1_X_OFFSET as int, 0),
                BG1_Y_OFFSET as int,
                0,
            ),
            final(final(self).ram)@ == final(old(self).ram)@,
    {
        self.set_bg1_offsets(0, 0);
    }

    pub fn add_bg2_x(&mut self, value: u16)
        requires
            BG2_X_SCROLL + 1 < old(self).ram().len(),
        ensures
            final(self).ram() == types::with_u16(
                old(self).ram(),
                BG2_X_SCROLL as int,
                types::u16_at(old(self).ram(), BG2_X_SCROLL as int)
                    .wrapping_add(value),
            ),
            final(final(self).ram)@ == final(old(self).ram)@,
    {
        let x = read_le_u16(self.ram, BG2_X_SCROLL);
        write_le_u16(self.ram, BG2_X_SCROLL, x.wrapping_add(value));
    }

    pub fn set_room_transitioning_flags(&mut self, value: u8)
        requires
            ROOM_TRANSITIONING_FLAGS < old(self).ram().len(),
        ensures
            final(self).ram() == old(self).ram().update(ROOM_TRANSITIONING_FLAGS as int, value),
            final(final(self).ram)@ == final(old(self).ram)@,
    {
        self.ram[ROOM_TRANSITIONING_FLAGS] = value;
    }

    pub fn set_rng_seed(&mut self, value: u8)
        requires
            RNG_SEED < old(self).ram().len(),
        ensures
            final(self).ram() == old(self).ram().update(RNG_SEED as int, value),
            final(final(self).ram)@ == final(old(self).ram)@,
    {
        self.ram[RNG_SEED] = value;
    }

    pub fn set_trigger_special_entrance(&mut self, value: u8)
        requires
            TRIGGER_SPECIAL_ENTRANCE < old(self).ram().len(),
        ensures
            final(self).ram() == old(self).ram().update(TRIGGER_SPECIAL_ENTRANCE as int, value),
            final(final(self).ram)@ == final(old(self).ram)@,
    {
        self.ram[TRIGGER_SPECIAL_ENTRANCE] = value;
    }

    pub fn set_overworld_screen_trans_dir_bits(&mut self, value: u8)
        requires
            OVERWORLD_SCREEN_TRANS_DIR_BITS < old(self).ram().len(),
        ensures
            final(self).ram() == old(self).ram().update(
                OVERWORLD_SCREEN_TRANS_DIR_BITS as int,
                value,
            ),
            final(final(self).ram)@ == final(old(self).ram)@,
    {
        self.ram[OVERWORLD_SCREEN_TRANS_DIR_BITS] = value;
    }

    pub fn clear_tile_interaction_shared_flag(&mut self)
        requires
            TILE_INTERACTION_SHARED_FLAG < old(self).ram().len(),
        ensures
            final(self).ram() == old(self).ram().update(TILE_INTERACTION_SHARED_FLAG as int, 0u8),
            final(final(self).ram)@ == final(old(self).ram)@,
    {
        self.ram[TILE_INTERACTION_SHARED_FLAG] = 0;
    }

    pub fn set_dark_world_region_index(&mut self, value: u8)
        requires
            IS_IN_DARK_WORLD_FLAG < old(self).ram().len(),
        ensures
            final(self).ram() == old(self).ram().update(IS_IN_DARK_WORLD_FLAG as int, value),
            final(final(self).ram)@ == final(old(self).ram)@,
    {
        self.ram[IS_IN_DARK_WORLD_FLAG] = value;
    }

    pub fn set_which_entrance(&mut self, value: u16)
        requires
            WHICH_ENTRANCE + 1 < old(self).ram().len(),
        ensures
            final(self).ram() == types::with_u16(old(self).ram(), WHICH_ENTRANCE as int, value),
            final(final(self).ram)@ == final(old(self).ram)@,
    {
        write_le_u16(self.ram, WHICH_ENTRANCE, value);
    }

    pub fn set_birdtravel_status(&mut self, value: u8)
        requires
            BIRDTRAVEL_STATUS < old(self).ram().len(),
        ensures
            final(self).ram() == old(self).ram().update(BIRDTRAVEL_STATUS as int, value),
            final(final(self).ram)@ == final(old(self).ram)@,
    {
        self.ram[BIRDTRAVEL_STATUS] = value;
    }

    pub fn set_flag_travel_bird(&mut self, value: u8)
        requires
            FLAG_TRAVEL_BIRD < old(self).ram().len(),
        ensures
            final(self).ram() == old(self).ram().update(FLAG_TRAVEL_BIRD as int, value),
            final(final(self).ram)@ == final(old(self).ram)@,
    {
        self.ram[FLAG_TRAVEL_BIRD] = value;
    }

    pub fn clear_flag_overworld_area_changed(&mut self)
        requires
            FLAG_OVERWORLD_AREA_CHANGED < old(self).ram().len(),
        ensures
            final(self).ram() == old(self).ram().update(FLAG_OVERWORLD_AREA_CHANGED as int, 0u8),
            final(final(self).ram)@ == final(old(self).ram)@,
    {
        self.ram[FLAG_OVERWORLD_AREA_CHANGED] = 0;
    }

    pub fn set_last_light_vs_dark_world(&mut self, value: u8)
        requires
            LAST_LIGHT_VS_DARK_WORLD < old(self).ram().len(),
        ensures
            final(self).ram() == old(self).ram().update(LAST_LIGHT_VS_DARK_WORLD as int, value),
            final(final(self).ram)@ == final(old(self).ram)@,
    {
        self.ram[LAST_LIGHT_VS_DARK_WORLD] = value;
    }
}

} // verus!
