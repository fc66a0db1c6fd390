use vstd::prelude::*;
use super::access;
use super::access::{byte, word, fill_bytes, copy_bytes};
use super::addresses::{
    ACTIVATE_BOMB_TRAP_OVERLORD, ATTRIBUTES_FOR_TILE_PLAYER, CHANGEABLE_DUNGEON_OBJECT_INDEX,
    DOOR_ANIMATION_STEP_INDICATOR_DUNGEON, DOOR_OPEN_CLOSED_COUNTER, DOOR_TYPE_AND_SLOT,
    DUNGEON_BG1_ATTR_TABLE, DUNGEON_BG2_ATTR_TABLE, DUNGEON_DOOR_DIRECTION,
    DUNGEON_FLOOR_X_VELOCITY, DUNGEON_FLOOR_Y_VELOCITY, DUNGEON_HEADER_COLLISION_2_MIRROR,
    DUNGEON_HEADER_TAG, DUNGEON_REPLACEMENT_TILE_STATE, DUNGEON_ROOM_HISTORY, DUNGEON_ROOM_INDEX2,
    DUNGEON_TRAP_TRIGGER_LATCH, DUNG_BG1, DUNG_BG2, DUNG_CHEST_LOCATIONS, DUNG_CUR_DOOR_IDX,
    DUNG_CUR_DOOR_POS_DUNGEON, DUNG_CUR_FLOOR, DUNG_CUR_FLOOR_CACHED, DUNG_CUR_QUADRANT_UPLOAD,
    DUNG_DOOR_OPENED, DUNG_DOOR_OPENED_INCL_ADJACENT, DUNG_DOOR_TILEMAP_ADDRESS,
    DUNG_DRAW_HEIGHT_INDICATOR, DUNG_DRAW_WIDTH_INDICATOR, DUNG_FLAG_STATECHANGE_WATERPUZZLE,
    DUNG_FLAG_TRAPDOORS_DOWN, DUNG_FLOOR_MOVE_FLAGS, DUNG_FLOOR_X_OFFS, DUNG_FLOOR_Y_OFFS,
    DUNG_HDR_BG2_PROPERTIES, DUNG_HDR_COLLISION, DUNG_HDR_COLLISION_2, DUNG_INTER_STAIRCASES,
    DUNG_LOAD_PTR_OFFS, DUNG_MISC_OBJS_INDEX, DUNG_NUM_LIT_TORCHES, DUNG_OBJECT_POS_IN_OBJDATA,
    DUNG_OBJECT_TILEMAP_POS, DUNG_SAVEGAME_STATE_BITS, DUNG_WANT_LIGHTS_OUT,
    DUNG_WANT_LIGHTS_OUT_COPY, FLOOR_1_FILLER_TILES, FLOOR_2_FILLER_TILES,
    HDR_DUNGEON_DARK_WITH_LANTERN, KIND_OF_IN_ROOM_STAIRCASE, MOVING_FLOOR_BG_CHECK_FLAGS,
    ORANGE_BLUE_BARRIER_STATE, STAIRCASE_MOVE_COUNTER, WHICH_STAIRCASE_INDEX,
};
use vstd::slice::{slice_subrange};
use crate::types;
use crate::types::{read_le_u16, write_le_u16};

verus! {

pub struct DungeonStateView<'a> {
    ram: &'a [u8],
}

impl<'a> DungeonStateView<'a> {
    /// The bytes of RAM this view reads and writes.
    pub closed spec fn ram(&self) -> Seq<u8> {
        self.ram@
    }

    pub fn new(ram: &'a [u8]) -> (view: Self)
        ensures
            view.ram() == ram@,
    {
        Self { ram }
    }

    pub fn header_tag(&self, index: usize) -> (result: u8)
        requires
            DUNGEON_HEADER_TAG + index <= usize::MAX,
        ensures
            result == access::byte_at(self.ram(), DUNGEON_HEADER_TAG + index),
    {
        byte(self.ram, DUNGEON_HEADER_TAG + index)
    }

    pub fn primary_header_tag(&self) -> (result: u8)
        ensures
            result == access::byte_at(self.ram(), DUNGEON_HEADER_TAG + 0),
    {
        self.header_tag(0)
    }

    pub fn bg2_attr(&self, offset: usize) -> (result: u8)
        requires
            DUNGEON_BG2_ATTR_TABLE + offset <= usize::MAX,
        ensures
            result == access::byte_at(self.ram(), DUNGEON_BG2_ATTR_TABLE + offset),
    {
        byte(self.ram, DUNGEON_BG2_ATTR_TABLE + offset)
    }

    pub fn bg2_attr_word(&self, offset: usize) -> (result: u16)
        requires
            (DUNGEON_BG2_ATTR_TABLE + offset) + 1 <= usize::MAX,
        ensures
            result == access::word_at(self.ram(), DUNGEON_BG2_ATTR_TABLE + offset),
    {
        word(self.ram, DUNGEON_BG2_ATTR_TABLE + offset)
    }

    pub fn bg1_attr(&self, offset: usize) -> (result: u8)
        requires
            DUNGEON_BG1_ATTR_TABLE + offset <= usize::MAX,
        ensures
            result == access::byte_at(self.ram(), DUNGEON_BG1_ATTR_TABLE + offset),
    {
        byte(self.ram, DUNGEON_BG1_ATTR_TABLE + offset)
    }

    pub fn bg1_attr_word(&self, offset: usize) -> (result: u16)
        requires
            (DUNGEON_BG1_ATTR_TABLE + offset) + 1 <= usize::MAX,
        ensures
            result == access::word_at(self.ram(), DUNGEON_BG1_ATTR_TABLE + offset),
    {
        word(self.ram, DUNGEON_BG1_ATTR_TABLE + offset)
    }

    pub fn attr_for_tile(&self, tile: usize) -> (result: u8)
        requires
            ATTRIBUTES_FOR_TILE_PLAYER + (tile & 0x03ffusize) <= usize::MAX,
        ensures
            result == access::byte_at(self.ram(), ATTRIBUTES_FOR_TILE_PLAYER + (tile & 0x03ffusize)),
    {
        byte(self.ram, ATTRIBUTES_FOR_TILE_PLAYER + (tile & 0x03ff))
    }

    pub fn header_collision_2_mirror_high(&self) -> (result: u8)
        ensures
            result == access::byte_at(self.ram(), DUNGEON_HEADER_COLLISION_2_MIRROR + 1),
    {
        byte(self.ram, DUNGEON_HEADER_COLLISION_2_MIRROR + 1)
    }

    pub fn header_collision(&self) -> (result: u8)
        ensures
            result == access::byte_at(self.ram(), DUNG_HDR_COLLISION as int),
    {
        byte(self.ram, DUNG_HDR_COLLISION)
    }

    pub fn header_collision_2(&self) -> (result: u8)
        ensures
            result == access::byte_at(self.ram(), DUNG_HDR_COLLISION_2 as int),
    {
        byte(self.ram, DUNG_HDR_COLLISION_2)
    }

    pub fn header_collision_2_mirror(&self) -> (result: u8)
        ensures
            result == access::byte_at(self.ram(), DUNGEON_HEADER_COLLISION_2_MIRROR as int),
    {
        byte(self.ram, DUNGEON_HEADER_COLLISION_2_MIRROR)
    }

    pub fn bg2_properties(&self) -> (result: u8)
        ensures
            result == access::byte_at(self.ram(), DUNG_HDR_BG2_PROPERTIES as int),
    {
        byte(self.ram, DUNG_HDR_BG2_PROPERTIES)
    }

    pub fn current_floor(&self) -> (result: u8)
        ensures
            result == access::byte_at(self.ram(), DUNG_CUR_FLOOR as int),
    {
        byte(self.ram, DUNG_CUR_FLOOR)
    }

    pub fn current_floor_word(&self) -> (result: u16)
        ensures
            result == access::word_at(self.ram(), DUNG_CUR_FLOOR as int),
    {
        word(self.ram, DUNG_CUR_FLOOR)
    }

    pub fn cached_floor(&self) -> (result: u8)
        ensures
            result == access::byte_at(self.ram(), DUNG_CUR_FLOOR_CACHED as int),
    {
        byte(self.ram, DUNG_CUR_FLOOR_CACHED)
    }

    pub fn floor_y_velocity(&self) -> (result: u16)
        ensures
            result == access::word_at(self.ram(), DUNGEON_FLOOR_Y_VELOCITY as int),
    {
        word(self.ram, DUNGEON_FLOOR_Y_VELOCITY)
    }

    pub fn floor_y_velocity_low(&self) -> (result: u8)
        ensures
            result == access::byte_at(self.ram(), DUNGEON_FLOOR_Y_VELOCITY as int),
    {
        byte(self.ram, DUNGEON_FLOOR_Y_VELOCITY)
    }

    pub fn floor_x_velocity(&self) -> (result: u16)
        ensures
            result == access::word_at(self.ram(), DUNGEON_FLOOR_X_VELOCITY as int),
    {
        word(self.ram, DUNGEON_FLOOR_X_VELOCITY)
    }

    pub fn floor_x_velocity_low(&self) -> (result: u8)
        ensures
            result == access::byte_at(self.ram(), DUNGEON_FLOOR_X_VELOCITY as int),
    {
        byte(self.ram, DUNGEON_FLOOR_X_VELOCITY)
    }

    pub fn lit_torches(&self) -> (result: u8)
        ensures
            result == access::byte_at(self.ram(), DUNG_NUM_LIT_TORCHES as int),
    {
        byte(self.ram, DUNG_NUM_LIT_TORCHES)
    }

    pub fn orange_blue_barrier_state(&self) -> (result: u8)
        ensures
            result == access::byte_at(self.ram(), ORANGE_BLUE_BARRIER_STATE as int),
    {
        byte(self.ram, ORANGE_BLUE_BARRIER_STATE)
    }

    pub fn wants_lights_out(&self) -> (result: u8)
        ensures
            result == access::byte_at(self.ram(), DUNG_WANT_LIGHTS_OUT as int),
    {
        byte(self.ram, DUNG_WANT_LIGHTS_OUT)
    }

    pub fn wants_lights_out_copy(&self) -> (result: u8)
        ensures
            result == access::byte_at(self.ram(), DUNG_WANT_LIGHTS_OUT_COPY as int),
    {
        byte(self.ram, DUNG_WANT_LIGHTS_OUT_COPY)
    }

    pub fn any_lights_out_request(&self) -> (result: u8)
        ensures
            result == (access::byte_at(self.ram(), DUNG_WANT_LIGHTS_OUT as int)
                 | access::byte_at(self.ram(), DUNG_WANT_LIGHTS_OUT_COPY as int)),
    {
        self.wants_lights_out() | self.wants_lights_out_copy()
    }

    pub fn quadrant_upload_index(&self) -> (result: u8)
        ensures
            result == access::byte_at(self.ram(), DUNG_CUR_QUADRANT_UPLOAD as int),
    {
        byte(self.ram, DUNG_CUR_QUADRANT_UPLOAD)
    }

    pub fn trapdoors_down(&self) -> (result: u16)
        ensures
            result == access::word_at(self.ram(), DUNG_FLAG_TRAPDOORS_DOWN as int),
    {
        word(self.ram, DUNG_FLAG_TRAPDOORS_DOWN)
    }

    pub fn trapdoors_down_low(&self) -> (result: u8)
        ensures
            result == access::byte_at(self.ram(), DUNG_FLAG_TRAPDOORS_DOWN as int),
    {
        byte(self.ram, DUNG_FLAG_TRAPDOORS_DOWN)
    }

    pub fn water_puzzle_state_changed(&self) -> (result: u8)
        ensures
            result == access::byte_at(self.ram(), DUNG_FLAG_STATECHANGE_WATERPUZZLE as int),
    {
        byte(self.ram, DUNG_FLAG_STATECHANGE_WATERPUZZLE)
    }

    pub fn draw_width_indicator(&self) -> (result: u8)
        ensures
            result == access::byte_at(self.ram(), DUNG_DRAW_WIDTH_INDICATOR as int),
    {
        byte(self.ram, DUNG_DRAW_WIDTH_INDICATOR)
    }

    pub fn draw_width_indicator_word(&self) -> (result: u16)
        ensures
            result == access::word_at(self.ram(), DUNG_DRAW_WIDTH_INDICATOR as int),
    {
        word(self.ram, DUNG_DRAW_WIDTH_INDICATOR)
    }

    pub fn draw_height_indicator(&self) -> (result: u8)
        ensures
            result == access::byte_at(self.ram(), DUNG_DRAW_HEIGHT_INDICATOR as int),
    {
        byte(self.ram, DUNG_DRAW_HEIGHT_INDICATOR)
    }

    pub fn draw_height_indicator_word(&self) -> (result: u16)
        ensures
            result == access::word_at(self.ram(), DUNG_DRAW_HEIGHT_INDICATOR as int),
    {
        word(self.ram, DUNG_DRAW_HEIGHT_INDICATOR)
    }

    pub fn opened_doors_including_adjacent(&self) -> (result: u16)
        ensures
            result == access::word_at(self.ram(), DUNG_DOOR_OPENED_INCL_ADJACENT as int),
    {
        word(self.ram, DUNG_DOOR_OPENED_INCL_ADJACENT)
    }

    pub fn opened_doors(&self) -> (result: u16)
        ensures
            result == access::word_at(self.ram(), DUNG_DOOR_OPENED as int),
    {
        word(self.ram, DUNG_DOOR_OPENED)
    }

    pub fn floor_x_offset(&self) -> (result: u16)
        ensures
            result == access::word_at(self.ram(), DUNG_FLOOR_X_OFFS as int),
    {
        word(self.ram, DUNG_FLOOR_X_OFFS)
    }

    pub fn floor_y_offset(&self) -> (result: u16)
        ensures
            result == access::word_at(self.ram(), DUNG_FLOOR_Y_OFFS as int),
    {
        word(self.ram, DUNG_FLOOR_Y_OFFS)
    }

    pub fn object_pos_in_objdata(&self, index: usize) -> (result: u16)
        requires
            (DUNG_OBJECT_POS_IN_OBJDATA + (index * 2)) + 1 <= usize::MAX,
        ensures
            result == access::word_at(self.ram(), DUNG_OBJECT_POS_IN_OBJDATA + (index * 2)),
    {
        word(self.ram, DUNG_OBJECT_POS_IN_OBJDATA + index * 2)
    }

    pub fn has_opened_door_mask(&self, mask: u16) -> (result: bool)
        ensures
            result == ((access::word_at(self.ram(), DUNG_DOOR_OPENED_INCL_ADJACENT as int) & mask) != 0),
    {
        self.opened_doors_including_adjacent() & mask != 0
    }

    pub fn door_animation_step(&self) -> (result: u16)
        ensures
            result == access::word_at(self.ram(), DOOR_ANIMATION_STEP_INDICATOR_DUNGEON as int),
    {
        word(self.ram, DOOR_ANIMATION_STEP_INDICATOR_DUNGEON)
    }

    pub fn door_animation_step_low(&self) -> (result: u8)
        ensures
            result == access::byte_at(self.ram(), DOOR_ANIMATION_STEP_INDICATOR_DUNGEON as int),
    {
        byte(self.ram, DOOR_ANIMATION_STEP_INDICATOR_DUNGEON)
    }

    pub fn staircase_index(&self) -> (result: u8)
        ensures
            result == access::byte_at(self.ram(), WHICH_STAIRCASE_INDEX as int),
    {
        byte(self.ram, WHICH_STAIRCASE_INDEX)
    }

    pub fn staircase_index_slot(&self) -> (result: usize)
        ensures
            result == ((access::byte_at(self.ram(), WHICH_STAIRCASE_INDEX as int) & 3u8) as usize),
    {
        (self.staircase_index() & 3) as usize
    }

    pub fn staircase_index_has_vertical_bit(&self) -> (result: bool)
        ensures
            result == ((access::byte_at(self.ram(), WHICH_STAIRCASE_INDEX as int) & 4u8) != 0),
    {
        self.staircase_index() & 4 != 0
    }

    pub fn staircase_move_counter(&self) -> (result: u8)
        ensures
            result == access::byte_at(self.ram(), STAIRCASE_MOVE_COUNTER as int),
    {
        byte(self.ram, STAIRCASE_MOVE_COUNTER)
    }

    pub fn inter_staircase_pos(&self, index: usize) -> (result: u16)
        requires
            (DUNG_INTER_STAIRCASES + (index * 2)) + 1 <= usize::MAX,
        ensures
            result == access::word_at(self.ram(), DUNG_INTER_STAIRCASES + (index * 2)),
    {
        word(self.ram, DUNG_INTER_STAIRCASES + index * 2)
    }

    pub fn bg2_attr_address(&self, offset: usize) -> (result: usize)
        requires
            DUNGEON_BG2_ATTR_TABLE + offset <= usize::MAX,
        ensures
            result == (DUNGEON_BG2_ATTR_TABLE + offset),
    {
        DUNGEON_BG2_ATTR_TABLE + offset
    }

    pub fn bg2_attr_pair(&self, offset: usize) -> (result: Option<(u8, u8)>)
        requires
            DUNGEON_BG2_ATTR_TABLE + offset <= usize::MAX,
        ensures
            result == (if DUNGEON_BG2_ATTR_TABLE + offset + 1 < self.ram().len() {
                Some(
                    (
                        self.ram()[DUNGEON_BG2_ATTR_TABLE + offset],
                        self.ram()[DUNGEON_BG2_ATTR_TABLE + offset + 1],
                    ),
                )
            } else {
                None
            }),
    {
        let address = self.bg2_attr_address(offset);
        if address < self.ram.len() && address + 1 < self.ram.len() {
            Some((self.ram[address], self.ram[address + 1]))
        } else {
            None
        }
    }

    pub fn bg2_attr_slice(&self, start: usize, len: usize) -> (result: &[u8])
        requires
            DUNGEON_BG2_ATTR_TABLE + start <= usize::MAX,
            (DUNGEON_BG2_ATTR_TABLE + start) + len <= self.ram().len(),
        ensures
            result@ == self.ram()
                .subrange(
                    DUNGEON_BG2_ATTR_TABLE + start,
                    (DUNGEON_BG2_ATTR_TABLE + start) + len,
                ),
    {
        proof {
            assert(self.ram@.len() == self.ram.len());
        }
        slice_subrange(
            self.ram,
            DUNGEON_BG2_ATTR_TABLE + start,
            DUNGEON_BG2_ATTR_TABLE + start + len,
        )
    }

    pub fn door_type_and_slot(&self, door: usize) -> (result: u8)
        requires
            DOOR_TYPE_AND_SLOT + (door * 2) <= usize::MAX,
        ensures
            result == access::byte_at(self.ram(), DOOR_TYPE_AND_SLOT + (door * 2)),
    {
        byte(self.ram, DOOR_TYPE_AND_SLOT + door * 2)
    }

    pub fn door_type_word(&self, door: usize) -> (result: u16)
        requires
            (DOOR_TYPE_AND_SLOT + (door * 2)) + 1 <= usize::MAX,
        ensures
            result == access::word_at(self.ram(), DOOR_TYPE_AND_SLOT + (door * 2)),
    {
        word(self.ram, DOOR_TYPE_AND_SLOT + door * 2)
    }

    pub fn door_direction(&self, door: usize) -> (result: u8)
        requires
            DUNGEON_DOOR_DIRECTION + (door * 2) <= usize::MAX,
        ensures
            result == access::byte_at(self.ram(), DUNGEON_DOOR_DIRECTION + (door * 2)),
    {
        byte(self.ram, DUNGEON_DOOR_DIRECTION + door * 2)
    }

    pub fn door_direction_word(&self, door: usize) -> (result: u16)
        requires
            (DUNGEON_DOOR_DIRECTION + (door * 2)) + 1 <= usize::MAX,
        ensures
            result == access::word_at(self.ram(), DUNGEON_DOOR_DIRECTION + (door * 2)),
    {
        word(self.ram, DUNGEON_DOOR_DIRECTION + door * 2)
    }

    pub fn changeable_object_index(&self, index: usize) -> (result: u8)
        requires
            CHANGEABLE_DUNGEON_OBJECT_INDEX + index <= usize::MAX,
        ensures
            result == access::byte_at(self.ram(), CHANGEABLE_DUNGEON_OBJECT_INDEX + index),
    {
        byte(self.ram, CHANGEABLE_DUNGEON_OBJECT_INDEX + index)
    }

    pub fn replacement_tile_state(&self, index: usize) -> (result: u16)
        requires
            (DUNGEON_REPLACEMENT_TILE_STATE + (index * 2)) + 1 <= usize::MAX,
        ensures
            result == access::word_at(self.ram(), DUNGEON_REPLACEMENT_TILE_STATE + (index * 2)),
    {
        word(self.ram, DUNGEON_REPLACEMENT_TILE_STATE + index * 2)
    }

    pub fn savegame_state_bits(&self) -> (result: u16)
        ensures
            result == access::word_at(self.ram(), DUNG_SAVEGAME_STATE_BITS as int),
    {
        word(self.ram, DUNG_SAVEGAME_STATE_BITS)
    }

    pub fn has_savegame_state_bits(&self, mask: u16) -> (result: bool)
        ensures
            result == ((access::word_at(self.ram(), DUNG_SAVEGAME_STATE_BITS as int) & mask) != 0),
    {
        self.savegame_state_bits() & mask != 0
    }

    pub fn room_index2(&self) -> (result: u8)
        ensures
            result == access::byte_at(self.ram(), DUNGEON_ROOM_INDEX2 as int),
    {
        byte(self.ram, DUNGEON_ROOM_INDEX2)
    }

    pub fn room_index2_word(&self) -> (result: u16)
        ensures
            result == access::word_at(self.ram(), DUNGEON_ROOM_INDEX2 as int),
    {
        word(self.ram, DUNGEON_ROOM_INDEX2)
    }

    pub fn bg2_tile(&self, index: usize) -> (result: u16)
        requires
            (DUNG_BG2 + (index * 2)) + 1 <= usize::MAX,
        ensures
            result == access::word_at(self.ram(), DUNG_BG2 + (index * 2)),
    {
        word(self.ram, DUNG_BG2 + index * 2)
    }

    pub fn bg1_tile(&self, index: usize) -> (result: u16)
        requires
            (DUNG_BG1 + (index * 2)) + 1 <= usize::MAX,
        ensures
            result == access::word_at(self.ram(), DUNG_BG1 + (index * 2)),
    {
        word(self.ram, DUNG_BG1 + index * 2)
    }

    pub fn bg1_tile_by_byte_pos(&self, pos: u16) -> (result: u16)
        requires
            ((pos >> 1) as usize) * 2 <= usize::MAX,
            (DUNG_BG1 + (((pos >> 1) as usize) * 2)) + 1 <= usize::MAX,
        ensures
            result == access::word_at(self.ram(), DUNG_BG1 + (((pos >> 1) as usize) * 2)),
    {
        self.bg1_tile((pos >> 1) as usize)
    }

    pub fn bg2_tile_by_byte_pos(&self, pos: u16) -> (result: u16)
        requires
            ((pos >> 1) as usize) * 2 <= usize::MAX,
            (DUNG_BG2 + (((pos >> 1) as usize) * 2)) + 1 <= usize::MAX,
        ensures
            result == access::word_at(self.ram(), DUNG_BG2 + (((pos >> 1) as usize) * 2)),
    {
        self.bg2_tile((pos >> 1) as usize)
    }

    pub fn misc_object_index(&self) -> (result: u16)
        ensures
            result == access::word_at(self.ram(), DUNG_MISC_OBJS_INDEX as int),
    {
        word(self.ram, DUNG_MISC_OBJS_INDEX)
    }

    pub fn misc_object_slot(&self) -> (result: usize)
        ensures
            result == ((access::word_at(self.ram(), DUNG_MISC_OBJS_INDEX as int) >> 1) as usize),
    {
        (self.misc_object_index() >> 1) as usize
    }

    pub fn load_ptr_offset(&self) -> (result: u16)
        ensures
            result == access::word_at(self.ram(), DUNG_LOAD_PTR_OFFS as int),
    {
        word(self.ram, DUNG_LOAD_PTR_OFFS)
    }

    pub fn object_tilemap_pos(&self, index: usize) -> (result: u16)
        requires
            (DUNG_OBJECT_TILEMAP_POS + (index * 2)) + 1 <= usize::MAX,
        ensures
            result == access::word_at(self.ram(), DUNG_OBJECT_TILEMAP_POS + (index * 2)),
    {
        word(self.ram, DUNG_OBJECT_TILEMAP_POS + index * 2)
    }

    pub fn door_tilemap_address(&self, door: usize) -> (result: u16)
        requires
            (DUNG_DOOR_TILEMAP_ADDRESS + (door * 2)) + 1 <= usize::MAX,
        ensures
            result == access::word_at(self.ram(), DUNG_DOOR_TILEMAP_ADDRESS + (door * 2)),
    {
        word(self.ram, DUNG_DOOR_TILEMAP_ADDRESS + door * 2)
    }

    pub fn current_door_index(&self) -> (result: u16)
        ensures
            result == access::word_at(self.ram(), DUNG_CUR_DOOR_IDX as int),
    {
        word(self.ram, DUNG_CUR_DOOR_IDX)
    }

    pub fn current_door_slot(&self) -> (result: usize)
        ensures
            result == ((access::word_at(self.ram(), DUNG_CUR_DOOR_IDX as int) >> 1) as usize),
    {
        (self.current_door_index() >> 1) as usize
    }

    pub fn current_door_pos(&self) -> (result: u16)
        ensures
            result == access::word_at(self.ram(), DUNG_CUR_DOOR_POS_DUNGEON as int),
    {
        word(self.ram, DUNG_CUR_DOOR_POS_DUNGEON)
    }

    pub fn door_open_counter(&self) -> (result: u16)
        ensures
            result == access::word_at(self.ram(), DOOR_OPEN_CLOSED_COUNTER as int),
    {
        word(self.ram, DOOR_OPEN_CLOSED_COUNTER)
    }

    pub fn door_open_counter_low(&self) -> (result: u8)
        ensures
            result == access::byte_at(self.ram(), DOOR_OPEN_CLOSED_COUNTER as int),
    {
        byte(self.ram, DOOR_OPEN_CLOSED_COUNTER)
    }

    pub fn trap_trigger_latch(&self) -> (result: u8)
        ensures
            result == access::byte_at(self.ram(), DUNGEON_TRAP_TRIGGER_LATCH as int),
    {
        byte(self.ram, DUNGEON_TRAP_TRIGGER_LATCH)
    }

    pub fn room_history_entry(&self, index: usize) -> (result: u16)
        requires
            (DUNGEON_ROOM_HISTORY + (index * 2)) + 1 <= usize::MAX,
        ensures
            result == access::word_at(self.ram(), DUNGEON_ROOM_HISTORY + (index * 2)),
    {
        word(self.ram, DUNGEON_ROOM_HISTORY + index * 2)
    }

    pub fn floor_move_flags(&self) -> (result: u8)
        ensures
            result == access::byte_at(self.ram(), DUNG_FLOOR_MOVE_FLAGS as int),
    {
        byte(self.ram, DUNG_FLOOR_MOVE_FLAGS)
    }

    pub fn has_bomb_trap_activation(&self) -> (result: bool)
        ensures
            result == (access::byte_at(self.ram(), ACTIVATE_BOMB_TRAP_OVERLORD as int) != 0),
    {
        byte(self.ram, ACTIVATE_BOMB_TRAP_OVERLORD) != 0
    }

    pub fn kind_of_in_room_staircase(&self) -> (result: u8)
        ensures
            result == access::byte_at(self.ram(), KIND_OF_IN_ROOM_STAIRCASE as int),
    {
        byte(self.ram, KIND_OF_IN_ROOM_STAIRCASE)
    }

    pub fn chest_location(&self, index: usize) -> (result: u16)
        requires
            (DUNG_CHEST_LOCATIONS + (index * 2)) + 1 <= usize::MAX,
        ensures
            result == access::word_at(self.ram(), DUNG_CHEST_LOCATIONS + (index * 2)),
    {
        word(self.ram, DUNG_CHEST_LOCATIONS + index * 2)
    }

    pub fn moving_floor_check_flags(&self) -> (result: u16)
        ensures
            result == access::word_at(self.ram(), MOVING_FLOOR_BG_CHECK_FLAGS as int),
    {
        word(self.ram, MOVING_FLOOR_BG_CHECK_FLAGS)
    }
}

pub struct DungeonStateViewMut<'a> {
    pub ram: &'a mut [u8],
}

impl<'a> DungeonStateViewMut<'a> {
    /// The bytes of RAM this view reads and writes.
    pub open spec fn ram(&self) -> Seq<u8> {
        self.ram@
    }

    pub fn new(ram: &'a mut [u8]) -> (view: Self)
        ensures
            view.ram() == old(ram)@,
            final(view.ram)@ == final(ram)@,
    {
        Self { ram }
    }

    pub fn set_header_tag(&mut self, index: usize, value: u8)
        requires
            DUNGEON_HEADER_TAG + index < old(self).ram().len(),
        ensures
            final(self).ram() == old(self).ram().update(DUNGEON_HEADER_TAG + index, value),
            final(final(self).ram)@ == final(old(self).ram)@,
    {
        proof {
            assert(self.ram@.len() == self.ram.len());
        }
        self.ram[DUNGEON_HEADER_TAG + index] = value;
    }

    pub fn clear_header_tag(&mut self, index: usize)
        requires
            DUNGEON_HEADER_TAG + index < old(self).ram().len(),
        ensures
            final(self).ram() == old(self).ram().update(DUNGEON_HEADER_TAG + index, 0),
            final(final(self).ram)@ == final(old(self).ram)@,
    {
        proof {
            assert(self.ram@.len() == self.ram.len());
        }
        self.set_header_tag(index, 0);
    }

    pub fn clear_header_tags(&mut self, count: usize)
        requires
            DUNGEON_HEADER_TAG + count <= old(self).ram().len(),
        ensures
            final(self).ram() == access::filled(
                old(self).ram(),
                DUNGEON_HEADER_TAG as int,
                DUNGEON_HEADER_TAG + count,
                0u8,
            ),
            final(final(self).ram)@ == final(old(self).ram)@,
    {
        proof {
            assert(self.ram@.len() == self.ram.len());
        }
        fill_bytes(self.ram, DUNGEON_HEADER_TAG, DUNGEON_HEADER_TAG + count, 0);
    }

    pub fn set_bg2_attr(&mut self, offset: usize, value: u8)
        requires
            DUNGEON_BG2_ATTR_TABLE + offset < old(self).ram().len(),
        ensures
            final(self).ram() == old(self).ram().update(DUNGEON_BG2_ATTR_TABLE + offset, value),
            final(final(self).ram)@ == final(old(self).ram)@,
    {
        proof {
            assert(self.ram@.len() == self.ram.len());
        }
        self.ram[DUNGEON_BG2_ATTR_TABLE + offset] = value;
    }

    pub fn set_bg2_attr_word(&mut self, offset: usize, value: u16)
        requires
            (DUNGEON_BG2_ATTR_TABLE + offset) + 1 < old(self).ram().len(),
        ensures
            final(self).ram() == types::with_u16(
                old(self).ram(),
                DUNGEON_BG2_ATTR_TABLE + offset,
                value,
            ),
            final(final(self).ram)@ == final(old(self).ram)@,
    {
        proof {
            assert(self.ram@.len() == self.ram.len());
        }
        write_le_u16(self.ram, DUNGEON_BG2_ATTR_TABLE + offset, value);
    }

    pub fn set_bg1_attr_word(&mut self, offset: usize, value: u16)
        requires
            (DUNGEON_BG1_ATTR_TABLE + offset) + 1 < old(self).ram().len(),
        ensures
            final(self).ram() == types::with_u16(
                old(self).ram(),
                DUNGEON_BG1_ATTR_TABLE + offset,
                value,
            ),
            final(final(self).ram)@ == final(old(self).ram)@,
    {
        proof {
            assert(self.ram@.len() == self.ram.len());
        }
        write_le_u16(self.ram, DUNGEON_BG1_ATTR_TABLE + offset, value);
    }

    pub fn xor_bg2_attr(&mut self, offset: usize, value: u8)
        requires
            DUNGEON_BG2_ATTR_TABLE + offset < old(self).ram().len(),
        ensures
            final(self).ram() == old(self).ram().update(
                DUNGEON_BG2_ATTR_TABLE + offset,
                old(self).ram()[DUNGEON_BG2_ATTR_TABLE + offset] ^ value,
            ),
            final(final(self).ram)@ == final(old(self).ram)@,
    {
        proof {
            assert(self.ram@.len() == self.ram.len());
        }
        self.ram[DUNGEON_BG2_ATTR_TABLE + offset] ^= value;
    }

    pub fn xor_bg1_attr(&mut self, offset: usize, value: u8)
        requires
            DUNGEON_BG1_ATTR_TABLE + offset < old(self).ram().len(),
        ensures
            final(self).ram() == old(self).ram().update(
                DUNGEON_BG1_ATTR_TABLE + offset,
                old(self).ram()[DUNGEON_BG1_ATTR_TABLE + offset] ^ value,
            ),
            final(final(self).ram)@ == final(old(self).ram)@,
    {
        proof {
            assert(self.ram@.len() == self.ram.len());
        }
        self.ram[DUNGEON_BG1_ATTR_TABLE + offset] ^= value;
    }

    pub fn set_floor_y_velocity_high(&mut self, value: u8)
        requires
            DUNGEON_FLOOR_Y_VELOCITY + 1 < old(self).ram().len(),
        ensures
            final(self).ram() == old(self).ram().update(DUNGEON_FLOOR_Y_VELOCITY + 1, value),
            final(final(self).ram)@ == final(old(self).ram)@,
    {
        self.ram[DUNGEON_FLOOR_Y_VELOCITY + 1] = value;
    }

    pub fn set_floor_y_velocity(&mut self, value: u16)
        requires
            DUNGEON_FLOOR_Y_VELOCITY + 1 < old(self).ram().len(),
        ensures
            final(self).ram() == types::with_u16(
                old(self).ram(),
                DUNGEON_FLOOR_Y_VELOCITY as int,
                value,
            ),
            final(final(self).ram)@ == final(old(self).ram)@,
    {
        write_le_u16(self.ram, DUNGEON_FLOOR_Y_VELOCITY, value);
    }

    pub fn set_floor_x_velocity(&mut self, value: u16)
        requires
            DUNGEON_FLOOR_X_VELOCITY + 1 < old(self).ram().len(),
        ensures
            final(self).ram() == types::with_u16(
                old(self).ram(),
                DUNGEON_FLOOR_X_VELOCITY as int,
                value,
            ),
            final(final(self).ram)@ == final(old(self).ram)@,
    {
        write_le_u16(self.ram, DUNGEON_FLOOR_X_VELOCITY, value);
    }

    pub fn clear_floor_velocity(&mut self)
        requires
            DUNGEON_FLOOR_X_VELOCITY + 1 < old(self).ram().len(),
            DUNGEON_FLOOR_Y_VELOCITY + 1 < old(self).ram().len(),
        ensures
            final(self).ram() == types::with_u16(
                types::with_u16(
                    old(self).ram(),
                    DUNGEON_FLOOR_X_VELOCITY as int,
                    0u16,
                ),
                DUNGEON_FLOOR_Y_VELOCITY as int,
                0u16,
            ),
            final(final(self).ram)@ == final(old(self).ram)@,
    {
        write_le_u16(self.ram, DUNGEON_FLOOR_X_VELOCITY, 0);
        write_le_u16(self.ram, DUNGEON_FLOOR_Y_VELOCITY, 0);
    }

    pub fn set_header_collision_2_mirror_high(&mut self, value: u8)
        requires
            DUNGEON_HEADER_COLLISION_2_MIRROR + 1 < old(self).ram().len(),
        ensures
            final(self).ram() == old(self).ram().update(
                DUNGEON_HEADER_COLLISION_2_MIRROR + 1,
                value,
            ),
            final(final(self).ram)@ == final(old(self).ram)@,
    {
        self.ram[DUNGEON_HEADER_COLLISION_2_MIRROR + 1] = value;
    }

    pub fn set_header_collision(&mut self, value: u8)
        requires
            DUNG_HDR_COLLISION < old(self).ram().len(),
        ensures
            final(self).ram() == old(self).ram().update(DUNG_HDR_COLLISION as int, value),
            final(final(self).ram)@ == final(old(self).ram)@,
    {
        self.ram[DUNG_HDR_COLLISION] = value;
    }

    pub fn set_header_collision_2(&mut self, value: u8)
        requires
            DUNG_HDR_COLLISION_2 < old(self).ram().len(),
        ensures
            final(self).ram() == old(self).ram().update(DUNG_HDR_COLLISION_2 as int, value),
            final(final(self).ram)@ == final(old(self).ram)@,
    {
        self.ram[DUNG_HDR_COLLISION_2] = value;
    }

    pub fn clear_header_collision_2(&mut self)
        requires
            DUNG_HDR_COLLISION_2 < old(self).ram().len(),
        ensures
            final(self).ram() == old(self).ram().update(DUNG_HDR_COLLISION_2 as int, 0u8),
            final(final(self).ram)@ == final(old(self).ram)@,
    {
        self.ram[DUNG_HDR_COLLISION_2] = 0;
    }

    pub fn set_header_collision_2_mirror(&mut self, value: u8)
        requires
            DUNGEON_HEADER_COLLISION_2_MIRROR < old(self).ram().len(),
        ensures
            final(self).ram() == old(self).ram().update(
                DUNGEON_HEADER_COLLISION_2_MIRROR as int,
                value,
            ),
            final(final(self).ram)@ == final(old(self).ram)@,
    {
        self.ram[DUNGEON_HEADER_COLLISION_2_MIRROR] = value;
    }

    pub fn increment_header_collision_2_mirror(&mut self) -> (result: u8)
        requires
            DUNGEON_HEADER_COLLISION_2_MIRROR < old(self).ram().len(),
        ensures
            result == old(self).ram()[DUNGEON_HEADER_COLLISION_2_MIRROR as int].wrapping_add(1),
            final(self).ram() == old(self).ram().update(
                DUNGEON_HEADER_COLLISION_2_MIRROR as int,
                old(self).ram()[DUNGEON_HEADER_COLLISION_2_MIRROR as int].wrapping_add(1),
            ),
            final(final(self).ram)@ == final(old(self).ram)@,
    {
        self.ram[DUNGEON_HEADER_COLLISION_2_MIRROR] = self.ram[DUNGEON_HEADER_COLLISION_2_MIRROR].wrapping_add(1);
        self.ram[DUNGEON_HEADER_COLLISION_2_MIRROR]
    }

    pub fn copy_header_collision_2_to_mirror(&mut self)
        requires
            DUNGEON_HEADER_COLLISION_2_MIRROR < old(self).ram().len(),
            DUNG_HDR_COLLISION_2 < old(self).ram().len(),
        ensures
            final(self).ram() == old(self).ram().update(
                DUNGEON_HEADER_COLLISION_2_MIRROR as int,
                old(self).ram()[DUNG_HDR_COLLISION_2 as int],
            ),
            final(final(self).ram)@ == final(old(self).ram)@,
    {
        self.ram[DUNGEON_HEADER_COLLISION_2_MIRROR] = self.ram[DUNG_HDR_COLLISION_2];
    }

    pub fn set_bg2_properties(&mut self, value: u8)
        requires
            DUNG_HDR_BG2_PROPERTIES < old(self).ram().len(),
        ensures
            final(self).ram() == old(self).ram().update(DUNG_HDR_BG2_PROPERTIES as int, value),
            final(final(self).ram)@ == final(old(self).ram)@,
    {
        self.ram[DUNG_HDR_BG2_PROPERTIES] = value;
    }

    pub fn clear_bg2_properties(&mut self)
        requires
            DUNG_HDR_BG2_PROPERTIES < old(self).ram().len(),
        ensures
            final(self).ram() == old(self).ram().update(DUNG_HDR_BG2_PROPERTIES as int, 0u8),
            final(final(self).ram)@ == final(old(self).ram)@,
    {
        self.ram[DUNG_HDR_BG2_PROPERTIES] = 0;
    }

    pub fn set_current_floor(&mut self, value: u8)
        requires
            DUNG_CUR_FLOOR < old(self).ram().len(),
        ensures
            final(self).ram() == old(self).ram().update(DUNG_CUR_FLOOR as int, value),
            final(final(self).ram)@ == final(old(self).ram)@,
    {
        self.ram[DUNG_CUR_FLOOR] = value;
    }

    pub fn decrement_current_floor(&mut self) -> (result: u8)
        requires
            DUNG_CUR_FLOOR < old(self).ram().len(),
        ensures
            result == old(self).ram()[DUNG_CUR_FLOOR as int].wrapping_sub(1),
            final(self).ram() == old(self).ram().update(
                DUNG_CUR_FLOOR as int,
                old(self).ram()[DUNG_CUR_FLOOR as int].wrapping_sub(1),
            ),
            final(final(self).ram)@ == final(old(self).ram)@,
    {
        self.ram[DUNG_CUR_FLOOR] = self.ram[DUNG_CUR_FLOOR].wrapping_sub(1);
        self.ram[DUNG_CUR_FLOOR]
    }

    pub fn increment_current_floor(&mut self) -> (result: u8)
        requires
            DUNG_CUR_FLOOR < old(self).ram().len(),
        ensures
            result == old(self).ram()[DUNG_CUR_FLOOR as int].wrapping_add(1),
            final(self).ram() == old(self).ram().update(
                DUNG_CUR_FLOOR as int,
                old(self).ram()[DUNG_CUR_FLOOR as int].wrapping_add(1),
            ),
            final(final(self).ram)@ == final(old(self).ram)@,
    {
        self.ram[DUNG_CUR_FLOOR] = self.ram[DUNG_CUR_FLOOR].wrapping_add(1);
        self.ram[DUNG_CUR_FLOOR]
    }

    pub fn cache_current_floor(&mut self)
        requires
            DUNG_CUR_FLOOR_CACHED < old(self).ram().len(),
            DUNG_CUR_FLOOR < old(self).ram().len(),
        ensures
            final(self).ram() == old(self).ram().update(
                DUNG_CUR_FLOOR_CACHED as int,
                old(self).ram()[DUNG_CUR_FLOOR as int],
            ),
            final(final(self).ram)@ == final(old(self).ram)@,
    {
        self.ram[DUNG_CUR_FLOOR_CACHED] = self.ram[DUNG_CUR_FLOOR];
    }

    pub fn restore_cached_floor(&mut self)
        requires
            DUNG_CUR_FLOOR < old(self).ram().len(),
            DUNG_CUR_FLOOR_CACHED < old(self).ram().len(),
        ensures
            final(self).ram() == old(self).ram().update(
                DUNG_CUR_FLOOR as int,
                old(self).ram()[DUNG_CUR_FLOOR_CACHED as int],
            ),
            final(final(self).ram)@ == final(old(self).ram)@,
    {
        self.ram[DUNG_CUR_FLOOR] = self.ram[DUNG_CUR_FLOOR_CACHED];
    }

    pub fn clear_lit_torches(&mut self)
        requires
            DUNG_NUM_LIT_TORCHES < old(self).ram().len(),
        ensures
            final(self).ram() == old(self).ram().update(DUNG_NUM_LIT_TORCHES as int, 0u8),
            final(final(self).ram)@ == final(old(self).ram)@,
    {
        self.ram[DUNG_NUM_LIT_TORCHES] = 0;
    }

    pub fn set_lit_torches(&mut self, value: u8)
        requires
            DUNG_NUM_LIT_TORCHES < old(self).ram().len(),
        ensures
            final(self).ram() == old(self).ram().update(DUNG_NUM_LIT_TORCHES as int, value),
            final(final(self).ram)@ == final(old(self).ram)@,
    {
        self.ram[DUNG_NUM_LIT_TORCHES] = value;
    }

    pub fn increment_lit_torches(&mut self) -> (result: u8)
        requires
            DUNG_NUM_LIT_TORCHES < old(self).ram().len(),
        ensures
            result == old(self).ram()[DUNG_NUM_LIT_TORCHES as int].wrapping_add(1),
            final(self).ram() == old(self).ram().update(
                DUNG_NUM_LIT_TORCHES as int,
                old(self).ram()[DUNG_NUM_LIT_TORCHES as int].wrapping_add(1),
            ),
            final(final(self).ram)@ == final(old(self).ram)@,
    {
        self.ram[DUNG_NUM_LIT_TORCHES] = self.ram[DUNG_NUM_LIT_TORCHES].wrapping_add(1);
        self.ram[DUNG_NUM_LIT_TORCHES]
    }

    pub fn decrement_lit_torches(&mut self) -> (result: u8)
        requires
            DUNG_NUM_LIT_TORCHES < old(self).ram().len(),
        ensures
            result == old(self).ram()[DUNG_NUM_LIT_TORCHES as int].wrapping_sub(1),
            final(self).ram() == old(self).ram().update(
                DUNG_NUM_LIT_TORCHES as int,
                old(self).ram()[DUNG_NUM_LIT_TORCHES as int].wrapping_sub(1),
            ),
            final(final(self).ram)@ == final(old(self).ram)@,
    {
        self.ram[DUNG_NUM_LIT_TORCHES] = self.ram[DUNG_NUM_LIT_TORCHES].wrapping_sub(1);
        self.ram[DUNG_NUM_LIT_TORCHES]
    }

    pub fn set_lights_out_request(&mut self, value: u8)
        requires
            DUNG_WANT_LIGHTS_OUT < old(self).ram().len(),
        ensures
            final(self).ram() == old(self).ram().update(DUNG_WANT_LIGHTS_OUT as int, value),
            final(final(self).ram)@ == final(old(self).ram)@,
    {
        self.ram[DUNG_WANT_LIGHTS_OUT] = value;
    }

    pub fn clear_lights_out_request(&mut self)
        requires
            DUNG_WANT_LIGHTS_OUT < old(self).ram().len(),
        ensures
            final(self).ram() == old(self).ram().update(DUNG_WANT_LIGHTS_OUT as int, 0u8),
            final(final(self).ram)@ == final(old(self).ram)@,
    {
        self.ram[DUNG_WANT_LIGHTS_OUT] = 0;
    }

    pub fn set_lights_out_request_copy(&mut self, value: u8)
        requires
            DUNG_WANT_LIGHTS_OUT_COPY < old(self).ram().len(),
        ensures
            final(self).ram() == old(self).ram().update(DUNG_WANT_LIGHTS_OUT_COPY as int, value),
            final(final(self).ram)@ == final(old(self).ram)@,
    {
        self.ram[DUNG_WANT_LIGHTS_OUT_COPY] = value;
    }

    pub fn copy_lights_out_request(&mut self)
        requires
            DUNG_WANT_LIGHTS_OUT_COPY < old(self).ram().len(),
            DUNG_WANT_LIGHTS_OUT < old(self).ram().len(),
        ensures
            final(self).ram() == old(self).ram().update(
                DUNG_WANT_LIGHTS_OUT_COPY as int,
                old(self).ram()[DUNG_WANT_LIGHTS_OUT as int],
            ),
            final(final(self).ram)@ == final(old(self).ram)@,
    {
        self.ram[DUNG_WANT_LIGHTS_OUT_COPY] = self.ram[DUNG_WANT_LIGHTS_OUT];
    }

    pub fn clear_lights_out_requests(&mut self)
        requires
            DUNG_WANT_LIGHTS_OUT < old(self).ram().len(),
            DUNG_WANT_LIGHTS_OUT_COPY < old(self).ram().len(),
        ensures
            final(self).ram() == old(self).ram()
                .update(DUNG_WANT_LIGHTS_OUT as int, 0u8)
                .update(DUNG_WANT_LIGHTS_OUT_COPY as int, 0u8),
            final(final(self).ram)@ == final(old(self).ram)@,
    {
        self.ram[DUNG_WANT_LIGHTS_OUT] = 0;
        self.ram[DUNG_WANT_LIGHTS_OUT_COPY] = 0;
    }

    pub fn clear_quadrant_upload_index(&mut self)
        requires
            DUNG_CUR_QUADRANT_UPLOAD < old(self).ram().len(),
        ensures
            final(self).ram() == old(self).ram().update(DUNG_CUR_QUADRANT_UPLOAD as int, 0u8),
            final(final(self).ram)@ == final(old(self).ram)@,
    {
        self.ram[DUNG_CUR_QUADRANT_UPLOAD] = 0;
    }

    pub fn advance_quadrant_upload_index_by(&mut self, value: u8) -> (result: u8)
        requires
            DUNG_CUR_QUADRANT_UPLOAD < old(self).ram().len(),
        ensures
            result == old(self).ram()[DUNG_CUR_QUADRANT_UPLOAD as int].wrapping_add(value),
            final(self).ram() == old(self).ram().update(
                DUNG_CUR_QUADRANT_UPLOAD as int,
                old(self).ram()[DUNG_CUR_QUADRANT_UPLOAD as int].wrapping_add(value),
            ),
            final(final(self).ram)@ == final(old(self).ram)@,
    {
        self.ram[DUNG_CUR_QUADRANT_UPLOAD] = self.ram[DUNG_CUR_QUADRANT_UPLOAD].wrapping_add(value);
        self.ram[DUNG_CUR_QUADRANT_UPLOAD]
    }

    pub fn set_trapdoors_down(&mut self, value: u16)
        requires
            DUNG_FLAG_TRAPDOORS_DOWN + 1 < old(self).ram().len(),
        ensures
            final(self).ram() == types::with_u16(
                old(self).ram(),
                DUNG_FLAG_TRAPDOORS_DOWN as int,
                value,
            ),
            final(final(self).ram)@ == final(old(self).ram)@,
    {
        write_le_u16(self.ram, DUNG_FLAG_TRAPDOORS_DOWN, value);
    }

    pub fn clear_trapdoors_down(&mut self)
        requires
            DUNG_FLAG_TRAPDOORS_DOWN + 1 < old(self).ram().len(),
        ensures
            final(self).ram() == types::with_u16(
                old(self).ram(),
                DUNG_FLAG_TRAPDOORS_DOWN as int,
                0u16,
            ),
            final(final(self).ram)@ == final(old(self).ram)@,
    {
        write_le_u16(self.ram, DUNG_FLAG_TRAPDOORS_DOWN, 0);
    }

    pub fn set_trapdoors_down_low(&mut self, value: u8)
        requires
            DUNG_FLAG_TRAPDOORS_DOWN < old(self).ram().len(),
        ensures
            final(self).ram() == old(self).ram().update(DUNG_FLAG_TRAPDOORS_DOWN as int, value),
            final(final(self).ram)@ == final(old(self).ram)@,
    {
        self.ram[DUNG_FLAG_TRAPDOORS_DOWN] = value;
    }

    pub fn increment_trapdoors_down_low(&mut self) -> (result: u8)
        requires
            DUNG_FLAG_TRAPDOORS_DOWN < old(self).ram().len(),
        ensures
            result == old(self).ram()[DUNG_FLAG_TRAPDOORS_DOWN as int].wrapping_add(1),
            final(self).ram() == old(self).ram().update(
                DUNG_FLAG_TRAPDOORS_DOWN as int,
                old(self).ram()[DUNG_FLAG_TRAPDOORS_DOWN as int].wrapping_add(1),
            ),
            final(final(self).ram)@ == final(old(self).ram)@,
    {
        self.ram[DUNG_FLAG_TRAPDOORS_DOWN] = self.ram[DUNG_FLAG_TRAPDOORS_DOWN].wrapping_add(1);
        self.ram[DUNG_FLAG_TRAPDOORS_DOWN]
    }

    pub fn clear_water_puzzle_state_changed(&mut self)
        requires
            DUNG_FLAG_STATECHANGE_WATERPUZZLE < old(self).ram().len(),
        ensures
            final(self).ram() == old(self).ram().update(
                DUNG_FLAG_STATECHANGE_WATERPUZZLE as int,
                0u8,
            ),
            final(final(self).ram)@ == final(old(self).ram)@,
    {
        self.ram[DUNG_FLAG_STATECHANGE_WATERPUZZLE] = 0;
    }

    pub fn set_water_puzzle_state_changed(&mut self, value: u8)
        requires
            DUNG_FLAG_STATECHANGE_WATERPUZZLE < old(self).ram().len(),
        ensures
            final(self).ram() == old(self).ram().update(
                DUNG_FLAG_STATECHANGE_WATERPUZZLE as int,
                value,
            ),
            final(final(self).ram)@ == final(old(self).ram)@,
    {
        self.ram[DUNG_FLAG_STATECHANGE_WATERPUZZLE] = value;
    }

    pub fn increment_water_puzzle_state_changed(&mut self) -> (result: u8)
        requires
            DUNG_FLAG_STATECHANGE_WATERPUZZLE < old(self).ram().len(),
        ensures
            result == old(self).ram()[DUNG_FLAG_STATECHANGE_WATERPUZZLE as int].wrapping_add(1),
            final(self).ram() == old(self).ram().update(
                DUNG_FLAG_STATECHANGE_WATERPUZZLE as int,
                old(self).ram()[DUNG_FLAG_STATECHANGE_WATERPUZZLE as int].wrapping_add(1),
            ),
            final(final(self).ram)@ == final(old(self).ram)@,
    {
        self.ram[DUNG_FLAG_STATECHANGE_WATERPUZZLE] = self.ram[DUNG_FLAG_STATECHANGE_WATERPUZZLE].wrapping_add(1);
        self.ram[DUNG_FLAG_STATECHANGE_WATERPUZZLE]
    }

    pub fn set_draw_width_indicator(&mut self, value: u8)
        requires
            DUNG_DRAW_WIDTH_INDICATOR < old(self).ram().len(),
        ensures
            final(self).ram() == old(self).ram().update(DUNG_DRAW_WIDTH_INDICATOR as int, value),
            final(final(self).ram)@ == final(old(self).ram)@,
    {
        self.ram[DUNG_DRAW_WIDTH_INDICATOR] = value;
    }

    pub fn set_draw_width_indicator_word(&mut self, value: u16)
        requires
            DUNG_DRAW_WIDTH_INDICATOR + 1 < old(self).ram().len(),
        ensures
            final(self).ram() == types::with_u16(
                old(self).ram(),
                DUNG_DRAW_WIDTH_INDICATOR as int,
                value,
            ),
            final(final(self).ram)@ == final(old(self).ram)@,
    {
        write_le_u16(self.ram, DUNG_DRAW_WIDTH_INDICATOR, value);
    }

    pub fn set_draw_height_indicator(&mut self, value: u8)
        requires
            DUNG_DRAW_HEIGHT_INDICATOR < old(self).ram().len(),
        ensures
            final(self).ram() == old(self).ram().update(DUNG_DRAW_HEIGHT_INDICATOR as int, value),
            final(final(self).ram)@ == final(old(self).ram)@,
    {
        self.ram[DUNG_DRAW_HEIGHT_INDICATOR] = value;
    }

    pub fn set_draw_height_indicator_word(&mut self, value: u16)
        requires
            DUNG_DRAW_HEIGHT_INDICATOR + 1 < old(self).ram().len(),
        ensures
            final(self).ram() == types::with_u16(
                old(self).ram(),
                DUNG_DRAW_HEIGHT_INDICATOR as int,
                value,
            ),
            final(final(self).ram)@ == final(old(self).ram)@,
    {
        write_le_u16(self.ram, DUNG_DRAW_HEIGHT_INDICATOR, value);
    }

    pub fn clear_draw_dimensions(&mut self)
        requires
            DUNG_DRAW_WIDTH_INDICATOR + 1 < old(self).ram().len(),
            DUNG_DRAW_HEIGHT_INDICATOR + 1 < old(self).ram().len(),
        ensures
            final(self).ram() == types::with_u16(
                types::with_u16(
                    old(self).ram(),
                    DUNG_DRAW_WIDTH_INDICATOR as int,
                    0u16,
                ),
                DUNG_DRAW_HEIGHT_INDICATOR as int,
                0u16,
            ),
            final(final(self).ram)@ == final(old(self).ram)@,
    {
        write_le_u16(self.ram, DUNG_DRAW_WIDTH_INDICATOR, 0);
        write_le_u16(self.ram, DUNG_DRAW_HEIGHT_INDICATOR, 0);
    }

    pub fn set_draw_dimensions(&mut self, width: u8, height: u8)
        requires
            DUNG_DRAW_WIDTH_INDICATOR < old(self).ram().len(),
            DUNG_DRAW_HEIGHT_INDICATOR < old(self).ram().len(),
        ensures
            final(self).ram() == old(self).ram()
                .update(DUNG_DRAW_WIDTH_INDICATOR as int, width)
                .update(DUNG_DRAW_HEIGHT_INDICATOR as int, height),
            final(final(self).ram)@ == final(old(self).ram)@,
    {
        self.ram[DUNG_DRAW_WIDTH_INDICATOR] = width;
        self.ram[DUNG_DRAW_HEIGHT_INDICATOR] = height;
    }

    pub fn set_draw_dimensions_words(&mut self, width: u16, height: u16)
        requires
            DUNG_DRAW_WIDTH_INDICATOR + 1 < old(self).ram().len(),
            DUNG_DRAW_HEIGHT_INDICATOR + 1 < old(self).ram().len(),
        ensures
            final(self).ram() == types::with_u16(
                types::with_u16(
                    old(self).ram(),
                    DUNG_DRAW_WIDTH_INDICATOR as int,
                    width,
                ),
                DUNG_DRAW_HEIGHT_INDICATOR as int,
                height,
            ),
            final(final(self).ram)@ == final(old(self).ram)@,
    {
        write_le_u16(self.ram, DUNG_DRAW_WIDTH_INDICATOR, width);
        write_le_u16(self.ram, DUNG_DRAW_HEIGHT_INDICATOR, height);
    }

    pub fn set_opened_doors_including_adjacent(&mut self, value: u16)
        requires
            DUNG_DOOR_OPENED_INCL_ADJACENT + 1 < old(self).ram().len(),
        ensures
            final(self).ram() == types::with_u16(
                old(self).ram(),
                DUNG_DOOR_OPENED_INCL_ADJACENT as int,
                value,
            ),
            final(final(self).ram)@ == final(old(self).ram)@,
    {
        write_le_u16(self.ram, DUNG_DOOR_OPENED_INCL_ADJACENT, value);
    }

    pub fn set_floor_x_offset(&mut self, value: u16)
        requires
            DUNG_FLOOR_X_OFFS + 1 < old(self).ram().len(),
        ensures
            final(self).ram() == types::with_u16(old(self).ram(), DUNG_FLOOR_X_OFFS as int, value),
            final(final(self).ram)@ == final(old(self).ram)@,
    {
        write_le_u16(self.ram, DUNG_FLOOR_X_OFFS, value);
    }

    pub fn mark_opened_door_mask(&mut self, mask: u16) -> (result: u16)
        requires
            DUNG_DOOR_OPENED_INCL_ADJACENT + 1 < old(self).ram().len(),
        ensures
            result == (types::u16_at(old(self).ram(), DUNG_DOOR_OPENED_INCL_ADJACENT as int) | mask),
            final(self).ram() == types::with_u16(
                old(self).ram(),
                DUNG_DOOR_OPENED_INCL_ADJACENT as int,
                types::u16_at(
                    old(self).ram(),
                    DUNG_DOOR_OPENED_INCL_ADJACENT as int,
                )
                    | mask,
            ),
            final(final(self).ram)@ == final(old(self).ram)@,
    {
        let opened = read_le_u16(self.ram, DUNG_DOOR_OPENED_INCL_ADJACENT) | mask;
        write_le_u16(self.ram, DUNG_DOOR_OPENED_INCL_ADJACENT, opened);
        opened
    }

    pub fn clear_door_animation_step(&mut self)
        requires
            DOOR_ANIMATION_STEP_INDICATOR_DUNGEON + 1 < old(self).ram().len(),
        ensures
            final(self).ram() == types::with_u16(
                old(self).ram(),
                DOOR_ANIMATION_STEP_INDICATOR_DUNGEON as int,
                0u16,
            ),
            final(final(self).ram)@ == final(old(self).ram)@,
    {
        write_le_u16(self.ram, DOOR_ANIMATION_STEP_INDICATOR_DUNGEON, 0);
    }

    pub fn set_door_animation_step(&mut self, value: u16)
        requires
            DOOR_ANIMATION_STEP_INDICATOR_DUNGEON + 1 < old(self).ram().len(),
        ensures
            final(self).ram() == types::with_u16(
                old(self).ram(),
                DOOR_ANIMATION_STEP_INDICATOR_DUNGEON as int,
                value,
            ),
            final(final(self).ram)@ == final(old(self).ram)@,
    {
        write_le_u16(self.ram, DOOR_ANIMATION_STEP_INDICATOR_DUNGEON, value);
    }

    pub fn set_door_animation_step_low(&mut self, value: u8)
        requires
            DOOR_ANIMATION_STEP_INDICATOR_DUNGEON < old(self).ram().len(),
        ensures
            final(self).ram() == old(self).ram().update(
                DOOR_ANIMATION_STEP_INDICATOR_DUNGEON as int,
                value,
            ),
            final(final(self).ram)@ == final(old(self).ram)@,
    {
        self.ram[DOOR_ANIMATION_STEP_INDICATOR_DUNGEON] = value;
    }

    pub fn increment_door_animation_step(&mut self) -> (result: u16)
        requires
            DOOR_ANIMATION_STEP_INDICATOR_DUNGEON + 1 < old(self).ram().len(),
        ensures
            result == types::u16_at(old(self).ram(), DOOR_ANIMATION_STEP_INDICATOR_DUNGEON as int)
                .wrapping_add(1),
            final(self).ram() == types::with_u16(
                old(self).ram(),
                DOOR_ANIMATION_STEP_INDICATOR_DUNGEON as int,
                types::u16_at(
                    old(self).ram(),
                    DOOR_ANIMATION_STEP_INDICATOR_DUNGEON as int,
                )
                    .wrapping_add(1),
            ),
            final(final(self).ram)@ == final(old(self).ram)@,
    {
        let step = read_le_u16(self.ram, DOOR_ANIMATION_STEP_INDICATOR_DUNGEON).wrapping_add(1);
        write_le_u16(self.ram, DOOR_ANIMATION_STEP_INDICATOR_DUNGEON, step);
        step
    }

    pub fn set_staircase_index(&mut self, value: u8)
        requires
            WHICH_STAIRCASE_INDEX < old(self).ram().len(),
        ensures
            final(self).ram() == old(self).ram().update(WHICH_STAIRCASE_INDEX as int, value),
            final(final(self).ram)@ == final(old(self).ram)@,
    {
        self.ram[WHICH_STAIRCASE_INDEX] = value;
    }

    pub fn set_staircase_move_counter(&mut self, value: u8)
        requires
            STAIRCASE_MOVE_COUNTER < old(self).ram().len(),
        ensures
            final(self).ram() == old(self).ram().update(STAIRCASE_MOVE_COUNTER as int, value),
            final(final(self).ram)@ == final(old(self).ram)@,
    {
        self.ram[STAIRCASE_MOVE_COUNTER] = value;
    }

    pub fn decrement_staircase_move_counter(&mut self) -> (result: u8)
        requires
            STAIRCASE_MOVE_COUNTER < old(self).ram().len(),
        ensures
            result == old(self).ram()[STAIRCASE_MOVE_COUNTER as int].wrapping_sub(1),
            final(self).ram() == old(self).ram().update(
                STAIRCASE_MOVE_COUNTER as int,
                old(self).ram()[STAIRCASE_MOVE_COUNTER as int].wrapping_sub(1),
            ),
            final(final(self).ram)@ == final(old(self).ram)@,
    {
        self.ram[STAIRCASE_MOVE_COUNTER] = self.ram[STAIRCASE_MOVE_COUNTER].wrapping_sub(1);
        self.ram[STAIRCASE_MOVE_COUNTER]
    }

    pub fn set_inter_staircase_pos(&mut self, index: usize, value: u16)
        requires
            (DUNG_INTER_STAIRCASES + (index * 2)) + 1 < old(self).ram().len(),
        ensures
            final(self).ram() == types::with_u16(
                old(self).ram(),
                DUNG_INTER_STAIRCASES + (index * 2),
                value,
            ),
            final(final(self).ram)@ == final(old(self).ram)@,
    {
        proof {
            assert(self.ram@.len() == self.ram.len());
        }
        write_le_u16(self.ram, DUNG_INTER_STAIRCASES + index * 2, value);
    }

    pub fn clear_replacement_tile_states(&mut self)
        requires
            DUNGEON_REPLACEMENT_TILE_STATE + 32 <= old(self).ram().len(),
        ensures
            final(self).ram() == access::filled(
                old(self).ram(),
                DUNGEON_REPLACEMENT_TILE_STATE as int,
                DUNGEON_REPLACEMENT_TILE_STATE + 32,
                0u8,
            ),
            final(final(self).ram)@ == final(old(self).ram)@,
    {
        fill_bytes(
            self.ram,
            DUNGEON_REPLACEMENT_TILE_STATE,
            DUNGEON_REPLACEMENT_TILE_STATE + 32,
            0,
        );
    }

    pub fn set_replacement_tile_state(&mut self, index: usize, value: u16)
        requires
            (DUNGEON_REPLACEMENT_TILE_STATE + (index * 2)) + 1 < old(self).ram().len(),
        ensures
            final(self).ram() == types::with_u16(
                old(self).ram(),
                DUNGEON_REPLACEMENT_TILE_STATE + (index * 2),
                value,
            ),
            final(final(self).ram)@ == final(old(self).ram)@,
    {
        proof {
            assert(self.ram@.len() == self.ram.len());
        }
        write_le_u16(self.ram, DUNGEON_REPLACEMENT_TILE_STATE + index * 2, value);
    }

    pub fn increment_replacement_tile_state(&mut self, index: usize) -> (result: u16)
        requires
            (DUNGEON_REPLACEMENT_TILE_STATE + (index * 2)) + 1 < old(self).ram().len(),
        ensures
            result == types::u16_at(old(self).ram(), DUNGEON_REPLACEMENT_TILE_STATE + (index * 2))
                .wrapping_add(1),
            final(self).ram() == types::with_u16(
                old(self).ram(),
                DUNGEON_REPLACEMENT_TILE_STATE + (index * 2),
                types::u16_at(
                    old(self).ram(),
                    DUNGEON_REPLACEMENT_TILE_STATE + (index * 2),
                )
                    .wrapping_add(1),
            ),
            final(final(self).ram)@ == final(old(self).ram)@,
    {
        proof {
            assert(self.ram@.len() == self.ram.len());
        }
        let state = read_le_u16(self.ram, DUNGEON_REPLACEMENT_TILE_STATE + index * 2).wrapping_add(1);
        write_le_u16(self.ram, DUNGEON_REPLACEMENT_TILE_STATE + index * 2, state);
        state
    }

    pub fn set_savegame_state_high_bits(&mut self, mask: u8)
        requires
            DUNG_SAVEGAME_STATE_BITS + 1 < old(self).ram().len(),
        ensures
            final(self).ram() == old(self).ram().update(
                DUNG_SAVEGAME_STATE_BITS + 1,
                old(self).ram()[DUNG_SAVEGAME_STATE_BITS + 1] | mask,
            ),
            final(final(self).ram)@ == final(old(self).ram)@,
    {
        self.ram[DUNG_SAVEGAME_STATE_BITS + 1] |= mask;
    }

    pub fn clear_savegame_state_bits(&mut self)
        requires
            DUNG_SAVEGAME_STATE_BITS + 1 < old(self).ram().len(),
        ensures
            final(self).ram() == types::with_u16(
                old(self).ram(),
                DUNG_SAVEGAME_STATE_BITS as int,
                0u16,
            ),
            final(final(self).ram)@ == final(old(self).ram)@,
    {
        write_le_u16(self.ram, DUNG_SAVEGAME_STATE_BITS, 0);
    }

    pub fn set_savegame_state_bits(&mut self, value: u16)
        requires
            DUNG_SAVEGAME_STATE_BITS + 1 < old(self).ram().len(),
        ensures
            final(self).ram() == types::with_u16(
                old(self).ram(),
                DUNG_SAVEGAME_STATE_BITS as int,
                value,
            ),
            final(final(self).ram)@ == final(old(self).ram)@,
    {
        write_le_u16(self.ram, DUNG_SAVEGAME_STATE_BITS, value);
    }

    pub fn or_savegame_state_bits(&mut self, mask: u16) -> (result: u16)
        requires
            DUNG_SAVEGAME_STATE_BITS + 1 < old(self).ram().len(),
        ensures
            result == (types::u16_at(old(self).ram(), DUNG_SAVEGAME_STATE_BITS as int) | mask),
            final(self).ram() == types::with_u16(
                old(self).ram(),
                DUNG_SAVEGAME_STATE_BITS as int,
                types::u16_at(old(self).ram(), DUNG_SAVEGAME_STATE_BITS as int)
                    | mask,
            ),
            final(final(self).ram)@ == final(old(self).ram)@,
    {
        let value = read_le_u16(self.ram, DUNG_SAVEGAME_STATE_BITS) | mask;
        write_le_u16(self.ram, DUNG_SAVEGAME_STATE_BITS, value);
        value
    }

    pub fn clear_savegame_state_high(&mut self)
        requires
            DUNG_SAVEGAME_STATE_BITS + 1 < old(self).ram().len(),
        ensures
            final(self).ram() == old(self).ram().update(DUNG_SAVEGAME_STATE_BITS + 1, 0u8),
            final(final(self).ram)@ == final(old(self).ram)@,
    {
        self.ram[DUNG_SAVEGAME_STATE_BITS + 1] = 0;
    }

    pub fn clear_savegame_state_low(&mut self)
        requires
            DUNG_SAVEGAME_STATE_BITS < old(self).ram().len(),
        ensures
            final(self).ram() == old(self).ram().update(DUNG_SAVEGAME_STATE_BITS as int, 0u8),
            final(final(self).ram)@ == final(old(self).ram)@,
    {
        self.ram[DUNG_SAVEGAME_STATE_BITS] = 0;
    }

    pub fn set_room_index2(&mut self, value: u8)
        requires
            DUNGEON_ROOM_INDEX2 < old(self).ram().len(),
        ensures
            final(self).ram() == old(self).ram().update(DUNGEON_ROOM_INDEX2 as int, value),
            final(final(self).ram)@ == final(old(self).ram)@,
    {
        self.ram[DUNGEON_ROOM_INDEX2] = value;
    }

    pub fn set_room_index2_word(&mut self, value: u16)
        requires
            DUNGEON_ROOM_INDEX2 + 1 < old(self).ram().len(),
        ensures
            final(self).ram() == types::with_u16(old(self).ram(), DUNGEON_ROOM_INDEX2 as int, value),
            final(final(self).ram)@ == final(old(self).ram)@,
    {
        write_le_u16(self.ram, DUNGEON_ROOM_INDEX2, value);
    }

    pub fn set_bg2_tile(&mut self, index: usize, value: u16)
        requires
            (DUNG_BG2 + (index * 2)) + 1 < old(self).ram().len(),
        ensures
            final(self).ram() == types::with_u16(old(self).ram(), DUNG_BG2 + (index * 2), value),
            final(final(self).ram)@ == final(old(self).ram)@,
    {
        proof {
            assert(self.ram@.len() == self.ram.len());
        }
        write_le_u16(self.ram, DUNG_BG2 + index * 2, value);
    }

    pub fn set_bg1_tile(&mut self, index: usize, value: u16)
        requires
            (DUNG_BG1 + (index * 2)) + 1 < old(self).ram().len(),
        ensures
            final(self).ram() == types::with_u16(old(self).ram(), DUNG_BG1 + (index * 2), value),
            final(final(self).ram)@ == final(old(self).ram)@,
    {
        proof {
            assert(self.ram@.len() == self.ram.len());
        }
        write_le_u16(self.ram, DUNG_BG1 + index * 2, value);
    }

    pub fn set_bg1_tile_by_byte_pos(&mut self, pos: u16, value: u16)
        requires
            (DUNG_BG1 + (((pos >> 1) as usize) * 2)) + 1 < old(self).ram().len(),
        ensures
            final(self).ram() == types::with_u16(
                old(self).ram(),
                DUNG_BG1 + (((pos >> 1) as usize) * 2),
                value,
            ),
            final(final(self).ram)@ == final(old(self).ram)@,
    {
        proof {
            assert(self.ram@.len() == self.ram.len());
        }
        self.set_bg1_tile((pos >> 1) as usize, value);
    }

    pub fn set_bg2_tile_by_byte_pos(&mut self, pos: u16, value: u16)
        requires
            (DUNG_BG2 + (((pos >> 1) as usize) * 2)) + 1 < old(self).ram().len(),
        ensures
            final(self).ram() == types::with_u16(
                old(self).ram(),
                DUNG_BG2 + (((pos >> 1) as usize) * 2),
                value,
            ),
            final(final(self).ram)@ == final(old(self).ram)@,
    {
        proof {
            assert(self.ram@.len() == self.ram.len());
        }
        self.set_bg2_tile((pos >> 1) as usize, value);
    }

    pub fn clear_door_tilemap_addresses(&mut self)
        requires
            DUNG_DOOR_TILEMAP_ADDRESS + 32 <= old(self).ram().len(),
        ensures
            final(self).ram() == access::filled(
                old(self).ram(),
                DUNG_DOOR_TILEMAP_ADDRESS as int,
                DUNG_DOOR_TILEMAP_ADDRESS + 32,
                0u8,
            ),
            final(final(self).ram)@ == final(old(self).ram)@,
    {
        fill_bytes(self.ram, DUNG_DOOR_TILEMAP_ADDRESS, DUNG_DOOR_TILEMAP_ADDRESS + 32, 0);
    }

    pub fn set_door_tilemap_address(&mut self, door: usize, value: u16)
        requires
            (DUNG_DOOR_TILEMAP_ADDRESS + (door * 2)) + 1 < old(self).ram().len(),
        ensures
            final(self).ram() == types::with_u16(
                old(self).ram(),
                DUNG_DOOR_TILEMAP_ADDRESS + (door * 2),
                value,
            ),
            final(final(self).ram)@ == final(old(self).ram)@,
    {
        proof {
            assert(self.ram@.len() == self.ram.len());
        }
        write_le_u16(self.ram, DUNG_DOOR_TILEMAP_ADDRESS + door * 2, value);
    }

    pub fn set_object_tilemap_pos(&mut self, index: usize, value: u16)
        requires
            (DUNG_OBJECT_TILEMAP_POS + (index * 2)) + 1 < old(self).ram().len(),
        ensures
            final(self).ram() == types::with_u16(
                old(self).ram(),
                DUNG_OBJECT_TILEMAP_POS + (index * 2),
                value,
            ),
            final(final(self).ram)@ == final(old(self).ram)@,
    {
        proof {
            assert(self.ram@.len() == self.ram.len());
        }
        write_le_u16(self.ram, DUNG_OBJECT_TILEMAP_POS + index * 2, value);
    }

    pub fn set_misc_object_index(&mut self, value: u16)
        requires
            DUNG_MISC_OBJS_INDEX + 1 < old(self).ram().len(),
        ensures
            final(self).ram() == types::with_u16(
                old(self).ram(),
                DUNG_MISC_OBJS_INDEX as int,
                value,
            ),
            final(final(self).ram)@ == final(old(self).ram)@,
    {
        write_le_u16(self.ram, DUNG_MISC_OBJS_INDEX, value);
    }

    pub fn clear_misc_object_index(&mut self)
        requires
            DUNG_MISC_OBJS_INDEX < old(self).ram().len(),
        ensures
            final(self).ram() == old(self).ram().update(DUNG_MISC_OBJS_INDEX as int, 0u8),
            final(final(self).ram)@ == final(old(self).ram)@,
    {
        self.ram[DUNG_MISC_OBJS_INDEX] = 0;
    }

    pub fn advance_misc_object_index_by(&mut self, value: u16) -> (result: u16)
        requires
            DUNG_MISC_OBJS_INDEX + 1 < old(self).ram().len(),
        ensures
            result == types::u16_at(old(self).ram(), DUNG_MISC_OBJS_INDEX as int)
                .wrapping_add(value),
            final(self).ram() == types::with_u16(
                old(self).ram(),
                DUNG_MISC_OBJS_INDEX as int,
                types::u16_at(old(self).ram(), DUNG_MISC_OBJS_INDEX as int)
                    .wrapping_add(value),
            ),
            final(final(self).ram)@ == final(old(self).ram)@,
    {
        let next = read_le_u16(self.ram, DUNG_MISC_OBJS_INDEX).wrapping_add(value);
        write_le_u16(self.ram, DUNG_MISC_OBJS_INDEX, next);
        next
    }

    pub fn set_load_ptr_offset(&mut self, value: u16)
        requires
            DUNG_LOAD_PTR_OFFS + 1 < old(self).ram().len(),
        ensures
            final(self).ram() == types::with_u16(old(self).ram(), DUNG_LOAD_PTR_OFFS as int, value),
            final(final(self).ram)@ == final(old(self).ram)@,
    {
        write_le_u16(self.ram, DUNG_LOAD_PTR_OFFS, value);
    }

    pub fn advance_load_ptr_offset_by(&mut self, value: u16) -> (result: u16)
        requires
            DUNG_LOAD_PTR_OFFS + 1 < old(self).ram().len(),
        ensures
            result == types::u16_at(old(self).ram(), DUNG_LOAD_PTR_OFFS as int).wrapping_add(value),
            final(self).ram() == types::with_u16(
                old(self).ram(),
                DUNG_LOAD_PTR_OFFS as int,
                types::u16_at(old(self).ram(), DUNG_LOAD_PTR_OFFS as int)
                    .wrapping_add(value),
            ),
            final(final(self).ram)@ == final(old(self).ram)@,
    {
        let next = read_le_u16(self.ram, DUNG_LOAD_PTR_OFFS).wrapping_add(value);
        write_le_u16(self.ram, DUNG_LOAD_PTR_OFFS, next);
        next
    }

    pub fn set_current_door_index(&mut self, value: u16)
        requires
            DUNG_CUR_DOOR_IDX + 1 < old(self).ram().len(),
        ensures
            final(self).ram() == types::with_u16(old(self).ram(), DUNG_CUR_DOOR_IDX as int, value),
            final(final(self).ram)@ == final(old(self).ram)@,
    {
        write_le_u16(self.ram, DUNG_CUR_DOOR_IDX, value);
    }

    pub fn set_current_door_index_for_slot(&mut self, door: usize)
        requires
            door * 2 <= usize::MAX,
            DUNG_CUR_DOOR_IDX + 1 < old(self).ram().len(),
        ensures
            final(self).ram() == types::with_u16(
                old(self).ram(),
                DUNG_CUR_DOOR_IDX as int,
                (door * 2) as u16,
            ),
            final(final(self).ram)@ == final(old(self).ram)@,
    {
        write_le_u16(self.ram, DUNG_CUR_DOOR_IDX, (door * 2) as u16);
    }

    pub fn advance_current_door_index_by(&mut self, value: u16) -> (result: u16)
        requires
            DUNG_CUR_DOOR_IDX + 1 < old(self).ram().len(),
        ensures
            result == types::u16_at(old(self).ram(), DUNG_CUR_DOOR_IDX as int).wrapping_add(value),
            final(self).ram() == types::with_u16(
                old(self).ram(),
                DUNG_CUR_DOOR_IDX as int,
                types::u16_at(old(self).ram(), DUNG_CUR_DOOR_IDX as int)
                    .wrapping_add(value),
            ),
            final(final(self).ram)@ == final(old(self).ram)@,
    {
        let next = read_le_u16(self.ram, DUNG_CUR_DOOR_IDX).wrapping_add(value);
        write_le_u16(self.ram, DUNG_CUR_DOOR_IDX, next);
        next
    }

    pub fn set_current_door_pos(&mut self, value: u16)
        requires
            DUNG_CUR_DOOR_POS_DUNGEON + 1 < old(self).ram().len(),
        ensures
            final(self).ram() == types::with_u16(
                old(self).ram(),
                DUNG_CUR_DOOR_POS_DUNGEON as int,
                value,
            ),
            final(final(self).ram)@ == final(old(self).ram)@,
    {
        write_le_u16(self.ram, DUNG_CUR_DOOR_POS_DUNGEON, value);
    }

    pub fn clear_current_door_pos(&mut self)
        requires
            DUNG_CUR_DOOR_POS_DUNGEON + 1 < old(self).ram().len(),
        ensures
            final(self).ram() == types::with_u16(
                old(self).ram(),
                DUNG_CUR_DOOR_POS_DUNGEON as int,
                0u16,
            ),
            final(final(self).ram)@ == final(old(self).ram)@,
    {
        write_le_u16(self.ram, DUNG_CUR_DOOR_POS_DUNGEON, 0);
    }

    pub fn set_door_open_counter(&mut self, value: u16)
        requires
            DOOR_OPEN_CLOSED_COUNTER + 1 < old(self).ram().len(),
        ensures
            final(self).ram() == types::with_u16(
                old(self).ram(),
                DOOR_OPEN_CLOSED_COUNTER as int,
                value,
            ),
            final(final(self).ram)@ == final(old(self).ram)@,
    {
        write_le_u16(self.ram, DOOR_OPEN_CLOSED_COUNTER, value);
    }

    pub fn set_door_open_counter_low(&mut self, value: u8)
        requires
            DOOR_OPEN_CLOSED_COUNTER < old(self).ram().len(),
        ensures
            final(self).ram() == old(self).ram().update(DOOR_OPEN_CLOSED_COUNTER as int, value),
            final(final(self).ram)@ == final(old(self).ram)@,
    {
        self.ram[DOOR_OPEN_CLOSED_COUNTER] = value;
    }

    pub fn clear_door_open_counter_low(&mut self)
        requires
            DOOR_OPEN_CLOSED_COUNTER < old(self).ram().len(),
        ensures
            final(self).ram() == old(self).ram().update(DOOR_OPEN_CLOSED_COUNTER as int, 0u8),
            final(final(self).ram)@ == final(old(self).ram)@,
    {
        self.ram[DOOR_OPEN_CLOSED_COUNTER] = 0;
    }

    pub fn increment_door_open_counter_low(&mut self) -> (result: u8)
        requires
            DOOR_OPEN_CLOSED_COUNTER < old(self).ram().len(),
        ensures
            result == old(self).ram()[DOOR_OPEN_CLOSED_COUNTER as int].wrapping_add(1),
            final(self).ram() == old(self).ram().update(
                DOOR_OPEN_CLOSED_COUNTER as int,
                old(self).ram()[DOOR_OPEN_CLOSED_COUNTER as int].wrapping_add(1),
            ),
            final(final(self).ram)@ == final(old(self).ram)@,
    {
        self.ram[DOOR_OPEN_CLOSED_COUNTER] = self.ram[DOOR_OPEN_CLOSED_COUNTER].wrapping_add(1);
        self.ram[DOOR_OPEN_CLOSED_COUNTER]
    }

    pub fn clear_replacement_tile_state_low(&mut self, index: usize)
        requires
            DUNGEON_REPLACEMENT_TILE_STATE + (index * 2) < old(self).ram().len(),
        ensures
            final(self).ram() == old(self).ram().update(
                DUNGEON_REPLACEMENT_TILE_STATE + (index * 2),
                0u8,
            ),
            final(final(self).ram)@ == final(old(self).ram)@,
    {
        proof {
            assert(self.ram@.len() == self.ram.len());
        }
        self.ram[DUNGEON_REPLACEMENT_TILE_STATE + index * 2] = 0;
    }

    pub fn copy_custom_tile_attrs(&mut self, attrs: &[u8])
        requires
            ATTRIBUTES_FOR_TILE_PLAYER + 0x1c0 <= old(self).ram().len(),
            attrs@.len() == 0x80,
        ensures
            final(self).ram() == access::copied(
                old(self).ram(),
                ATTRIBUTES_FOR_TILE_PLAYER + 0x140,
                attrs@,
            ),
            final(final(self).ram)@ == final(old(self).ram)@,
    {
        copy_bytes(self.ram, ATTRIBUTES_FOR_TILE_PLAYER + 0x140, attrs);
    }

    pub fn copy_default_tile_attrs_tail(&mut self, attrs: &[u8])
        requires
            ATTRIBUTES_FOR_TILE_PLAYER + 0x200 <= old(self).ram().len(),
            attrs@.len() == 0x40,
        ensures
            final(self).ram() == access::copied(
                old(self).ram(),
                ATTRIBUTES_FOR_TILE_PLAYER + 0x1c0,
                attrs@,
            ),
            final(final(self).ram)@ == final(old(self).ram)@,
    {
        copy_bytes(self.ram, ATTRIBUTES_FOR_TILE_PLAYER + 0x1c0, attrs);
    }

    pub fn set_floor_1_filler_high(&mut self, value: u8)
        requires
            FLOOR_1_FILLER_TILES + 1 < old(self).ram().len(),
        ensures
            final(self).ram() == old(self).ram().update(FLOOR_1_FILLER_TILES + 1, value),
            final(final(self).ram)@ == final(old(self).ram)@,
    {
        self.ram[FLOOR_1_FILLER_TILES + 1] = value;
    }

    pub fn set_floor_2_filler_high(&mut self, value: u8)
        requires
            FLOOR_2_FILLER_TILES + 1 < old(self).ram().len(),
        ensures
            final(self).ram() == old(self).ram().update(FLOOR_2_FILLER_TILES + 1, value),
            final(final(self).ram)@ == final(old(self).ram)@,
    {
        self.ram[FLOOR_2_FILLER_TILES + 1] = value;
    }

    pub fn set_staircase_index_high(&mut self, value: u8)
        requires
            WHICH_STAIRCASE_INDEX + 1 < old(self).ram().len(),
        ensures
            final(self).ram() == old(self).ram().update(WHICH_STAIRCASE_INDEX + 1, value),
            final(final(self).ram)@ == final(old(self).ram)@,
    {
        self.ram[WHICH_STAIRCASE_INDEX + 1] = value;
    }

    pub fn fill_bg2_attr_range(&mut self, start: usize, len: usize, value: u8)
        requires
            DUNGEON_BG2_ATTR_TABLE + start <= usize::MAX,
            (DUNGEON_BG2_ATTR_TABLE + start) + len <= old(self).ram().len(),
        ensures
            final(self).ram() == access::filled(
                old(self).ram(),
                DUNGEON_BG2_ATTR_TABLE + start,
                (DUNGEON_BG2_ATTR_TABLE + start) + len,
                value,
            ),
            final(final(self).ram)@ == final(old(self).ram)@,
    {
        proof {
            assert(self.ram@.len() == self.ram.len());
        }
        fill_bytes(
            self.ram,
            DUNGEON_BG2_ATTR_TABLE + start,
            DUNGEON_BG2_ATTR_TABLE + start + len,
            value,
        );
    }

    pub fn clear_door_tables(&mut self)
        requires
            DOOR_TYPE_AND_SLOT + 32 <= old(self).ram().len(),
            DUNGEON_DOOR_DIRECTION + 32 <= old(self).ram().len(),
        ensures
            final(self).ram() == access::filled(
                (access::filled(
                     old(self).ram(),
                     DOOR_TYPE_AND_SLOT as int,
                     DOOR_TYPE_AND_SLOT + 32,
                     0u8,
                 )),
                DUNGEON_DOOR_DIRECTION as int,
                DUNGEON_DOOR_DIRECTION + 32,
                0u8,
            ),
            final(final(self).ram)@ == final(old(self).ram)@,
    {
        fill_bytes(self.ram, DOOR_TYPE_AND_SLOT, DOOR_TYPE_AND_SLOT + 32, 0);
        fill_bytes(self.ram, DUNGEON_DOOR_DIRECTION, DUNGEON_DOOR_DIRECTION + 32, 0);
    }

    pub fn set_door_type_word(&mut self, door: usize, value: u16)
        requires
            (DOOR_TYPE_AND_SLOT + (door * 2)) + 1 < old(self).ram().len(),
        ensures
            final(self).ram() == types::with_u16(
                old(self).ram(),
                DOOR_TYPE_AND_SLOT + (door * 2),
                value,
            ),
            final(final(self).ram)@ == final(old(self).ram)@,
    {
        proof {
            assert(self.ram@.len() == self.ram.len());
        }
        write_le_u16(self.ram, DOOR_TYPE_AND_SLOT + door * 2, value);
    }

    pub fn set_door_direction_word(&mut self, door: usize, value: u16)
        requires
            (DUNGEON_DOOR_DIRECTION + (door * 2)) + 1 < old(self).ram().len(),
        ensures
            final(self).ram() == types::with_u16(
                old(self).ram(),
                DUNGEON_DOOR_DIRECTION + (door * 2),
                value,
            ),
            final(final(self).ram)@ == final(old(self).ram)@,
    {
        proof {
            assert(self.ram@.len() == self.ram.len());
        }
        write_le_u16(self.ram, DUNGEON_DOOR_DIRECTION + door * 2, value);
    }

    pub fn clear_door_direction(&mut self, door: usize)
        requires
            (DUNGEON_DOOR_DIRECTION + (door * 2)) + 1 < old(self).ram().len(),
        ensures
            final(self).ram() == types::with_u16(
                old(self).ram(),
                DUNGEON_DOOR_DIRECTION + (door * 2),
                0,
            ),
            final(final(self).ram)@ == final(old(self).ram)@,
    {
        proof {
            assert(self.ram@.len() == self.ram.len());
        }
        self.set_door_direction_word(door, 0);
    }

    pub fn set_changeable_object_index(&mut self, index: usize, value: u8)
        requires
            CHANGEABLE_DUNGEON_OBJECT_INDEX + index < old(self).ram().len(),
        ensures
            final(self).ram() == old(self).ram().update(
                CHANGEABLE_DUNGEON_OBJECT_INDEX + index,
                value,
            ),
            final(final(self).ram)@ == final(old(self).ram)@,
    {
        proof {
            assert(self.ram@.len() == self.ram.len());
        }
        self.ram[CHANGEABLE_DUNGEON_OBJECT_INDEX + index] = value;
    }

    pub fn clear_changeable_object_index(&mut self, index: usize)
        requires
            CHANGEABLE_DUNGEON_OBJECT_INDEX + index < old(self).ram().len(),
        ensures
            final(self).ram() == old(self).ram().update(CHANGEABLE_DUNGEON_OBJECT_INDEX + index, 0),
            final(final(self).ram)@ == final(old(self).ram)@,
    {
        proof {
            assert(self.ram@.len() == self.ram.len());
        }
        self.set_changeable_object_index(index, 0);
    }

    pub fn increment_trap_trigger_latch(&mut self)
        requires
            DUNGEON_TRAP_TRIGGER_LATCH < old(self).ram().len(),
        ensures
            final(self).ram() == old(self).ram().update(
                DUNGEON_TRAP_TRIGGER_LATCH as int,
                old(self).ram()[DUNGEON_TRAP_TRIGGER_LATCH as int].wrapping_add(1),
            ),
            final(final(self).ram)@ == final(old(self).ram)@,
    {
        self.ram[DUNGEON_TRAP_TRIGGER_LATCH] = self.ram[DUNGEON_TRAP_TRIGGER_LATCH].wrapping_add(1);
    }

    pub fn clear_trap_trigger_latch(&mut self)
        requires
            DUNGEON_TRAP_TRIGGER_LATCH < old(self).ram().len(),
        ensures
            final(self).ram() == old(self).ram().update(DUNGEON_TRAP_TRIGGER_LATCH as int, 0u8),
            final(final(self).ram)@ == final(old(self).ram)@,
    {
        self.ram[DUNGEON_TRAP_TRIGGER_LATCH] = 0;
    }

    pub fn set_room_history_entry(&mut self, index: usize, value: u16)
        requires
            (DUNGEON_ROOM_HISTORY + (index * 2)) + 1 < old(self).ram().len(),
        ensures
            final(self).ram() == types::with_u16(
                old(self).ram(),
                DUNGEON_ROOM_HISTORY + (index * 2),
                value,
            ),
            final(final(self).ram)@ == final(old(self).ram)@,
    {
        proof {
            assert(self.ram@.len() == self.ram.len());
        }
        write_le_u16(self.ram, DUNGEON_ROOM_HISTORY + index * 2, value);
    }

    pub fn reset_room_history(&mut self)
        requires
            DUNGEON_ROOM_HISTORY + 1 < old(self).ram().len(),
            (DUNGEON_ROOM_HISTORY + 2) + 1 < old(self).ram().len(),
            (DUNGEON_ROOM_HISTORY + 4) + 1 < old(self).ram().len(),
            (DUNGEON_ROOM_HISTORY + 6) + 1 < old(self).ram().len(),
        ensures
            final(self).ram() == types::with_u16(
                types::with_u16(
                    types::with_u16(
                        types::with_u16(
                            old(self).ram(),
                            DUNGEON_ROOM_HISTORY as int,
                            0xffffu16,
                        ),
                        DUNGEON_ROOM_HISTORY + 2,
                        0xffffu16,
                    ),
                    DUNGEON_ROOM_HISTORY + 4,
                    0xffffu16,
                ),
                DUNGEON_ROOM_HISTORY + 6,
                0xffffu16,
            ),
            final(final(self).ram)@ == final(old(self).ram)@,
    {
        write_le_u16(self.ram, DUNGEON_ROOM_HISTORY, 0xffff);
        write_le_u16(self.ram, DUNGEON_ROOM_HISTORY + 2, 0xffff);
        write_le_u16(self.ram, DUNGEON_ROOM_HISTORY + 4, 0xffff);
        write_le_u16(self.ram, DUNGEON_ROOM_HISTORY + 6, 0xffff);
    }

    pub fn set_floor_move_flags(&mut self, value: u8)
        requires
            DUNG_FLOOR_MOVE_FLAGS < old(self).ram().len(),
        ensures
            final(self).ram() == old(self).ram().update(DUNG_FLOOR_MOVE_FLAGS as int, value),
            final(final(self).ram)@ == final(old(self).ram)@,
    {
        self.ram[DUNG_FLOOR_MOVE_FLAGS] = value;
    }

    pub fn increment_floor_move_flags(&mut self)
        requires
            DUNG_FLOOR_MOVE_FLAGS < old(self).ram().len(),
        ensures
            final(self).ram() == old(self).ram().update(
                DUNG_FLOOR_MOVE_FLAGS as int,
                old(self).ram()[DUNG_FLOOR_MOVE_FLAGS as int].wrapping_add(1),
            ),
            final(final(self).ram)@ == final(old(self).ram)@,
    {
        self.ram[DUNG_FLOOR_MOVE_FLAGS] = self.ram[DUNG_FLOOR_MOVE_FLAGS].wrapping_add(1);
    }

    pub fn clear_orange_blue_barrier_state(&mut self)
        requires
            ORANGE_BLUE_BARRIER_STATE + 1 < old(self).ram().len(),
        ensures
            final(self).ram() == types::with_u16(
                old(self).ram(),
                ORANGE_BLUE_BARRIER_STATE as int,
                0u16,
            ),
            final(final(self).ram)@ == final(old(self).ram)@,
    {
        write_le_u16(self.ram, ORANGE_BLUE_BARRIER_STATE, 0);
    }

    pub fn clear_moving_floor_check_flags(&mut self)
        requires
            MOVING_FLOOR_BG_CHECK_FLAGS + 1 < old(self).ram().len(),
        ensures
            final(self).ram() == types::with_u16(
                old(self).ram(),
                MOVING_FLOOR_BG_CHECK_FLAGS as int,
                0u16,
            ),
            final(final(self).ram)@ == final(old(self).ram)@,
    {
        write_le_u16(self.ram, MOVING_FLOOR_BG_CHECK_FLAGS, 0);
    }

    pub fn or_moving_floor_check_flags(&mut self, bits: u16) -> (result: u16)
        requires
            MOVING_FLOOR_BG_CHECK_FLAGS + 1 < old(self).ram().len(),
        ensures
            result == (types::u16_at(old(self).ram(), MOVING_FLOOR_BG_CHECK_FLAGS as int) | bits),
            final(self).ram() == types::with_u16(
                old(self).ram(),
                MOVING_FLOOR_BG_CHECK_FLAGS as int,
                types::u16_at(
                    old(self).ram(),
                    MOVING_FLOOR_BG_CHECK_FLAGS as int,
                )
                    | bits,
            ),
            final(final(self).ram)@ == final(old(self).ram)@,
    {
        let next = read_le_u16(self.ram, MOVING_FLOOR_BG_CHECK_FLAGS) | bits;
        write_le_u16(self.ram, MOVING_FLOOR_BG_CHECK_FLAGS, next);
        next
    }

    pub fn copy_default_tile_attrs_head(&mut self, data: &[u8])
        requires
            ATTRIBUTES_FOR_TILE_PLAYER + 0x140 <= old(self).ram().len(),
            0x140 <= data@.len(),
        ensures
            final(self).ram() == access::copied(
                old(self).ram(),
                ATTRIBUTES_FOR_TILE_PLAYER as int,
                data@.subrange(0, 0x140 as int),
            ),
            final(final(self).ram)@ == final(old(self).ram)@,
    {
        copy_bytes(self.ram, ATTRIBUTES_FOR_TILE_PLAYER, slice_subrange(data, 0, 0x140));
    }

    pub fn set_dungeon_dark_with_lantern(&mut self)
        requires
            HDR_DUNGEON_DARK_WITH_LANTERN < old(self).ram().len(),
        ensures
            final(self).ram() == old(self).ram().update(HDR_DUNGEON_DARK_WITH_LANTERN as int, 1u8),
            final(final(self).ram)@ == final(old(self).ram)@,
    {
        self.ram[HDR_DUNGEON_DARK_WITH_LANTERN] = 1;
    }

    pub fn clear_dungeon_dark_with_lantern(&mut self)
        requires
            HDR_DUNGEON_DARK_WITH_LANTERN < old(self).ram().len(),
        ensures
            final(self).ram() == old(self).ram().update(HDR_DUNGEON_DARK_WITH_LANTERN as int, 0u8),
            final(final(self).ram)@ == final(old(self).ram)@,
    {
        self.ram[HDR_DUNGEON_DARK_WITH_LANTERN] = 0;
    }

    pub fn toggle_orange_blue_barrier_state(&mut self)
        requires
            ORANGE_BLUE_BARRIER_STATE < old(self).ram().len(),
        ensures
            final(self).ram() == old(self).ram().update(
                ORANGE_BLUE_BARRIER_STATE as int,
                old(self).ram()[ORANGE_BLUE_BARRIER_STATE as int] ^ 1,
            ),
            final(final(self).ram)@ == final(old(self).ram)@,
    {
        self.ram[ORANGE_BLUE_BARRIER_STATE] ^= 1;
    }

    pub fn set_activate_bomb_trap_overlord(&mut self, value: u8)
        requires
            ACTIVATE_BOMB_TRAP_OVERLORD < old(self).ram().len(),
        ensures
            final(self).ram() == old(self).ram().update(ACTIVATE_BOMB_TRAP_OVERLORD as int, value),
            final(final(self).ram)@ == final(old(self).ram)@,
    {
        self.ram[ACTIVATE_BOMB_TRAP_OVERLORD] = value;
    }
}

} // verus!
