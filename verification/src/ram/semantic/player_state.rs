use vstd::prelude::*;
use super::access;
use super::access::{byte, word, copy_word, move_link_axis_by_velocity, move_link_axis_by_subpixel_delta, fill_bytes};
use super::addresses::{
    ABOUT_TO_JUMP_OFF_LEDGE, BIT9_OF_XCOORD, BUTTON_B_FRAMES, BUTTON_MASK_B_Y,
    CHEAT_WALK_THROUGH_WALLS, COUNTDOWN_FOR_BLINK, DMA_BODY_POINTER, DMA_HEAD_POINTER,
    DRAG_PLAYER_X, DRAG_PLAYER_Y, DRAW_WATER_RIPPLES_OR_GRASS, EQ_SELECTED_ROD, FILTERED_JOYPAD_H,
    FILTERED_JOYPAD_L, FLAG_BLOCK_LINK_MENU, FLAG_CUSTOM_SPELL_ANIM_ACTIVE,
    FLAG_IS_ANCILLA_TO_PICK_UP, FLAG_IS_LINK_IMMOBILIZED, FLAG_IS_SPRITE_TO_PICK_UP,
    FLAG_IS_SPRITE_TO_PICK_UP_CACHED, FORCE_MOVE_ANY_DIRECTION, IS_ARCHER_OR_SHOVEL_GAME,
    IS_STANDING_IN_DOORWAY, ITEM_RECEIPT_METHOD, JOYPAD1H_LAST, JOYPAD1H_LAST2, JOYPAD1L_LAST,
    JOYPAD1L_LAST2, LINK_ACTUAL_X_VELOCITY, LINK_ACTUAL_Y_VELOCITY, LINK_ANIMATION_STEPS,
    LINK_AUXILIARY_STATE, LINK_BUNNY_TRANSFORM_TIMER, LINK_CANT_CHANGE_DIRECTION, LINK_CAPE_MODE,
    LINK_COUNTDOWN_FOR_DASH, LINK_CURRENT_HEALTH, LINK_CURRENT_ITEM_ACTIVE, LINK_CURRENT_ITEM_Y,
    LINK_DASH_COUNTER, LINK_DEBUG_VALUE_1, LINK_DEBUG_VALUE_2, LINK_DELAY_TIMER_SPIN_ATTACK,
    LINK_DIRECTION, LINK_DIRECTION_MASK_A, LINK_DIRECTION_MASK_B, LINK_DISABLE_SPRITE_DAMAGE,
    LINK_DMA_COUNTDOWN, LINK_DMA_GRAPHICS_INDEX, LINK_DMA_LEFT_SPRITE_BANK_INDEX,
    LINK_DMA_RIGHT_SPRITE_BANK_INDEX, LINK_DMA_SHIELD_GRAPHICS_INDEX, LINK_DMA_SOURCE_OFFSET,
    LINK_DMA_STAGING_INDEX, LINK_DMA_SWORD_GRAPHICS_INDEX, LINK_DMA_TILE_OFFSET,
    LINK_ELECTROCUTE_ON_TOUCH, LINK_EQUIPPED_ITEM, LINK_FACING, LINK_FACING_CACHED,
    LINK_FACING_MIRROR, LINK_FAINT_ANIMATION_ACTIVE, LINK_FLAG_MOVING, LINK_FORCE_HOLD_SWORD_UP,
    LINK_FRAME_CHANGE_COUNTER, LINK_GIVE_DAMAGE, LINK_GRABBING_WALL, LINK_HANDLER_STATE,
    LINK_INCAPACITATED_CAMERA_TIMER, LINK_INCAPACITATED_TIMER, LINK_IS_BUNNY, LINK_IS_BUNNY_MIRROR,
    LINK_IS_IN_DEEP_WATER, LINK_IS_NEAR_MOVEABLE_STATUE, LINK_IS_ON_LOWER_LEVEL,
    LINK_IS_ON_LOWER_LEVEL_CACHED, LINK_IS_ON_LOWER_LEVEL_MIRROR,
    LINK_IS_ON_LOWER_LEVEL_MIRROR_CACHED, LINK_IS_RUNNING, LINK_IS_TRANSFORMING,
    LINK_ITEM_ACTION_STEP_SCRATCH, LINK_ITEM_FLIPPERS, LINK_ITEM_HOLDING_TIMER, LINK_ITEM_IN_HAND,
    LINK_ITEM_MOON_PEARL, LINK_LAST_DIRECTION, LINK_LAST_DIRECTION_MOVED_TOWARDS,
    LINK_MAGIC_CONSUMPTION, LINK_MAGIC_POWER, LINK_MAYBE_SWIM_FASTER,
    LINK_MOVING_AGAINST_DIAG_TILE, LINK_NEED_FOR_POOF_FOR_TRANSFORM,
    LINK_NEED_FOR_PULLFORRUPEES_SPRITE, LINK_NUM_ORTHOGONAL_DIRECTIONS, LINK_ON_CONVEYOR_BELT,
    LINK_PALETTE_BITS_OF_OAM, LINK_PICKING_THROW_STATE, LINK_POSE_DURING_OPENING,
    LINK_POSE_FOR_ITEM, LINK_POSITION_MODE, LINK_PREVENT_FROM_MOVING, LINK_PULL_ACTION_STATE,
    LINK_QUADRANT_X, LINK_QUADRANT_X_CACHED, LINK_QUADRANT_Y, LINK_QUADRANT_Y_CACHED,
    LINK_RECEIVE_ITEM_INDEX, LINK_RECOIL_TIMER, LINK_RECOIL_Z_VELOCITY_DUNGEON,
    LINK_SOMETHING_WITH_HOOKSHOT, LINK_SPEED_MODIFIER, LINK_SPEED_SETTING,
    LINK_SPIN_ATTACK_STEP_COUNTER, LINK_SPIN_OFFSETS, LINK_SPRITE_OAM_STATE_TIMER, LINK_STATE_BITS,
    LINK_SWIM_HARD_STROKE, LINK_SWORD_DELAY_TIMER, LINK_THROW_OAM_STATE_INDEX, LINK_TILE_BELOW,
    LINK_TIMER_JUMP_LEDGE, LINK_TIMER_PUSH_GET_TIRED, LINK_TIMER_TEMPBUNNY,
    LINK_TRIGGERED_BY_WHIRLPOOL_SPRITE, LINK_VISIBILITY_STATUS, LINK_WANT_MAKE_NOISE_WHEN_DASHED,
    LINK_X_COORD, LINK_X_COORD_CACHED, LINK_X_COORD_COPY, LINK_X_COORD_EXIT_OVERWORLD,
    LINK_X_COORD_PREV, LINK_X_COORD_SAFE_RETURN_HI, LINK_X_COORD_SAFE_RETURN_LO,
    LINK_X_PAGE_MOVEMENT_DELTA, LINK_X_SUBPIXEL, LINK_X_VELOCITY, LINK_Y_COORD,
    LINK_Y_COORD_CACHED, LINK_Y_COORD_COPY, LINK_Y_COORD_EXIT_OVERWORLD, LINK_Y_COORD_ORIGINAL,
    LINK_Y_COORD_PREV, LINK_Y_COORD_SAFE_RETURN_HI, LINK_Y_COORD_SAFE_RETURN_LO,
    LINK_Y_PAGE_MOVEMENT_DELTA, LINK_Y_SUBPIXEL, LINK_Y_VELOCITY, LINK_Z_COORD,
    LINK_Z_COORD_MIRROR, LINK_Z_SUBPIXEL, LINK_Z_VELOCITY, LINK_Z_VELOCITY_COPY,
    LINK_Z_VELOCITY_COPY_MIRROR, LINK_Z_VELOCITY_MIRROR, PIT_CORRECTION_ACTIVE_FLAG,
    PLAYER_DEFENSE_FLAGS, PLAYER_HANDLER_TIMER, PLAYER_NEAR_PIT_STATE, PLAYER_OAM_X_OFFSET,
    PLAYER_OAM_Y_OFFSET, PLAYER_ON_SOMARIA_PLATFORM, PLAYER_PIT_DATA_INDEX,
    PLAYER_POSE_DRAW_COUNTER, PLAYER_RESET_ANCILLA_WORK_BYTE_24, PLAYER_SLEEP_IN_BED_STATE,
    PLAYER_SPECIAL_DRAW_FLAG, PRIMARY_WATER_GRASS_TIMER, PUSHED_BLOCK_MODE, RELATED_TO_HOOKSHOT,
    RELATED_TO_MOVING_FLOOR_X, RELATED_TO_MOVING_FLOOR_Y, SAVEGAME_IS_DARKWORLD, SCRATCH_1,
    SECONDARY_WATER_GRASS_TIMER, SOMARIA_BLOCK_BG_CHECK_FLAG, STATE_FOR_SPIN_ATTACK,
    STEP_COUNTER_FOR_SPIN_ATTACK, SWIMMING_COUNTDOWN, SWIM_ACCELERATION_MODE,
    SWIM_PLAYER_DIRECTION_FLAGS, SWIM_STROKE_ANIM_STEP, TAGALONG_EVENT_FLAGS,
    TILEDETECT_MISC_TILES, TILEDETECT_TILE_TYPE, TILE_ACTION_INDEX, TILE_COLL_FLAG,
    Y_BUTTON_ACTION_FLAGS, Y_BUTTON_ACTION_STEP, Y_BUTTON_ACTION_TIMER,
};
use crate::types;
use crate::types::{read_le_u16, write_le_u16};

verus! {

pub struct PlayerStateView<'a> {
    ram: &'a [u8],
}

impl<'a> PlayerStateView<'a> {
    /// The bytes of RAM this view reads and writes.
    pub closed spec fn ram(&self) -> Seq<u8> {
        self.ram@
    }

    pub fn new(ram: &'a [u8]) -> (view: Self)
        ensures
            view.ram() == ram@,
    {
        Self { ram }
    }

    pub fn x(&self) -> (result: u16)
        ensures
            result == access::word_at(self.ram(), LINK_X_COORD as int),
    {
        word(self.ram, LINK_X_COORD)
    }

    pub fn y(&self) -> (result: u16)
        ensures
            result == access::word_at(self.ram(), LINK_Y_COORD as int),
    {
        word(self.ram, LINK_Y_COORD)
    }

    pub fn z(&self) -> (result: u16)
        ensures
            result == access::word_at(self.ram(), LINK_Z_COORD as int),
    {
        word(self.ram, LINK_Z_COORD)
    }

    pub fn z_low(&self) -> (result: u8)
        ensures
            result == access::byte_at(self.ram(), LINK_Z_COORD as int),
    {
        byte(self.ram, LINK_Z_COORD)
    }

    pub fn z_low_signed(&self) -> (result: i8)
        ensures
            result == (access::byte_at(self.ram(), LINK_Z_COORD as int) as i8),
    {
        self.z_low() as i8
    }

    pub fn is_z_low_negative(&self) -> (result: bool)
        ensures
            result == ((access::byte_at(self.ram(), LINK_Z_COORD as int) as i8) < 0),
    {
        self.z_low_signed() < 0
    }

    pub fn z_mirror(&self) -> (result: u16)
        ensures
            result == access::word_at(self.ram(), LINK_Z_COORD_MIRROR as int),
    {
        word(self.ram, LINK_Z_COORD_MIRROR)
    }

    pub fn z_mirror_low(&self) -> (result: u8)
        ensures
            result == access::byte_at(self.ram(), LINK_Z_COORD_MIRROR as int),
    {
        byte(self.ram, LINK_Z_COORD_MIRROR)
    }

    pub fn z_mirror_delta_low(&self) -> (result: u8)
        ensures
            result == access::byte_at(self.ram(), LINK_Z_COORD_MIRROR as int)
                .wrapping_sub(access::byte_at(self.ram(), LINK_Z_COORD as int)),
    {
        self.z_mirror_low().wrapping_sub(self.z_low())
    }

    pub fn is_landing_at_or_above_ground(&self) -> (result: bool)
        ensures
            result == (access::word_at(self.ram(), LINK_Z_COORD as int) >= 0xfff0),
    {
        self.z() >= 0xfff0
    }

    pub fn is_low_z_landing_at_or_above_ground(&self) -> (result: bool)
        ensures
            result == (access::byte_at(self.ram(), LINK_Z_COORD as int) >= 0xf0),
    {
        self.z_low() >= 0xf0
    }

    pub fn is_recoil_landing_z_window(&self) -> (result: bool)
        ensures
            result == (((access::byte_at(self.ram(), LINK_Z_COORD as int) & 0xfeu8) as i8) <= 0),
    {
        ((self.z_low() & 0xfe) as i8) <= 0
    }

    pub fn should_probe_recoil_landing_tile(&self) -> (result: bool)
        ensures
            result == ((access::byte_at(self.ram(), LINK_Z_COORD as int) == 0)
                 || (access::byte_at(self.ram(), LINK_Z_COORD as int) >= 0xe0)),
    {
        self.z_low() == 0 || self.z_low() >= 0xe0
    }

    pub fn z_for_oam(&self) -> (result: u8)
        ensures
            result == (if (access::word_at(self.ram(), LINK_Z_COORD as int) < 0x8000) || (access::byte_at(self.ram(), LINK_Z_COORD as int) < 0xf0) {
                access::byte_at(self.ram(), LINK_Z_COORD as int)
            } else {
                0u8
            }),
    {
        if self.z() < 0x8000 || byte(self.ram, LINK_Z_COORD) < 0xf0 {
            byte(self.ram, LINK_Z_COORD)
        } else {
            0
        }
    }

    pub fn is_grounded_or_z_sentinel(&self) -> (result: bool)
        ensures
            result == (access::byte_at(self.ram(), LINK_Z_COORD as int) == 0
                 || access::byte_at(self.ram(), LINK_Z_COORD as int) == 0xff),
    {
        matches!(byte(self.ram, LINK_Z_COORD), 0 | 0xff)
    }

    pub fn cached_x(&self) -> (result: u16)
        ensures
            result == access::word_at(self.ram(), LINK_X_COORD_CACHED as int),
    {
        word(self.ram, LINK_X_COORD_CACHED)
    }

    pub fn cached_y(&self) -> (result: u16)
        ensures
            result == access::word_at(self.ram(), LINK_Y_COORD_CACHED as int),
    {
        word(self.ram, LINK_Y_COORD_CACHED)
    }

    pub fn oam_x_offset(&self) -> (result: u8)
        ensures
            result == access::byte_at(self.ram(), PLAYER_OAM_X_OFFSET as int),
    {
        byte(self.ram, PLAYER_OAM_X_OFFSET)
    }

    pub fn oam_y_offset(&self) -> (result: u8)
        ensures
            result == access::byte_at(self.ram(), PLAYER_OAM_Y_OFFSET as int),
    {
        byte(self.ram, PLAYER_OAM_Y_OFFSET)
    }

    pub fn oam_x_offset_signed(&self) -> (result: i8)
        ensures
            result == (access::byte_at(self.ram(), PLAYER_OAM_X_OFFSET as int) as i8),
    {
        self.oam_x_offset() as i8
    }

    pub fn oam_y_offset_signed(&self) -> (result: i8)
        ensures
            result == (access::byte_at(self.ram(), PLAYER_OAM_Y_OFFSET as int) as i8),
    {
        self.oam_y_offset() as i8
    }

    pub fn has_disabled_oam_offsets(&self) -> (result: bool)
        ensures
            result == (access::byte_at(self.ram(), PLAYER_OAM_Y_OFFSET as int) == 0x80),
    {
        self.oam_y_offset() == 0x80
    }

    pub fn x_high(&self) -> (result: u8)
        ensures
            result == access::byte_at(self.ram(), LINK_X_COORD + 1),
    {
        byte(self.ram, LINK_X_COORD + 1)
    }

    pub fn y_high(&self) -> (result: u8)
        ensures
            result == access::byte_at(self.ram(), LINK_Y_COORD + 1),
    {
        byte(self.ram, LINK_Y_COORD + 1)
    }

    pub fn x_low(&self) -> (result: u8)
        ensures
            result == access::byte_at(self.ram(), LINK_X_COORD as int),
    {
        byte(self.ram, LINK_X_COORD)
    }

    pub fn y_low(&self) -> (result: u8)
        ensures
            result == access::byte_at(self.ram(), LINK_Y_COORD as int),
    {
        byte(self.ram, LINK_Y_COORD)
    }

    pub fn safe_return_x_high(&self) -> (result: u8)
        ensures
            result == access::byte_at(self.ram(), LINK_X_COORD_SAFE_RETURN_HI as int),
    {
        byte(self.ram, LINK_X_COORD_SAFE_RETURN_HI)
    }

    pub fn safe_return_y_high(&self) -> (result: u8)
        ensures
            result == access::byte_at(self.ram(), LINK_Y_COORD_SAFE_RETURN_HI as int),
    {
        byte(self.ram, LINK_Y_COORD_SAFE_RETURN_HI)
    }

    pub fn safe_return_y_low(&self) -> (result: u8)
        ensures
            result == access::byte_at(self.ram(), LINK_Y_COORD_SAFE_RETURN_LO as int),
    {
        byte(self.ram, LINK_Y_COORD_SAFE_RETURN_LO)
    }

    pub fn y_low_delta_from_safe_return(&self) -> (result: u8)
        ensures
            result == access::byte_at(self.ram(), LINK_Y_COORD as int)
                .wrapping_sub(
                    access::byte_at(self.ram(), LINK_Y_COORD_SAFE_RETURN_LO as int),
                ),
    {
        byte(self.ram, LINK_Y_COORD).wrapping_sub(byte(self.ram, LINK_Y_COORD_SAFE_RETURN_LO))
    }

    pub fn safe_return_x(&self) -> (result: u16)
        ensures
            result == ((access::byte_at(self.ram(), LINK_X_COORD_SAFE_RETURN_LO as int) as u16)
                 | ((access::byte_at(self.ram(), LINK_X_COORD_SAFE_RETURN_HI as int) as u16) << 8)),
    {
        byte(self.ram, LINK_X_COORD_SAFE_RETURN_LO) as u16
            | ((byte(self.ram, LINK_X_COORD_SAFE_RETURN_HI) as u16) << 8)
    }

    pub fn safe_return_y(&self) -> (result: u16)
        ensures
            result == ((access::byte_at(self.ram(), LINK_Y_COORD_SAFE_RETURN_LO as int) as u16)
                 | ((access::byte_at(self.ram(), LINK_Y_COORD_SAFE_RETURN_HI as int) as u16) << 8)),
    {
        byte(self.ram, LINK_Y_COORD_SAFE_RETURN_LO) as u16
            | ((byte(self.ram, LINK_Y_COORD_SAFE_RETURN_HI) as u16) << 8)
    }

    pub fn hop_origin_coord(&self) -> (result: u16)
        ensures
            result == access::word_at(self.ram(), LINK_Y_COORD_ORIGINAL as int),
    {
        word(self.ram, LINK_Y_COORD_ORIGINAL)
    }

    pub fn copied_x(&self) -> (result: u16)
        ensures
            result == access::word_at(self.ram(), LINK_X_COORD_COPY as int),
    {
        word(self.ram, LINK_X_COORD_COPY)
    }

    pub fn copied_y(&self) -> (result: u16)
        ensures
            result == access::word_at(self.ram(), LINK_Y_COORD_COPY as int),
    {
        word(self.ram, LINK_Y_COORD_COPY)
    }

    pub fn temp_bunny_timer(&self) -> (result: u16)
        ensures
            result == access::word_at(self.ram(), LINK_TIMER_TEMPBUNNY as int),
    {
        word(self.ram, LINK_TIMER_TEMPBUNNY)
    }

    pub fn x_velocity(&self) -> (result: u8)
        ensures
            result == access::byte_at(self.ram(), LINK_X_VELOCITY as int),
    {
        byte(self.ram, LINK_X_VELOCITY)
    }

    pub fn x_velocity_signed(&self) -> (result: i8)
        ensures
            result == (access::byte_at(self.ram(), LINK_X_VELOCITY as int) as i8),
    {
        self.x_velocity() as i8
    }

    pub fn y_velocity(&self) -> (result: u8)
        ensures
            result == access::byte_at(self.ram(), LINK_Y_VELOCITY as int),
    {
        byte(self.ram, LINK_Y_VELOCITY)
    }

    pub fn y_velocity_signed(&self) -> (result: i8)
        ensures
            result == (access::byte_at(self.ram(), LINK_Y_VELOCITY as int) as i8),
    {
        self.y_velocity() as i8
    }

    pub fn x_subpixel(&self) -> (result: u8)
        ensures
            result == access::byte_at(self.ram(), LINK_X_SUBPIXEL as int),
    {
        byte(self.ram, LINK_X_SUBPIXEL)
    }

    pub fn y_subpixel(&self) -> (result: u8)
        ensures
            result == access::byte_at(self.ram(), LINK_Y_SUBPIXEL as int),
    {
        byte(self.ram, LINK_Y_SUBPIXEL)
    }

    pub fn x_page_movement_delta(&self) -> (result: u8)
        ensures
            result == access::byte_at(self.ram(), LINK_X_PAGE_MOVEMENT_DELTA as int),
    {
        byte(self.ram, LINK_X_PAGE_MOVEMENT_DELTA)
    }

    pub fn y_page_movement_delta(&self) -> (result: u8)
        ensures
            result == access::byte_at(self.ram(), LINK_Y_PAGE_MOVEMENT_DELTA as int),
    {
        byte(self.ram, LINK_Y_PAGE_MOVEMENT_DELTA)
    }

    pub fn x_page_movement_delta_signed(&self) -> (result: i8)
        ensures
            result == (access::byte_at(self.ram(), LINK_X_PAGE_MOVEMENT_DELTA as int) as i8),
    {
        self.x_page_movement_delta() as i8
    }

    pub fn y_page_movement_delta_signed(&self) -> (result: i8)
        ensures
            result == (access::byte_at(self.ram(), LINK_Y_PAGE_MOVEMENT_DELTA as int) as i8),
    {
        self.y_page_movement_delta() as i8
    }

    pub fn z_velocity(&self) -> (result: u8)
        ensures
            result == access::byte_at(self.ram(), LINK_Z_VELOCITY as int),
    {
        byte(self.ram, LINK_Z_VELOCITY)
    }

    pub fn actual_x_velocity(&self) -> (result: u8)
        ensures
            result == access::byte_at(self.ram(), LINK_ACTUAL_X_VELOCITY as int),
    {
        byte(self.ram, LINK_ACTUAL_X_VELOCITY)
    }

    pub fn actual_x_velocity_signed(&self) -> (result: i8)
        ensures
            result == (access::byte_at(self.ram(), LINK_ACTUAL_X_VELOCITY as int) as i8),
    {
        self.actual_x_velocity() as i8
    }

    pub fn actual_y_velocity(&self) -> (result: u8)
        ensures
            result == access::byte_at(self.ram(), LINK_ACTUAL_Y_VELOCITY as int),
    {
        byte(self.ram, LINK_ACTUAL_Y_VELOCITY)
    }

    pub fn actual_y_velocity_signed(&self) -> (result: i8)
        ensures
            result == (access::byte_at(self.ram(), LINK_ACTUAL_Y_VELOCITY as int) as i8),
    {
        self.actual_y_velocity() as i8
    }

    pub fn actual_z_velocity(&self) -> (result: u8)
        ensures
            result == access::byte_at(self.ram(), LINK_Z_VELOCITY as int),
    {
        byte(self.ram, LINK_Z_VELOCITY)
    }

    pub fn actual_z_velocity_copy(&self) -> (result: u8)
        ensures
            result == access::byte_at(self.ram(), LINK_Z_VELOCITY_COPY as int),
    {
        byte(self.ram, LINK_Z_VELOCITY_COPY)
    }

    pub fn actual_z_velocity_mirror(&self) -> (result: u8)
        ensures
            result == access::byte_at(self.ram(), LINK_Z_VELOCITY_MIRROR as int),
    {
        byte(self.ram, LINK_Z_VELOCITY_MIRROR)
    }

    pub fn recoil_z_velocity_for_dungeon_reset(&self) -> (result: u8)
        ensures
            result == access::byte_at(self.ram(), LINK_RECOIL_Z_VELOCITY_DUNGEON as int),
    {
        byte(self.ram, LINK_RECOIL_Z_VELOCITY_DUNGEON)
    }

    pub fn recoil_timer(&self) -> (result: u8)
        ensures
            result == access::byte_at(self.ram(), LINK_RECOIL_TIMER as int),
    {
        byte(self.ram, LINK_RECOIL_TIMER)
    }

    pub fn direction(&self) -> (result: u8)
        ensures
            result == access::byte_at(self.ram(), LINK_DIRECTION as int),
    {
        byte(self.ram, LINK_DIRECTION)
    }

    pub fn direction_lock(&self) -> (result: u8)
        ensures
            result == access::byte_at(self.ram(), LINK_CANT_CHANGE_DIRECTION as int),
    {
        byte(self.ram, LINK_CANT_CHANGE_DIRECTION)
    }

    pub fn direction_lock_has(&self, mask: u8) -> (result: bool)
        ensures
            result == ((access::byte_at(self.ram(), LINK_CANT_CHANGE_DIRECTION as int) & mask) != 0),
    {
        byte(self.ram, LINK_CANT_CHANGE_DIRECTION) & mask != 0
    }

    pub fn moving_against_diag_tile(&self) -> (result: u8)
        ensures
            result == access::byte_at(self.ram(), LINK_MOVING_AGAINST_DIAG_TILE as int),
    {
        byte(self.ram, LINK_MOVING_AGAINST_DIAG_TILE)
    }

    pub fn is_moving_against_diag_tile_on_both_axes(&self) -> (result: bool)
        ensures
            result
                == (((access::byte_at(self.ram(), LINK_MOVING_AGAINST_DIAG_TILE as int) & 0x0cu8) != 0)
                     && ((access::byte_at(self.ram(), LINK_MOVING_AGAINST_DIAG_TILE as int) & 3u8) != 0)),
    {
        self.moving_against_diag_tile() & 0x0c != 0 && self.moving_against_diag_tile() & 3 != 0
    }

    pub fn has_swim_axis_drag(&self) -> (result: bool)
        ensures
            result == ((access::byte_at(self.ram(), LINK_NUM_ORTHOGONAL_DIRECTIONS as int) | access::byte_at(self.ram(), LINK_MOVING_AGAINST_DIAG_TILE as int)) != 0),
    {
        (byte(self.ram, LINK_NUM_ORTHOGONAL_DIRECTIONS) | byte(self.ram, LINK_MOVING_AGAINST_DIAG_TILE)) != 0
    }

    pub fn num_orthogonal_directions(&self) -> (result: u8)
        ensures
            result == access::byte_at(self.ram(), LINK_NUM_ORTHOGONAL_DIRECTIONS as int),
    {
        byte(self.ram, LINK_NUM_ORTHOGONAL_DIRECTIONS)
    }

    pub fn last_direction_moved_towards(&self) -> (result: u8)
        ensures
            result == access::byte_at(self.ram(), LINK_LAST_DIRECTION_MOVED_TOWARDS as int),
    {
        byte(self.ram, LINK_LAST_DIRECTION_MOVED_TOWARDS)
    }

    pub fn last_direction_moved_towards_index(&self) -> (result: usize)
        ensures
            result == (access::byte_at(
                 self.ram(),
                 LINK_LAST_DIRECTION_MOVED_TOWARDS as int,
             ) as usize),
    {
        self.last_direction_moved_towards() as usize
    }

    pub fn last_direction(&self) -> (result: u8)
        ensures
            result == access::byte_at(self.ram(), LINK_LAST_DIRECTION as int),
    {
        byte(self.ram, LINK_LAST_DIRECTION)
    }

    pub fn facing(&self) -> (result: u8)
        ensures
            result == access::byte_at(self.ram(), LINK_FACING as int),
    {
        byte(self.ram, LINK_FACING)
    }

    pub fn has_facing(&self) -> (result: bool)
        ensures
            result == (access::byte_at(self.ram(), LINK_FACING as int) != 0),
    {
        byte(self.ram, LINK_FACING) != 0
    }

    pub fn facing_index(&self) -> (result: usize)
        ensures
            result == ((access::byte_at(self.ram(), LINK_FACING as int) >> 1) as usize),
    {
        (byte(self.ram, LINK_FACING) >> 1) as usize
    }

    pub fn facing_mirror_index(&self) -> (result: usize)
        ensures
            result == ((access::byte_at(self.ram(), LINK_FACING_MIRROR as int) >> 1) as usize),
    {
        (byte(self.ram, LINK_FACING_MIRROR) >> 1) as usize
    }

    pub fn handler_state(&self) -> (result: u8)
        ensures
            result == access::byte_at(self.ram(), LINK_HANDLER_STATE as int),
    {
        byte(self.ram, LINK_HANDLER_STATE)
    }

    pub fn is_edge_transition_blocked_by_handler_state(&self) -> (result: bool)
        ensures
            result == (access::byte_at(self.ram(), LINK_HANDLER_STATE as int) == 3
                 || access::byte_at(self.ram(), LINK_HANDLER_STATE as int) == 8
                 || access::byte_at(self.ram(), LINK_HANDLER_STATE as int) == 9
                 || access::byte_at(self.ram(), LINK_HANDLER_STATE as int) == 10),
    {
        matches!(byte(self.ram, LINK_HANDLER_STATE), 3 | 8 | 9 | 10)
    }

    pub fn auxiliary_state(&self) -> (result: u8)
        ensures
            result == access::byte_at(self.ram(), LINK_AUXILIARY_STATE as int),
    {
        byte(self.ram, LINK_AUXILIARY_STATE)
    }

    pub fn is_in_auxiliary_state(&self, value: u8) -> (result: bool)
        ensures
            result == (access::byte_at(self.ram(), LINK_AUXILIARY_STATE as int) == value),
    {
        byte(self.ram, LINK_AUXILIARY_STATE) == value
    }

    pub fn has_auxiliary_state(&self) -> (result: bool)
        ensures
            result == (access::byte_at(self.ram(), LINK_AUXILIARY_STATE as int) != 0),
    {
        byte(self.ram, LINK_AUXILIARY_STATE) != 0
    }

    pub fn incapacitated_timer(&self) -> (result: u8)
        ensures
            result == access::byte_at(self.ram(), LINK_INCAPACITATED_TIMER as int),
    {
        byte(self.ram, LINK_INCAPACITATED_TIMER)
    }

    pub fn is_in_deep_water(&self) -> (result: bool)
        ensures
            result == (access::byte_at(self.ram(), LINK_IS_IN_DEEP_WATER as int) != 0),
    {
        byte(self.ram, LINK_IS_IN_DEEP_WATER) != 0
    }

    pub fn deep_water_state(&self) -> (result: u8)
        ensures
            result == access::byte_at(self.ram(), LINK_IS_IN_DEEP_WATER as int),
    {
        byte(self.ram, LINK_IS_IN_DEEP_WATER)
    }

    pub fn flag_moving(&self) -> (result: u8)
        ensures
            result == access::byte_at(self.ram(), LINK_FLAG_MOVING as int),
    {
        byte(self.ram, LINK_FLAG_MOVING)
    }

    pub fn swim_direction_flags(&self) -> (result: u8)
        ensures
            result == access::byte_at(self.ram(), SWIM_PLAYER_DIRECTION_FLAGS as int),
    {
        byte(self.ram, SWIM_PLAYER_DIRECTION_FLAGS)
    }

    pub fn hard_swim_stroke(&self) -> (result: u8)
        ensures
            result == access::byte_at(self.ram(), LINK_SWIM_HARD_STROKE as int),
    {
        byte(self.ram, LINK_SWIM_HARD_STROKE)
    }

    pub fn is_running(&self) -> (result: bool)
        ensures
            result == (access::byte_at(self.ram(), LINK_IS_RUNNING as int) != 0),
    {
        byte(self.ram, LINK_IS_RUNNING) != 0
    }

    pub fn running_state(&self) -> (result: u8)
        ensures
            result == access::byte_at(self.ram(), LINK_IS_RUNNING as int),
    {
        byte(self.ram, LINK_IS_RUNNING)
    }

    pub fn speed_setting(&self) -> (result: u8)
        ensures
            result == access::byte_at(self.ram(), LINK_SPEED_SETTING as int),
    {
        byte(self.ram, LINK_SPEED_SETTING)
    }

    pub fn speed_modifier(&self) -> (result: u8)
        ensures
            result == access::byte_at(self.ram(), LINK_SPEED_MODIFIER as int),
    {
        byte(self.ram, LINK_SPEED_MODIFIER)
    }

    pub fn dash_counter(&self) -> (result: u8)
        ensures
            result == access::byte_at(self.ram(), LINK_DASH_COUNTER as int),
    {
        byte(self.ram, LINK_DASH_COUNTER)
    }

    pub fn quadrant_x(&self) -> (result: u8)
        ensures
            result == access::byte_at(self.ram(), LINK_QUADRANT_X as int),
    {
        byte(self.ram, LINK_QUADRANT_X)
    }

    pub fn quadrant_y(&self) -> (result: u8)
        ensures
            result == access::byte_at(self.ram(), LINK_QUADRANT_Y as int),
    {
        byte(self.ram, LINK_QUADRANT_Y)
    }

    pub fn quadrant_visit_index(&self, fullsize_y: u8, fullsize_x: u8) -> (result: usize)
        requires
            ((fullsize_y as usize) << 2) + ((fullsize_x as usize) << 1) <= usize::MAX,
            (((fullsize_y as usize) << 2) + ((fullsize_x as usize) << 1)) + (access::byte_at(self.ram(), LINK_QUADRANT_Y as int) as usize) <= usize::MAX,
            ((((fullsize_y as usize) << 2) + ((fullsize_x as usize) << 1)) + (access::byte_at(self.ram(), LINK_QUADRANT_Y as int) as usize)) + (access::byte_at(self.ram(), LINK_QUADRANT_X as int) as usize) <= usize::MAX,
        ensures
            result == (((((fullsize_y as usize) << 2) + ((fullsize_x as usize) << 1)) + (access::byte_at(self.ram(), LINK_QUADRANT_Y as int) as usize)) + (access::byte_at(self.ram(), LINK_QUADRANT_X as int) as usize)),
    {
        ((fullsize_y as usize) << 2) + ((fullsize_x as usize) << 1) + self.quadrant_y() as usize + self.quadrant_x() as usize
    }

    pub fn quadrant_x_mask(&self) -> (result: u8)
        ensures
            result == (if access::byte_at(self.ram(), LINK_QUADRANT_X as int) != 0u8 {
                2u8
            } else {
                1u8
            }),
    {
        if self.quadrant_x() != 0 {
            2
        } else {
            1
        }
    }

    pub fn quadrant_y_mask(&self) -> (result: u8)
        ensures
            result == (if access::byte_at(self.ram(), LINK_QUADRANT_Y as int) != 0u8 {
                8u8
            } else {
                4u8
            }),
    {
        if self.quadrant_y() != 0 {
            8
        } else {
            4
        }
    }

    pub fn dash_countdown(&self) -> (result: u8)
        ensures
            result == access::byte_at(self.ram(), LINK_COUNTDOWN_FOR_DASH as int),
    {
        byte(self.ram, LINK_COUNTDOWN_FOR_DASH)
    }

    pub fn jump_ledge_timer(&self) -> (result: u8)
        ensures
            result == access::byte_at(self.ram(), LINK_TIMER_JUMP_LEDGE as int),
    {
        byte(self.ram, LINK_TIMER_JUMP_LEDGE)
    }

    pub fn immobilized_flag(&self) -> (result: u8)
        ensures
            result == access::byte_at(self.ram(), FLAG_IS_LINK_IMMOBILIZED as int),
    {
        byte(self.ram, FLAG_IS_LINK_IMMOBILIZED)
    }

    pub fn is_immobilized(&self) -> (result: bool)
        ensures
            result == (access::byte_at(self.ram(), FLAG_IS_LINK_IMMOBILIZED as int) != 0),
    {
        self.immobilized_flag() != 0
    }

    pub fn menu_block_flag(&self) -> (result: u8)
        ensures
            result == access::byte_at(self.ram(), FLAG_BLOCK_LINK_MENU as int),
    {
        byte(self.ram, FLAG_BLOCK_LINK_MENU)
    }

    pub fn is_menu_blocked(&self) -> (result: bool)
        ensures
            result == (access::byte_at(self.ram(), FLAG_BLOCK_LINK_MENU as int) != 0),
    {
        self.menu_block_flag() != 0
    }

    pub fn has_menu_block_flag(&self, value: u8) -> (result: bool)
        ensures
            result == (access::byte_at(self.ram(), FLAG_BLOCK_LINK_MENU as int) == value),
    {
        self.menu_block_flag() == value
    }

    pub fn push_fatigue_timer(&self) -> (result: u8)
        ensures
            result == access::byte_at(self.ram(), LINK_TIMER_PUSH_GET_TIRED as int),
    {
        byte(self.ram, LINK_TIMER_PUSH_GET_TIRED)
    }

    pub fn palette_bits_of_oam(&self) -> (result: u8)
        ensures
            result == access::byte_at(self.ram(), LINK_PALETTE_BITS_OF_OAM as int),
    {
        byte(self.ram, LINK_PALETTE_BITS_OF_OAM)
    }

    pub fn palette_bits_of_oam_word(&self) -> (result: u16)
        requires
            LINK_PALETTE_BITS_OF_OAM + 1 < self.ram().len(),
        ensures
            result == types::u16_at(self.ram(), LINK_PALETTE_BITS_OF_OAM as int),
    {
        read_le_u16(self.ram, LINK_PALETTE_BITS_OF_OAM)
    }

    pub fn visibility_status(&self) -> (result: u8)
        ensures
            result == access::byte_at(self.ram(), LINK_VISIBILITY_STATUS as int),
    {
        byte(self.ram, LINK_VISIBILITY_STATUS)
    }

    pub fn electrocute_on_touch(&self) -> (result: u8)
        ensures
            result == access::byte_at(self.ram(), LINK_ELECTROCUTE_ON_TOUCH as int),
    {
        byte(self.ram, LINK_ELECTROCUTE_ON_TOUCH)
    }

    pub fn is_cape_active(&self) -> (result: bool)
        ensures
            result == (access::byte_at(self.ram(), LINK_CAPE_MODE as int) != 0),
    {
        byte(self.ram, LINK_CAPE_MODE) != 0
    }

    pub fn sprite_damage_disable_timer(&self) -> (result: u8)
        ensures
            result == access::byte_at(self.ram(), LINK_DISABLE_SPRITE_DAMAGE as int),
    {
        byte(self.ram, LINK_DISABLE_SPRITE_DAMAGE)
    }

    pub fn sprite_oam_state_timer(&self) -> (result: u8)
        ensures
            result == access::byte_at(self.ram(), LINK_SPRITE_OAM_STATE_TIMER as int),
    {
        byte(self.ram, LINK_SPRITE_OAM_STATE_TIMER)
    }

    pub fn action_handler_timer(&self) -> (result: u8)
        ensures
            result == access::byte_at(self.ram(), PLAYER_HANDLER_TIMER as int),
    {
        byte(self.ram, PLAYER_HANDLER_TIMER)
    }

    pub fn doorway_state(&self) -> (result: u8)
        ensures
            result == access::byte_at(self.ram(), IS_STANDING_IN_DOORWAY as int),
    {
        byte(self.ram, IS_STANDING_IN_DOORWAY)
    }

    pub fn blink_countdown(&self) -> (result: u8)
        ensures
            result == access::byte_at(self.ram(), COUNTDOWN_FOR_BLINK as int),
    {
        byte(self.ram, COUNTDOWN_FOR_BLINK)
    }

    pub fn item_receipt_method(&self) -> (result: u8)
        ensures
            result == access::byte_at(self.ram(), ITEM_RECEIPT_METHOD as int),
    {
        byte(self.ram, ITEM_RECEIPT_METHOD)
    }

    pub fn ancilla_pickup_flag(&self) -> (result: u8)
        ensures
            result == access::byte_at(self.ram(), FLAG_IS_ANCILLA_TO_PICK_UP as int),
    {
        byte(self.ram, FLAG_IS_ANCILLA_TO_PICK_UP)
    }

    pub fn sprite_pickup_flag(&self) -> (result: u8)
        ensures
            result == access::byte_at(self.ram(), FLAG_IS_SPRITE_TO_PICK_UP as int),
    {
        byte(self.ram, FLAG_IS_SPRITE_TO_PICK_UP)
    }

    pub fn sprite_pickup_flag_cached(&self) -> (result: u8)
        ensures
            result == access::byte_at(self.ram(), FLAG_IS_SPRITE_TO_PICK_UP_CACHED as int),
    {
        byte(self.ram, FLAG_IS_SPRITE_TO_PICK_UP_CACHED)
    }

    pub fn spin_attack_delay_timer(&self) -> (result: u8)
        ensures
            result == access::byte_at(self.ram(), LINK_DELAY_TIMER_SPIN_ATTACK as int),
    {
        byte(self.ram, LINK_DELAY_TIMER_SPIN_ATTACK)
    }

    pub fn sword_delay_timer(&self) -> (result: u8)
        ensures
            result == access::byte_at(self.ram(), LINK_SWORD_DELAY_TIMER as int),
    {
        byte(self.ram, LINK_SWORD_DELAY_TIMER)
    }

    pub fn spin_attack_step_counter(&self) -> (result: u8)
        ensures
            result == access::byte_at(self.ram(), LINK_SPIN_ATTACK_STEP_COUNTER as int),
    {
        byte(self.ram, LINK_SPIN_ATTACK_STEP_COUNTER)
    }

    pub fn spin_animation_step_counter(&self) -> (result: u8)
        ensures
            result == access::byte_at(self.ram(), STEP_COUNTER_FOR_SPIN_ATTACK as int),
    {
        byte(self.ram, STEP_COUNTER_FOR_SPIN_ATTACK)
    }

    pub fn spin_offsets(&self) -> (result: u8)
        ensures
            result == access::byte_at(self.ram(), LINK_SPIN_OFFSETS as int),
    {
        byte(self.ram, LINK_SPIN_OFFSETS)
    }

    pub fn given_damage(&self) -> (result: u8)
        ensures
            result == access::byte_at(self.ram(), LINK_GIVE_DAMAGE as int),
    {
        byte(self.ram, LINK_GIVE_DAMAGE)
    }

    pub fn needs_transform_poof(&self) -> (result: bool)
        ensures
            result == (access::byte_at(self.ram(), LINK_NEED_FOR_POOF_FOR_TRANSFORM as int) != 0),
    {
        byte(self.ram, LINK_NEED_FOR_POOF_FOR_TRANSFORM) != 0
    }

    pub fn hookshot_grave_latch(&self) -> (result: bool)
        ensures
            result == (access::byte_at(self.ram(), LINK_SOMETHING_WITH_HOOKSHOT as int) != 0),
    {
        byte(self.ram, LINK_SOMETHING_WITH_HOOKSHOT) != 0
    }

    pub fn hookshot_interlock(&self) -> (result: u8)
        ensures
            result == access::byte_at(self.ram(), RELATED_TO_HOOKSHOT as int),
    {
        byte(self.ram, RELATED_TO_HOOKSHOT)
    }

    pub fn has_hookshot_interlock(&self) -> (result: bool)
        ensures
            result == (access::byte_at(self.ram(), RELATED_TO_HOOKSHOT as int) != 0),
    {
        self.hookshot_interlock() != 0
    }

    pub fn hookshot_interlock_has(&self, mask: u8) -> (result: bool)
        ensures
            result == ((access::byte_at(self.ram(), RELATED_TO_HOOKSHOT as int) & mask) != 0),
    {
        self.hookshot_interlock() & mask != 0
    }

    pub fn dash_noise_requested(&self) -> (result: bool)
        ensures
            result == (access::byte_at(self.ram(), LINK_WANT_MAKE_NOISE_WHEN_DASHED as int) != 0),
    {
        byte(self.ram, LINK_WANT_MAKE_NOISE_WHEN_DASHED) != 0
    }

    pub fn has_pull_action_state(&self) -> (result: bool)
        ensures
            result == (access::byte_at(self.ram(), LINK_PULL_ACTION_STATE as int) != 0),
    {
        byte(self.ram, LINK_PULL_ACTION_STATE) != 0
    }

    pub fn pull_action_state(&self) -> (result: u8)
        ensures
            result == access::byte_at(self.ram(), LINK_PULL_ACTION_STATE as int),
    {
        byte(self.ram, LINK_PULL_ACTION_STATE)
    }

    pub fn is_transforming(&self) -> (result: bool)
        ensures
            result == (access::byte_at(self.ram(), LINK_IS_TRANSFORMING as int) != 0),
    {
        byte(self.ram, LINK_IS_TRANSFORMING) != 0
    }

    pub fn item_action_step_var(&self) -> (result: u8)
        ensures
            result == access::byte_at(self.ram(), LINK_ITEM_ACTION_STEP_SCRATCH as int),
    {
        byte(self.ram, LINK_ITEM_ACTION_STEP_SCRATCH)
    }

    pub fn throw_oam_state_index(&self) -> (result: u8)
        ensures
            result == access::byte_at(self.ram(), LINK_THROW_OAM_STATE_INDEX as int),
    {
        byte(self.ram, LINK_THROW_OAM_STATE_INDEX)
    }

    pub fn needs_pull_for_rupees_sprite(&self) -> (result: bool)
        ensures
            result == (access::byte_at(self.ram(), LINK_NEED_FOR_PULLFORRUPEES_SPRITE as int) != 0),
    {
        byte(self.ram, LINK_NEED_FOR_PULLFORRUPEES_SPRITE) != 0
    }

    pub fn is_near_moveable_statue(&self) -> (result: bool)
        ensures
            result == (access::byte_at(self.ram(), LINK_IS_NEAR_MOVEABLE_STATUE as int) != 0),
    {
        byte(self.ram, LINK_IS_NEAR_MOVEABLE_STATUE) != 0
    }

    pub fn is_prevented_from_moving(&self) -> (result: bool)
        ensures
            result == (access::byte_at(self.ram(), LINK_PREVENT_FROM_MOVING as int) != 0),
    {
        byte(self.ram, LINK_PREVENT_FROM_MOVING) != 0
    }

    pub fn button_b_frames(&self) -> (result: u8)
        ensures
            result == access::byte_at(self.ram(), BUTTON_B_FRAMES as int),
    {
        byte(self.ram, BUTTON_B_FRAMES)
    }

    pub fn button_b_frames_word(&self) -> (result: u16)
        ensures
            result == access::word_at(self.ram(), BUTTON_B_FRAMES as int),
    {
        word(self.ram, BUTTON_B_FRAMES)
    }

    pub fn button_mask_b_y(&self) -> (result: u8)
        ensures
            result == access::byte_at(self.ram(), BUTTON_MASK_B_Y as int),
    {
        byte(self.ram, BUTTON_MASK_B_Y)
    }

    pub fn y_button_action_flags(&self) -> (result: u8)
        ensures
            result == access::byte_at(self.ram(), Y_BUTTON_ACTION_FLAGS as int),
    {
        byte(self.ram, Y_BUTTON_ACTION_FLAGS)
    }

    pub fn y_button_action_step(&self) -> (result: u8)
        ensures
            result == access::byte_at(self.ram(), Y_BUTTON_ACTION_STEP as int),
    {
        byte(self.ram, Y_BUTTON_ACTION_STEP)
    }

    pub fn y_button_action_timer(&self) -> (result: u8)
        ensures
            result == access::byte_at(self.ram(), Y_BUTTON_ACTION_TIMER as int),
    {
        byte(self.ram, Y_BUTTON_ACTION_TIMER)
    }

    pub fn filtered_joypad_h(&self) -> (result: u8)
        ensures
            result == access::byte_at(self.ram(), FILTERED_JOYPAD_H as int),
    {
        byte(self.ram, FILTERED_JOYPAD_H)
    }

    pub fn filtered_joypad_l(&self) -> (result: u8)
        ensures
            result == access::byte_at(self.ram(), FILTERED_JOYPAD_L as int),
    {
        byte(self.ram, FILTERED_JOYPAD_L)
    }

    pub fn joypad1h_last(&self) -> (result: u8)
        ensures
            result == access::byte_at(self.ram(), JOYPAD1H_LAST as int),
    {
        byte(self.ram, JOYPAD1H_LAST)
    }

    pub fn joypad1l_last(&self) -> (result: u8)
        ensures
            result == access::byte_at(self.ram(), JOYPAD1L_LAST as int),
    {
        byte(self.ram, JOYPAD1L_LAST)
    }

    pub fn joypad1h_last2(&self) -> (result: u8)
        ensures
            result == access::byte_at(self.ram(), JOYPAD1H_LAST2 as int),
    {
        byte(self.ram, JOYPAD1H_LAST2)
    }

    pub fn joypad1l_last2(&self) -> (result: u8)
        ensures
            result == access::byte_at(self.ram(), JOYPAD1L_LAST2 as int),
    {
        byte(self.ram, JOYPAD1L_LAST2)
    }

    pub fn button_b_frames_index(&self) -> (result: usize)
        ensures
            result == (access::byte_at(self.ram(), BUTTON_B_FRAMES as int) as usize),
    {
        self.button_b_frames() as usize
    }

    pub fn opening_pose(&self) -> (result: u8)
        ensures
            result == access::byte_at(self.ram(), LINK_POSE_DURING_OPENING as int),
    {
        byte(self.ram, LINK_POSE_DURING_OPENING)
    }

    pub fn defense_flags(&self) -> (result: u8)
        ensures
            result == access::byte_at(self.ram(), PLAYER_DEFENSE_FLAGS as int),
    {
        byte(self.ram, PLAYER_DEFENSE_FLAGS)
    }

    pub fn on_somaria_platform(&self) -> (result: u8)
        ensures
            result == access::byte_at(self.ram(), PLAYER_ON_SOMARIA_PLATFORM as int),
    {
        byte(self.ram, PLAYER_ON_SOMARIA_PLATFORM)
    }

    pub fn has_somaria_platform_state(&self) -> (result: bool)
        ensures
            result == (access::byte_at(self.ram(), PLAYER_ON_SOMARIA_PLATFORM as int) != 0),
    {
        self.on_somaria_platform() != 0
    }

    pub fn near_pit_state(&self) -> (result: u8)
        ensures
            result == access::byte_at(self.ram(), PLAYER_NEAR_PIT_STATE as int),
    {
        byte(self.ram, PLAYER_NEAR_PIT_STATE)
    }

    pub fn is_near_pit(&self) -> (result: bool)
        ensures
            result == (access::byte_at(self.ram(), PLAYER_NEAR_PIT_STATE as int) != 0),
    {
        self.near_pit_state() != 0
    }

    pub fn near_pit_state_is(&self, value: u8) -> (result: bool)
        ensures
            result == (access::byte_at(self.ram(), PLAYER_NEAR_PIT_STATE as int) == value),
    {
        self.near_pit_state() == value
    }

    pub fn near_pit_state_at_least(&self, value: u8) -> (result: bool)
        ensures
            result == (access::byte_at(self.ram(), PLAYER_NEAR_PIT_STATE as int) >= value),
    {
        self.near_pit_state() >= value
    }

    pub fn pit_data_index(&self) -> (result: u8)
        ensures
            result == access::byte_at(self.ram(), PLAYER_PIT_DATA_INDEX as int),
    {
        byte(self.ram, PLAYER_PIT_DATA_INDEX)
    }

    pub fn conveyor_belt_state(&self) -> (result: u8)
        ensures
            result == access::byte_at(self.ram(), LINK_ON_CONVEYOR_BELT as int),
    {
        byte(self.ram, LINK_ON_CONVEYOR_BELT)
    }

    pub fn tile_below(&self) -> (result: u8)
        ensures
            result == access::byte_at(self.ram(), LINK_TILE_BELOW as int),
    {
        byte(self.ram, LINK_TILE_BELOW)
    }

    pub fn is_on_lower_level(&self) -> (result: bool)
        ensures
            result == (access::byte_at(self.ram(), LINK_IS_ON_LOWER_LEVEL as int) != 0),
    {
        byte(self.ram, LINK_IS_ON_LOWER_LEVEL) != 0
    }

    pub fn lower_level_tilemap_offset(&self) -> (result: u16)
        ensures
            result == (if access::byte_at(self.ram(), LINK_IS_ON_LOWER_LEVEL as int) != 0u16 {
                0x1000u16
            } else {
                0u16
            }),
    {
        if self.is_on_lower_level() {
            0x1000
        } else {
            0
        }
    }

    pub fn has_lower_level_state_or_mirror(&self) -> (result: bool)
        ensures
            result == ((access::byte_at(self.ram(), LINK_IS_ON_LOWER_LEVEL as int) | access::byte_at(self.ram(), LINK_IS_ON_LOWER_LEVEL_MIRROR as int)) != 0),
    {
        byte(self.ram, LINK_IS_ON_LOWER_LEVEL) | byte(self.ram, LINK_IS_ON_LOWER_LEVEL_MIRROR) != 0
    }

    pub fn lower_level_state(&self) -> (result: u8)
        ensures
            result == access::byte_at(self.ram(), LINK_IS_ON_LOWER_LEVEL as int),
    {
        byte(self.ram, LINK_IS_ON_LOWER_LEVEL)
    }

    pub fn lower_level_mirror_state(&self) -> (result: u8)
        ensures
            result == access::byte_at(self.ram(), LINK_IS_ON_LOWER_LEVEL_MIRROR as int),
    {
        byte(self.ram, LINK_IS_ON_LOWER_LEVEL_MIRROR)
    }

    pub fn cached_lower_level_state(&self) -> (result: u8)
        ensures
            result == access::byte_at(self.ram(), LINK_IS_ON_LOWER_LEVEL_CACHED as int),
    {
        byte(self.ram, LINK_IS_ON_LOWER_LEVEL_CACHED)
    }

    pub fn cached_lower_level_mirror_state(&self) -> (result: u8)
        ensures
            result == access::byte_at(self.ram(), LINK_IS_ON_LOWER_LEVEL_MIRROR_CACHED as int),
    {
        byte(self.ram, LINK_IS_ON_LOWER_LEVEL_MIRROR_CACHED)
    }

    pub fn water_ripple_or_grass_state(&self) -> (result: u8)
        ensures
            result == access::byte_at(self.ram(), DRAW_WATER_RIPPLES_OR_GRASS as int),
    {
        byte(self.ram, DRAW_WATER_RIPPLES_OR_GRASS)
    }

    pub fn animation_step(&self) -> (result: u8)
        ensures
            result == access::byte_at(self.ram(), LINK_ANIMATION_STEPS as int),
    {
        byte(self.ram, LINK_ANIMATION_STEPS)
    }

    pub fn animation_step_index(&self) -> (result: usize)
        ensures
            result == (access::byte_at(self.ram(), LINK_ANIMATION_STEPS as int) as usize),
    {
        self.animation_step() as usize
    }

    pub fn has_flippers(&self) -> (result: bool)
        ensures
            result == (access::byte_at(self.ram(), LINK_ITEM_FLIPPERS as int) != 0),
    {
        byte(self.ram, LINK_ITEM_FLIPPERS) != 0
    }

    pub fn flippers(&self) -> (result: u8)
        ensures
            result == access::byte_at(self.ram(), LINK_ITEM_FLIPPERS as int),
    {
        byte(self.ram, LINK_ITEM_FLIPPERS)
    }

    pub fn moon_pearl(&self) -> (result: u8)
        ensures
            result == access::byte_at(self.ram(), LINK_ITEM_MOON_PEARL as int),
    {
        byte(self.ram, LINK_ITEM_MOON_PEARL)
    }

    pub fn has_moon_pearl(&self) -> (result: bool)
        ensures
            result == (access::byte_at(self.ram(), LINK_ITEM_MOON_PEARL as int) != 0),
    {
        byte(self.ram, LINK_ITEM_MOON_PEARL) != 0
    }

    pub fn is_bunny(&self) -> (result: bool)
        ensures
            result == (access::byte_at(self.ram(), LINK_IS_BUNNY as int) != 0),
    {
        byte(self.ram, LINK_IS_BUNNY) != 0
    }

    pub fn is_bunny_mirror(&self) -> (result: bool)
        ensures
            result == (access::byte_at(self.ram(), LINK_IS_BUNNY_MIRROR as int) != 0),
    {
        byte(self.ram, LINK_IS_BUNNY_MIRROR) != 0
    }

    pub fn is_darkworld_save(&self) -> (result: bool)
        ensures
            result == (access::byte_at(self.ram(), SAVEGAME_IS_DARKWORLD as int) != 0),
    {
        byte(self.ram, SAVEGAME_IS_DARKWORLD) != 0
    }

    pub fn current_health(&self) -> (result: u8)
        ensures
            result == access::byte_at(self.ram(), LINK_CURRENT_HEALTH as int),
    {
        byte(self.ram, LINK_CURRENT_HEALTH)
    }

    pub fn magic_power(&self) -> (result: u8)
        ensures
            result == access::byte_at(self.ram(), LINK_MAGIC_POWER as int),
    {
        byte(self.ram, LINK_MAGIC_POWER)
    }

    pub fn magic_consumption_level(&self) -> (result: u8)
        ensures
            result == access::byte_at(self.ram(), LINK_MAGIC_CONSUMPTION as int),
    {
        byte(self.ram, LINK_MAGIC_CONSUMPTION)
    }

    pub fn item_in_hand(&self) -> (result: u8)
        ensures
            result == access::byte_at(self.ram(), LINK_ITEM_IN_HAND as int),
    {
        byte(self.ram, LINK_ITEM_IN_HAND)
    }

    pub fn receive_item_index(&self) -> (result: u8)
        ensures
            result == access::byte_at(self.ram(), LINK_RECEIVE_ITEM_INDEX as int),
    {
        byte(self.ram, LINK_RECEIVE_ITEM_INDEX)
    }

    pub fn item_hold_pose(&self) -> (result: u8)
        ensures
            result == access::byte_at(self.ram(), LINK_POSE_FOR_ITEM as int),
    {
        byte(self.ram, LINK_POSE_FOR_ITEM)
    }

    pub fn swim_fast_state(&self) -> (result: u8)
        ensures
            result == access::byte_at(self.ram(), LINK_MAYBE_SWIM_FASTER as int),
    {
        byte(self.ram, LINK_MAYBE_SWIM_FASTER)
    }

    pub fn faint_animation_active(&self) -> (result: u8)
        ensures
            result == access::byte_at(self.ram(), LINK_FAINT_ANIMATION_ACTIVE as int),
    {
        byte(self.ram, LINK_FAINT_ANIMATION_ACTIVE)
    }

    pub fn force_hold_sword_up_state(&self) -> (result: u8)
        ensures
            result == access::byte_at(self.ram(), LINK_FORCE_HOLD_SWORD_UP as int),
    {
        byte(self.ram, LINK_FORCE_HOLD_SWORD_UP)
    }

    pub fn link_dma_staging_index(&self) -> (result: u8)
        ensures
            result == access::byte_at(self.ram(), LINK_DMA_STAGING_INDEX as int),
    {
        byte(self.ram, LINK_DMA_STAGING_INDEX)
    }

    pub fn link_dma_graphics_index_word(&self) -> (result: u16)
        requires
            LINK_DMA_GRAPHICS_INDEX + 1 < self.ram().len(),
        ensures
            result == types::u16_at(self.ram(), LINK_DMA_GRAPHICS_INDEX as int),
    {
        read_le_u16(self.ram, LINK_DMA_GRAPHICS_INDEX)
    }

    pub fn link_dma_left_sprite_bank_word(&self) -> (result: u16)
        requires
            LINK_DMA_LEFT_SPRITE_BANK_INDEX + 1 < self.ram().len(),
        ensures
            result == types::u16_at(self.ram(), LINK_DMA_LEFT_SPRITE_BANK_INDEX as int),
    {
        read_le_u16(self.ram, LINK_DMA_LEFT_SPRITE_BANK_INDEX)
    }

    pub fn link_dma_right_sprite_bank_word(&self) -> (result: u16)
        requires
            LINK_DMA_RIGHT_SPRITE_BANK_INDEX + 1 < self.ram().len(),
        ensures
            result == types::u16_at(self.ram(), LINK_DMA_RIGHT_SPRITE_BANK_INDEX as int),
    {
        read_le_u16(self.ram, LINK_DMA_RIGHT_SPRITE_BANK_INDEX)
    }

    pub fn link_dma_source_offset(&self) -> (result: u16)
        requires
            LINK_DMA_SOURCE_OFFSET + 1 < self.ram().len(),
        ensures
            result == types::u16_at(self.ram(), LINK_DMA_SOURCE_OFFSET as int),
    {
        read_le_u16(self.ram, LINK_DMA_SOURCE_OFFSET)
    }

    pub fn link_dma_tile_offset(&self) -> (result: u16)
        requires
            LINK_DMA_TILE_OFFSET + 1 < self.ram().len(),
        ensures
            result == types::u16_at(self.ram(), LINK_DMA_TILE_OFFSET as int),
    {
        read_le_u16(self.ram, LINK_DMA_TILE_OFFSET)
    }

    pub fn sword_dma_graphics_index(&self) -> (result: u8)
        ensures
            result == access::byte_at(self.ram(), LINK_DMA_SWORD_GRAPHICS_INDEX as int),
    {
        byte(self.ram, LINK_DMA_SWORD_GRAPHICS_INDEX)
    }

    pub fn shield_dma_graphics_index(&self) -> (result: u8)
        ensures
            result == access::byte_at(self.ram(), LINK_DMA_SHIELD_GRAPHICS_INDEX as int),
    {
        byte(self.ram, LINK_DMA_SHIELD_GRAPHICS_INDEX)
    }

    pub fn link_dma_staging_group(&self) -> (result: u8)
        ensures
            result == (access::byte_at(self.ram(), LINK_DMA_STAGING_INDEX as int) >> 3),
    {
        self.link_dma_staging_index() >> 3
    }

    pub fn has_item_in_hand(&self) -> (result: bool)
        ensures
            result == (access::byte_at(self.ram(), LINK_ITEM_IN_HAND as int) != 0),
    {
        byte(self.ram, LINK_ITEM_IN_HAND) != 0
    }

    pub fn has_item_or_position_mode(&self) -> (result: bool)
        ensures
            result == ((access::byte_at(self.ram(), LINK_ITEM_IN_HAND as int) | access::byte_at(self.ram(), LINK_POSITION_MODE as int)) != 0),
    {
        byte(self.ram, LINK_ITEM_IN_HAND) | byte(self.ram, LINK_POSITION_MODE) != 0
    }

    pub fn has_position_mode(&self) -> (result: bool)
        ensures
            result == (access::byte_at(self.ram(), LINK_POSITION_MODE as int) != 0),
    {
        byte(self.ram, LINK_POSITION_MODE) != 0
    }

    pub fn position_mode(&self) -> (result: u8)
        ensures
            result == access::byte_at(self.ram(), LINK_POSITION_MODE as int),
    {
        byte(self.ram, LINK_POSITION_MODE)
    }

    pub fn position_mode_has(&self, mask: u8) -> (result: bool)
        ensures
            result == ((access::byte_at(self.ram(), LINK_POSITION_MODE as int) & mask) != 0),
    {
        byte(self.ram, LINK_POSITION_MODE) & mask != 0
    }

    pub fn item_in_hand_has(&self, mask: u8) -> (result: bool)
        ensures
            result == ((access::byte_at(self.ram(), LINK_ITEM_IN_HAND as int) & mask) != 0),
    {
        byte(self.ram, LINK_ITEM_IN_HAND) & mask != 0
    }

    pub fn state_bits(&self) -> (result: u8)
        ensures
            result == access::byte_at(self.ram(), LINK_STATE_BITS as int),
    {
        byte(self.ram, LINK_STATE_BITS)
    }

    pub fn state_bits_has(&self, mask: u8) -> (result: bool)
        ensures
            result == ((access::byte_at(self.ram(), LINK_STATE_BITS as int) & mask) != 0),
    {
        byte(self.ram, LINK_STATE_BITS) & mask != 0
    }

    pub fn has_action_state(&self) -> (result: bool)
        ensures
            result == (access::byte_at(self.ram(), LINK_STATE_BITS as int) != 0),
    {
        byte(self.ram, LINK_STATE_BITS) != 0
    }

    pub fn has_non_lift_action_state(&self) -> (result: bool)
        ensures
            result == ((access::byte_at(self.ram(), LINK_STATE_BITS as int) & 0x7fu8) != 0),
    {
        byte(self.ram, LINK_STATE_BITS) & 0x7f != 0
    }

    pub fn is_lift_throw_primed(&self) -> (result: bool)
        ensures
            result == ((access::byte_at(self.ram(), LINK_PICKING_THROW_STATE as int) & 1u8) != 0),
    {
        byte(self.ram, LINK_PICKING_THROW_STATE) & 1 != 0
    }

    pub fn picking_throw_state(&self) -> (result: u8)
        ensures
            result == access::byte_at(self.ram(), LINK_PICKING_THROW_STATE as int),
    {
        byte(self.ram, LINK_PICKING_THROW_STATE)
    }

    pub fn picking_throw_state_has(&self, mask: u8) -> (result: bool)
        ensures
            result == ((access::byte_at(self.ram(), LINK_PICKING_THROW_STATE as int) & mask) != 0),
    {
        byte(self.ram, LINK_PICKING_THROW_STATE) & mask != 0
    }

    pub fn has_picking_throw_state(&self) -> (result: bool)
        ensures
            result == (access::byte_at(self.ram(), LINK_PICKING_THROW_STATE as int) != 0),
    {
        byte(self.ram, LINK_PICKING_THROW_STATE) != 0
    }

    pub fn is_lifting_or_carrying(&self) -> (result: bool)
        ensures
            result == ((access::byte_at(self.ram(), LINK_STATE_BITS as int) & 0x80u8) != 0),
    {
        byte(self.ram, LINK_STATE_BITS) & 0x80 != 0
    }

    pub fn is_ready_to_start_ground_movement(&self) -> (result: bool)
        ensures
            result == (((access::byte_at(self.ram(), LINK_GRABBING_WALL as int) & (!2u8)) == 0)
                 && ((access::byte_at(self.ram(), LINK_STATE_BITS as int) & 0x7fu8) == 0)
                 && (((access::byte_at(self.ram(), LINK_STATE_BITS as int) & 0x80u8) == 0)
                      || ((access::byte_at(self.ram(), LINK_PICKING_THROW_STATE as int) & 1u8)
                           == 0))
                 && ((access::byte_at(self.ram(), LINK_ITEM_IN_HAND as int)
                       | access::byte_at(self.ram(), LINK_POSITION_MODE as int))
                      == 0)),
    {
        (byte(self.ram, LINK_GRABBING_WALL) & !2) == 0 && !self.has_non_lift_action_state() && (!self.is_lifting_or_carrying() || byte(self.ram, LINK_PICKING_THROW_STATE) & 1 == 0) && !self.has_item_or_position_mode()
    }

    pub fn has_grabbing_wall_state(&self) -> (result: bool)
        ensures
            result == (access::byte_at(self.ram(), LINK_GRABBING_WALL as int) != 0),
    {
        byte(self.ram, LINK_GRABBING_WALL) != 0
    }

    pub fn grabbing_wall(&self) -> (result: u8)
        ensures
            result == access::byte_at(self.ram(), LINK_GRABBING_WALL as int),
    {
        byte(self.ram, LINK_GRABBING_WALL)
    }

    pub fn grabbing_wall_has(&self, mask: u8) -> (result: bool)
        ensures
            result == ((access::byte_at(self.ram(), LINK_GRABBING_WALL as int) & mask) != 0),
    {
        byte(self.ram, LINK_GRABBING_WALL) & mask != 0
    }

    pub fn current_item_y(&self) -> (result: u8)
        ensures
            result == access::byte_at(self.ram(), LINK_CURRENT_ITEM_Y as int),
    {
        byte(self.ram, LINK_CURRENT_ITEM_Y)
    }

    pub fn selected_rod(&self) -> (result: u8)
        ensures
            result == access::byte_at(self.ram(), EQ_SELECTED_ROD as int),
    {
        byte(self.ram, EQ_SELECTED_ROD)
    }

    pub fn swim_stroke_anim_step(&self) -> (result: u8)
        ensures
            result == access::byte_at(self.ram(), SWIM_STROKE_ANIM_STEP as int),
    {
        byte(self.ram, SWIM_STROKE_ANIM_STEP)
    }

    pub fn state_for_spin_attack(&self) -> (result: u8)
        ensures
            result == access::byte_at(self.ram(), STATE_FOR_SPIN_ATTACK as int),
    {
        byte(self.ram, STATE_FOR_SPIN_ATTACK)
    }

    pub fn bit9_of_xcoord(&self) -> (result: u8)
        ensures
            result == access::byte_at(self.ram(), BIT9_OF_XCOORD as int),
    {
        byte(self.ram, BIT9_OF_XCOORD)
    }

    pub fn primary_water_grass_timer(&self) -> (result: u8)
        ensures
            result == access::byte_at(self.ram(), PRIMARY_WATER_GRASS_TIMER as int),
    {
        byte(self.ram, PRIMARY_WATER_GRASS_TIMER)
    }

    pub fn secondary_water_grass_timer(&self) -> (result: u8)
        ensures
            result == access::byte_at(self.ram(), SECONDARY_WATER_GRASS_TIMER as int),
    {
        byte(self.ram, SECONDARY_WATER_GRASS_TIMER)
    }

    pub fn item_debug_value_1(&self) -> (result: u8)
        ensures
            result == access::byte_at(self.ram(), LINK_DEBUG_VALUE_1 as int),
    {
        byte(self.ram, LINK_DEBUG_VALUE_1)
    }

    pub fn current_item_active(&self) -> (result: u8)
        ensures
            result == access::byte_at(self.ram(), LINK_CURRENT_ITEM_ACTIVE as int),
    {
        byte(self.ram, LINK_CURRENT_ITEM_ACTIVE)
    }

    pub fn equipped_item(&self) -> (result: u8)
        ensures
            result == access::byte_at(self.ram(), LINK_EQUIPPED_ITEM as int),
    {
        byte(self.ram, LINK_EQUIPPED_ITEM)
    }

    pub fn force_move_any_direction_lo(&self) -> (result: u16)
        ensures
            result == (access::word_at(self.ram(), FORCE_MOVE_ANY_DIRECTION as int) & 0x00ffu16),
    {
        word(self.ram, FORCE_MOVE_ANY_DIRECTION) & 0x00ff
    }

    pub fn cheat_walk_through_walls(&self) -> (result: u8)
        ensures
            result == access::byte_at(self.ram(), CHEAT_WALK_THROUGH_WALLS as int),
    {
        byte(self.ram, CHEAT_WALK_THROUGH_WALLS)
    }

    pub fn drag_player_x(&self) -> (result: u16)
        ensures
            result == access::word_at(self.ram(), DRAG_PLAYER_X as int),
    {
        word(self.ram, DRAG_PLAYER_X)
    }

    pub fn drag_player_y(&self) -> (result: u16)
        ensures
            result == access::word_at(self.ram(), DRAG_PLAYER_Y as int),
    {
        word(self.ram, DRAG_PLAYER_Y)
    }

    pub fn pushed_block_mode(&self) -> (result: u8)
        ensures
            result == access::byte_at(self.ram(), PUSHED_BLOCK_MODE as int),
    {
        byte(self.ram, PUSHED_BLOCK_MODE)
    }

    pub fn dma_head_pointer(&self) -> (result: u8)
        ensures
            result == access::byte_at(self.ram(), DMA_HEAD_POINTER as int),
    {
        byte(self.ram, DMA_HEAD_POINTER)
    }

    pub fn dma_body_pointer(&self) -> (result: u8)
        ensures
            result == access::byte_at(self.ram(), DMA_BODY_POINTER as int),
    {
        byte(self.ram, DMA_BODY_POINTER)
    }
}

pub struct PlayerStateViewMut<'a> {
    pub ram: &'a mut [u8],
}

impl<'a> PlayerStateViewMut<'a> {
    /// The bytes of RAM this view reads and writes.
    pub open spec fn ram(&self) -> Seq<u8> {
        self.ram@
    }

    pub fn new(ram: &'a mut [u8]) -> (view: Self)
        ensures
            view.ram() == old(ram)@,
            final(view.ram)@ == final(ram)@,
    {
        Self { ram }
    }

    pub fn set_x(&mut self, value: u16)
        requires
            LINK_X_COORD + 1 < old(self).ram().len(),
        ensures
            final(self).ram() == types::with_u16(old(self).ram(), LINK_X_COORD as int, value),
            final(final(self).ram)@ == final(old(self).ram)@,
    {
        write_le_u16(self.ram, LINK_X_COORD, value);
    }

    pub fn set_x_low(&mut self, value: u8)
        requires
            LINK_X_COORD < old(self).ram().len(),
        ensures
            final(self).ram() == old(self).ram().update(LINK_X_COORD as int, value),
            final(final(self).ram)@ == final(old(self).ram)@,
    {
        self.ram[LINK_X_COORD] = value;
    }

    pub fn set_y(&mut self, value: u16)
        requires
            LINK_Y_COORD + 1 < old(self).ram().len(),
        ensures
            final(self).ram() == types::with_u16(old(self).ram(), LINK_Y_COORD as int, value),
            final(final(self).ram)@ == final(old(self).ram)@,
    {
        write_le_u16(self.ram, LINK_Y_COORD, value);
    }

    pub fn set_y_low(&mut self, value: u8)
        requires
            LINK_Y_COORD < old(self).ram().len(),
        ensures
            final(self).ram() == old(self).ram().update(LINK_Y_COORD as int, value),
            final(final(self).ram)@ == final(old(self).ram)@,
    {
        self.ram[LINK_Y_COORD] = value;
    }

    pub fn set_oam_x_offset(&mut self, value: u8)
        requires
            PLAYER_OAM_X_OFFSET < old(self).ram().len(),
        ensures
            final(self).ram() == old(self).ram().update(PLAYER_OAM_X_OFFSET as int, value),
            final(final(self).ram)@ == final(old(self).ram)@,
    {
        self.ram[PLAYER_OAM_X_OFFSET] = value;
    }

    pub fn set_oam_y_offset(&mut self, value: u8)
        requires
            PLAYER_OAM_Y_OFFSET < old(self).ram().len(),
        ensures
            final(self).ram() == old(self).ram().update(PLAYER_OAM_Y_OFFSET as int, value),
            final(final(self).ram)@ == final(old(self).ram)@,
    {
        self.ram[PLAYER_OAM_Y_OFFSET] = value;
    }

    pub fn set_oam_offsets(&mut self, x: u8, y: u8)
        requires
            PLAYER_OAM_X_OFFSET < old(self).ram().len(),
            PLAYER_OAM_Y_OFFSET < old(self).ram().len(),
        ensures
            final(self).ram() == old(self).ram()
                .update(PLAYER_OAM_X_OFFSET as int, x)
                .update(PLAYER_OAM_Y_OFFSET as int, y),
            final(final(self).ram)@ == final(old(self).ram)@,
    {
        self.set_oam_x_offset(x);
        self.set_oam_y_offset(y);
    }

    pub fn disable_oam_offsets(&mut self)
        requires
            PLAYER_OAM_X_OFFSET < old(self).ram().len(),
            PLAYER_OAM_Y_OFFSET < old(self).ram().len(),
        ensures
            final(self).ram() == old(self).ram()
                .update(PLAYER_OAM_X_OFFSET as int, 0x80)
                .update(PLAYER_OAM_Y_OFFSET as int, 0x80),
            final(final(self).ram)@ == final(old(self).ram)@,
    {
        self.set_oam_offsets(0x80, 0x80);
    }

    pub fn set_z(&mut self, value: u16)
        requires
            LINK_Z_COORD + 1 < old(self).ram().len(),
        ensures
            final(self).ram() == types::with_u16(old(self).ram(), LINK_Z_COORD as int, value),
            final(final(self).ram)@ == final(old(self).ram)@,
    {
        write_le_u16(self.ram, LINK_Z_COORD, value);
    }

    pub fn set_z_low(&mut self, value: u8)
        requires
            LINK_Z_COORD < old(self).ram().len(),
        ensures
            final(self).ram() == old(self).ram().update(LINK_Z_COORD as int, value),
            final(final(self).ram)@ == final(old(self).ram)@,
    {
        self.ram[LINK_Z_COORD] = value;
    }

    pub fn restore_z_low_from_mirror(&mut self)
        requires
            LINK_Z_COORD < old(self).ram().len(),
            LINK_Z_COORD_MIRROR < old(self).ram().len(),
        ensures
            final(self).ram() == old(self).ram().update(
                LINK_Z_COORD as int,
                old(self).ram()[LINK_Z_COORD_MIRROR as int],
            ),
            final(final(self).ram)@ == final(old(self).ram)@,
    {
        self.ram[LINK_Z_COORD] = self.ram[LINK_Z_COORD_MIRROR];
    }

    pub fn restore_z_from_mirror(&mut self)
        requires
            LINK_Z_COORD + 1 < old(self).ram().len(),
            LINK_Z_COORD_MIRROR + 1 < old(self).ram().len(),
        ensures
            final(self).ram() == types::with_u16(
                old(self).ram(),
                LINK_Z_COORD as int,
                types::u16_at(old(self).ram(), LINK_Z_COORD_MIRROR as int),
            ),
            final(final(self).ram)@ == final(old(self).ram)@,
    {
        copy_word(self.ram, LINK_Z_COORD, LINK_Z_COORD_MIRROR);
    }

    pub fn cache_z_low_to_mirror(&mut self)
        requires
            LINK_Z_COORD_MIRROR < old(self).ram().len(),
            LINK_Z_COORD < old(self).ram().len(),
        ensures
            final(self).ram() == old(self).ram().update(
                LINK_Z_COORD_MIRROR as int,
                old(self).ram()[LINK_Z_COORD as int],
            ),
            final(final(self).ram)@ == final(old(self).ram)@,
    {
        self.ram[LINK_Z_COORD_MIRROR] = self.ram[LINK_Z_COORD];
    }

    pub fn cache_z_to_mirror(&mut self)
        requires
            LINK_Z_COORD_MIRROR + 1 < old(self).ram().len(),
            LINK_Z_COORD + 1 < old(self).ram().len(),
        ensures
            final(self).ram() == types::with_u16(
                old(self).ram(),
                LINK_Z_COORD_MIRROR as int,
                types::u16_at(old(self).ram(), LINK_Z_COORD as int),
            ),
            final(final(self).ram)@ == final(old(self).ram)@,
    {
        copy_word(self.ram, LINK_Z_COORD_MIRROR, LINK_Z_COORD);
    }

    pub fn set_z_mirror(&mut self, value: u16)
        requires
            LINK_Z_COORD_MIRROR + 1 < old(self).ram().len(),
        ensures
            final(self).ram() == types::with_u16(old(self).ram(), LINK_Z_COORD_MIRROR as int, value),
            final(final(self).ram)@ == final(old(self).ram)@,
    {
        write_le_u16(self.ram, LINK_Z_COORD_MIRROR, value);
    }

    pub fn clear_z_mirror_low(&mut self)
        requires
            LINK_Z_COORD_MIRROR < old(self).ram().len(),
        ensures
            final(self).ram() == old(self).ram().update(LINK_Z_COORD_MIRROR as int, 0u8),
            final(final(self).ram)@ == final(old(self).ram)@,
    {
        self.ram[LINK_Z_COORD_MIRROR] = 0;
    }

    pub fn clear_z_mirror_word_low(&mut self)
        requires
            LINK_Z_COORD_MIRROR + 1 < old(self).ram().len(),
        ensures
            final(self).ram() == types::with_u16(
                old(self).ram(),
                LINK_Z_COORD_MIRROR as int,
                access::word_at(
                    old(self).ram(),
                    LINK_Z_COORD_MIRROR as int,
                ) & (!0x00ffu16),
            ),
            final(final(self).ram)@ == final(old(self).ram)@,
    {
        let value = word(self.ram, LINK_Z_COORD_MIRROR) & !0x00ff;
        write_le_u16(self.ram, LINK_Z_COORD_MIRROR, value);
    }

    pub fn set_z_and_mirror(&mut self, value: u16)
        requires
            LINK_Z_COORD + 1 < old(self).ram().len(),
            LINK_Z_COORD_MIRROR + 1 < old(self).ram().len(),
        ensures
            final(self).ram() == types::with_u16(
                types::with_u16(old(self).ram(), LINK_Z_COORD as int, value),
                LINK_Z_COORD_MIRROR as int,
                value,
            ),
            final(final(self).ram)@ == final(old(self).ram)@,
    {
        self.set_z(value);
        self.set_z_mirror(value);
    }

    pub fn set_position(&mut self, x: u16, y: u16)
        requires
            LINK_X_COORD + 1 < old(self).ram().len(),
            LINK_Y_COORD + 1 < old(self).ram().len(),
        ensures
            final(self).ram() == types::with_u16(
                types::with_u16(old(self).ram(), LINK_X_COORD as int, x),
                LINK_Y_COORD as int,
                y,
            ),
            final(final(self).ram)@ == final(old(self).ram)@,
    {
        self.set_x(x);
        self.set_y(y);
    }

    pub fn clear_z_high(&mut self)
        requires
            LINK_Z_COORD + 1 < old(self).ram().len(),
        ensures
            final(self).ram() == old(self).ram().update(LINK_Z_COORD + 1, 0u8),
            final(final(self).ram)@ == final(old(self).ram)@,
    {
        self.ram[LINK_Z_COORD + 1] = 0;
    }

    pub fn restore_position_from_cached(&mut self)
        requires
            LINK_X_COORD + 1 < old(self).ram().len(),
            LINK_X_COORD_CACHED + 1 < old(self).ram().len(),
            LINK_Y_COORD + 1 < old(self).ram().len(),
            LINK_Y_COORD_CACHED + 1 < old(self).ram().len(),
        ensures
            ({
                let ram1 = types::with_u16(
                    old(self).ram(),
                    LINK_X_COORD as int,
                    types::u16_at(old(self).ram(), LINK_X_COORD_CACHED as int),
                );
                final(self).ram() == types::with_u16(
                    ram1,
                    LINK_Y_COORD as int,
                    types::u16_at(ram1, LINK_Y_COORD_CACHED as int),
                )
            }),
            final(final(self).ram)@ == final(old(self).ram)@,
    {
        copy_word(self.ram, LINK_X_COORD, LINK_X_COORD_CACHED);
        copy_word(self.ram, LINK_Y_COORD, LINK_Y_COORD_CACHED);
    }

    pub fn cache_current_position(&mut self)
        requires
            LINK_Y_COORD_CACHED + 1 < old(self).ram().len(),
            LINK_Y_COORD + 1 < old(self).ram().len(),
            LINK_X_COORD_CACHED + 1 < old(self).ram().len(),
            LINK_X_COORD + 1 < old(self).ram().len(),
        ensures
            ({
                let ram1 = types::with_u16(
                    old(self).ram(),
                    LINK_Y_COORD_CACHED as int,
                    types::u16_at(old(self).ram(), LINK_Y_COORD as int),
                );
                final(self).ram() == types::with_u16(
                    ram1,
                    LINK_X_COORD_CACHED as int,
                    types::u16_at(ram1, LINK_X_COORD as int),
                )
            }),
            final(final(self).ram)@ == final(old(self).ram)@,
    {
        copy_word(self.ram, LINK_Y_COORD_CACHED, LINK_Y_COORD);
        copy_word(self.ram, LINK_X_COORD_CACHED, LINK_X_COORD);
    }

    pub fn cache_copied_position_from_current(&mut self)
        requires
            LINK_Y_COORD_COPY + 1 < old(self).ram().len(),
            LINK_Y_COORD + 1 < old(self).ram().len(),
            LINK_X_COORD_COPY + 1 < old(self).ram().len(),
            LINK_X_COORD + 1 < old(self).ram().len(),
        ensures
            ({
                let ram1 = types::with_u16(
                    old(self).ram(),
                    LINK_Y_COORD_COPY as int,
                    types::u16_at(old(self).ram(), LINK_Y_COORD as int),
                );
                final(self).ram() == types::with_u16(
                    ram1,
                    LINK_X_COORD_COPY as int,
                    types::u16_at(ram1, LINK_X_COORD as int),
                )
            }),
            final(final(self).ram)@ == final(old(self).ram)@,
    {
        copy_word(self.ram, LINK_Y_COORD_COPY, LINK_Y_COORD);
        copy_word(self.ram, LINK_X_COORD_COPY, LINK_X_COORD);
    }

    pub fn cache_current_quadrants(&mut self)
        requires
            LINK_QUADRANT_X_CACHED < old(self).ram().len(),
            LINK_QUADRANT_X < old(self).ram().len(),
            LINK_QUADRANT_Y_CACHED < old(self).ram().len(),
            LINK_QUADRANT_Y < old(self).ram().len(),
        ensures
            final(self).ram() == old(self).ram()
                .update(LINK_QUADRANT_X_CACHED as int, old(self).ram()[LINK_QUADRANT_X as int])
                .update(LINK_QUADRANT_Y_CACHED as int, old(self).ram()[LINK_QUADRANT_Y as int]),
            final(final(self).ram)@ == final(old(self).ram)@,
    {
        self.ram[LINK_QUADRANT_X_CACHED] = self.ram[LINK_QUADRANT_X];
        self.ram[LINK_QUADRANT_Y_CACHED] = self.ram[LINK_QUADRANT_Y];
    }

    pub fn restore_quadrants_from_cached(&mut self)
        requires
            LINK_QUADRANT_X < old(self).ram().len(),
            LINK_QUADRANT_X_CACHED < old(self).ram().len(),
            LINK_QUADRANT_Y < old(self).ram().len(),
            LINK_QUADRANT_Y_CACHED < old(self).ram().len(),
        ensures
            final(self).ram() == old(self).ram()
                .update(LINK_QUADRANT_X as int, old(self).ram()[LINK_QUADRANT_X_CACHED as int])
                .update(LINK_QUADRANT_Y as int, old(self).ram()[LINK_QUADRANT_Y_CACHED as int]),
            final(final(self).ram)@ == final(old(self).ram)@,
    {
        self.ram[LINK_QUADRANT_X] = self.ram[LINK_QUADRANT_X_CACHED];
        self.ram[LINK_QUADRANT_Y] = self.ram[LINK_QUADRANT_Y_CACHED];
    }

    pub fn restore_y_from_previous_position(&mut self)
        requires
            LINK_Y_COORD + 1 < old(self).ram().len(),
            LINK_Y_COORD_PREV + 1 < old(self).ram().len(),
        ensures
            final(self).ram() == types::with_u16(
                old(self).ram(),
                LINK_Y_COORD as int,
                types::u16_at(old(self).ram(), LINK_Y_COORD_PREV as int),
            ),
            final(final(self).ram)@ == final(old(self).ram)@,
    {
        copy_word(self.ram, LINK_Y_COORD, LINK_Y_COORD_PREV);
    }

    pub fn restore_position_from_previous(&mut self)
        requires
            LINK_X_COORD + 1 < old(self).ram().len(),
            LINK_X_COORD_PREV + 1 < old(self).ram().len(),
            LINK_Y_COORD + 1 < old(self).ram().len(),
            LINK_Y_COORD_PREV + 1 < old(self).ram().len(),
        ensures
            ({
                let ram1 = types::with_u16(
                    old(self).ram(),
                    LINK_X_COORD as int,
                    types::u16_at(old(self).ram(), LINK_X_COORD_PREV as int),
                );
                final(self).ram() == types::with_u16(
                    ram1,
                    LINK_Y_COORD as int,
                    types::u16_at(ram1, LINK_Y_COORD_PREV as int),
                )
            }),
            final(final(self).ram)@ == final(old(self).ram)@,
    {
        copy_word(self.ram, LINK_X_COORD, LINK_X_COORD_PREV);
        copy_word(self.ram, LINK_Y_COORD, LINK_Y_COORD_PREV);
    }

    pub fn cache_safe_return_high_from_current(&mut self)
        requires
            LINK_X_COORD_SAFE_RETURN_HI < old(self).ram().len(),
            LINK_X_COORD + 1 < old(self).ram().len(),
            LINK_Y_COORD_SAFE_RETURN_HI < old(self).ram().len(),
            LINK_Y_COORD + 1 < old(self).ram().len(),
        ensures
            final(self).ram() == old(self).ram()
                .update(LINK_X_COORD_SAFE_RETURN_HI as int, old(self).ram()[LINK_X_COORD + 1])
                .update(LINK_Y_COORD_SAFE_RETURN_HI as int, old(self).ram()[LINK_Y_COORD + 1]),
            final(final(self).ram)@ == final(old(self).ram)@,
    {
        self.ram[LINK_X_COORD_SAFE_RETURN_HI] = self.ram[LINK_X_COORD + 1];
        self.ram[LINK_Y_COORD_SAFE_RETURN_HI] = self.ram[LINK_Y_COORD + 1];
    }

    pub fn cache_previous_position_from_current(&mut self)
        requires
            LINK_Y_COORD_PREV + 1 < old(self).ram().len(),
            LINK_Y_COORD + 1 < old(self).ram().len(),
            LINK_X_COORD_PREV + 1 < old(self).ram().len(),
            LINK_X_COORD + 1 < old(self).ram().len(),
        ensures
            ({
                let ram1 = types::with_u16(
                    old(self).ram(),
                    LINK_Y_COORD_PREV as int,
                    types::u16_at(old(self).ram(), LINK_Y_COORD as int),
                );
                final(self).ram() == types::with_u16(
                    ram1,
                    LINK_X_COORD_PREV as int,
                    types::u16_at(ram1, LINK_X_COORD as int),
                )
            }),
            final(final(self).ram)@ == final(old(self).ram)@,
    {
        copy_word(self.ram, LINK_Y_COORD_PREV, LINK_Y_COORD);
        copy_word(self.ram, LINK_X_COORD_PREV, LINK_X_COORD);
    }

    pub fn cache_previous_position_from_current_xy_order(&mut self)
        requires
            LINK_X_COORD_PREV + 1 < old(self).ram().len(),
            LINK_X_COORD + 1 < old(self).ram().len(),
            LINK_Y_COORD_PREV + 1 < old(self).ram().len(),
            LINK_Y_COORD + 1 < old(self).ram().len(),
        ensures
            ({
                let ram1 = types::with_u16(
                    old(self).ram(),
                    LINK_X_COORD_PREV as int,
                    types::u16_at(old(self).ram(), LINK_X_COORD as int),
                );
                final(self).ram() == types::with_u16(
                    ram1,
                    LINK_Y_COORD_PREV as int,
                    types::u16_at(ram1, LINK_Y_COORD as int),
                )
            }),
            final(final(self).ram)@ == final(old(self).ram)@,
    {
        copy_word(self.ram, LINK_X_COORD_PREV, LINK_X_COORD);
        copy_word(self.ram, LINK_Y_COORD_PREV, LINK_Y_COORD);
    }

    pub fn set_previous_position(&mut self, x: u16, y: u16)
        requires
            LINK_X_COORD_PREV + 1 < old(self).ram().len(),
            LINK_Y_COORD_PREV + 1 < old(self).ram().len(),
        ensures
            final(self).ram() == types::with_u16(
                types::with_u16(old(self).ram(), LINK_X_COORD_PREV as int, x),
                LINK_Y_COORD_PREV as int,
                y,
            ),
            final(final(self).ram)@ == final(old(self).ram)@,
    {
        write_le_u16(self.ram, LINK_X_COORD_PREV, x);
        write_le_u16(self.ram, LINK_Y_COORD_PREV, y);
    }

    pub fn move_x_by_velocity(&mut self, velocity: u8) -> (result: u16)
        requires
            LINK_X_SUBPIXEL < old(self).ram().len(),
            LINK_X_COORD + 1 < old(self).ram().len(),
        ensures
            result == access::link_axis_target(
                old(self).ram(),
                LINK_X_SUBPIXEL as int,
                LINK_X_COORD as int,
                16 * (velocity as i8),
            ),
            final(self).ram() == access::with_link_axis(
                old(self).ram(),
                LINK_X_SUBPIXEL as int,
                LINK_X_COORD as int,
                16 * (velocity as i8),
            ),
            final(final(self).ram)@ == final(old(self).ram)@,
    {
        move_link_axis_by_velocity(self.ram, LINK_X_SUBPIXEL, LINK_X_COORD, velocity)
    }

    pub fn move_y_by_velocity(&mut self, velocity: u8) -> (result: u16)
        requires
            LINK_Y_SUBPIXEL < old(self).ram().len(),
            LINK_Y_COORD + 1 < old(self).ram().len(),
        ensures
            result == access::link_axis_target(
                old(self).ram(),
                LINK_Y_SUBPIXEL as int,
                LINK_Y_COORD as int,
                16 * (velocity as i8),
            ),
            final(self).ram() == access::with_link_axis(
                old(self).ram(),
                LINK_Y_SUBPIXEL as int,
                LINK_Y_COORD as int,
                16 * (velocity as i8),
            ),
            final(final(self).ram)@ == final(old(self).ram)@,
    {
        move_link_axis_by_velocity(self.ram, LINK_Y_SUBPIXEL, LINK_Y_COORD, velocity)
    }

    pub fn move_z_by_velocity(&mut self, velocity: u8) -> (result: u16)
        requires
            LINK_Z_SUBPIXEL < old(self).ram().len(),
            LINK_Z_COORD + 1 < old(self).ram().len(),
        ensures
            result == access::link_axis_target(
                old(self).ram(),
                LINK_Z_SUBPIXEL as int,
                LINK_Z_COORD as int,
                16 * (velocity as i8),
            ),
            final(self).ram() == access::with_link_axis(
                old(self).ram(),
                LINK_Z_SUBPIXEL as int,
                LINK_Z_COORD as int,
                16 * (velocity as i8),
            ),
            final(final(self).ram)@ == final(old(self).ram)@,
    {
        move_link_axis_by_velocity(self.ram, LINK_Z_SUBPIXEL, LINK_Z_COORD, velocity)
    }

    pub fn move_x_by_subpixel_delta(&mut self, delta: u16) -> (result: u16)
        requires
            LINK_X_SUBPIXEL < old(self).ram().len(),
            LINK_X_COORD + 1 < old(self).ram().len(),
        ensures
            result == access::link_axis_target(
                old(self).ram(),
                LINK_X_SUBPIXEL as int,
                LINK_X_COORD as int,
                delta as i16 as int,
            ),
            final(self).ram() == access::with_link_axis(
                old(self).ram(),
                LINK_X_SUBPIXEL as int,
                LINK_X_COORD as int,
                delta as i16 as int,
            ),
            final(final(self).ram)@ == final(old(self).ram)@,
    {
        move_link_axis_by_subpixel_delta(self.ram, LINK_X_SUBPIXEL, LINK_X_COORD, delta)
    }

    pub fn move_y_by_subpixel_delta(&mut self, delta: u16) -> (result: u16)
        requires
            LINK_Y_SUBPIXEL < old(self).ram().len(),
            LINK_Y_COORD + 1 < old(self).ram().len(),
        ensures
            result == access::link_axis_target(
                old(self).ram(),
                LINK_Y_SUBPIXEL as int,
                LINK_Y_COORD as int,
                delta as i16 as int,
            ),
            final(self).ram() == access::with_link_axis(
                old(self).ram(),
                LINK_Y_SUBPIXEL as int,
                LINK_Y_COORD as int,
                delta as i16 as int,
            ),
            final(final(self).ram)@ == final(old(self).ram)@,
    {
        move_link_axis_by_subpixel_delta(self.ram, LINK_Y_SUBPIXEL, LINK_Y_COORD, delta)
    }

    pub fn store_overworld_exit_position_from_current(&mut self)
        requires
            LINK_Y_COORD_EXIT_OVERWORLD + 1 < old(self).ram().len(),
            LINK_Y_COORD + 1 < old(self).ram().len(),
            LINK_X_COORD_EXIT_OVERWORLD + 1 < old(self).ram().len(),
            LINK_X_COORD + 1 < old(self).ram().len(),
        ensures
            ({
                let ram1 = types::with_u16(
                    old(self).ram(),
                    LINK_Y_COORD_EXIT_OVERWORLD as int,
                    types::u16_at(old(self).ram(), LINK_Y_COORD as int),
                );
                final(self).ram() == types::with_u16(
                    ram1,
                    LINK_X_COORD_EXIT_OVERWORLD as int,
                    types::u16_at(ram1, LINK_X_COORD as int),
                )
            }),
            final(final(self).ram)@ == final(old(self).ram)@,
    {
        copy_word(self.ram, LINK_Y_COORD_EXIT_OVERWORLD, LINK_Y_COORD);
        copy_word(self.ram, LINK_X_COORD_EXIT_OVERWORLD, LINK_X_COORD);
    }

    pub fn store_overworld_exit_y_from_current(&mut self)
        requires
            LINK_Y_COORD_EXIT_OVERWORLD + 1 < old(self).ram().len(),
            LINK_Y_COORD + 1 < old(self).ram().len(),
        ensures
            final(self).ram() == types::with_u16(
                old(self).ram(),
                LINK_Y_COORD_EXIT_OVERWORLD as int,
                types::u16_at(old(self).ram(), LINK_Y_COORD as int),
            ),
            final(final(self).ram)@ == final(old(self).ram)@,
    {
        copy_word(self.ram, LINK_Y_COORD_EXIT_OVERWORLD, LINK_Y_COORD);
    }

    pub fn restore_y_from_overworld_exit(&mut self)
        requires
            LINK_Y_COORD + 1 < old(self).ram().len(),
            LINK_Y_COORD_EXIT_OVERWORLD + 1 < old(self).ram().len(),
        ensures
            final(self).ram() == types::with_u16(
                old(self).ram(),
                LINK_Y_COORD as int,
                types::u16_at(
                    old(self).ram(),
                    LINK_Y_COORD_EXIT_OVERWORLD as int,
                ),
            ),
            final(final(self).ram)@ == final(old(self).ram)@,
    {
        copy_word(self.ram, LINK_Y_COORD, LINK_Y_COORD_EXIT_OVERWORLD);
    }

    pub fn restore_position_from_overworld_exit(&mut self)
        requires
            LINK_X_COORD + 1 < old(self).ram().len(),
            LINK_X_COORD_EXIT_OVERWORLD + 1 < old(self).ram().len(),
            LINK_Y_COORD + 1 < old(self).ram().len(),
            LINK_Y_COORD_EXIT_OVERWORLD + 1 < old(self).ram().len(),
        ensures
            ({
                let ram1 = types::with_u16(
                    old(self).ram(),
                    LINK_X_COORD as int,
                    types::u16_at(old(self).ram(), LINK_X_COORD_EXIT_OVERWORLD as int),
                );
                final(self).ram() == types::with_u16(
                    ram1,
                    LINK_Y_COORD as int,
                    types::u16_at(ram1, LINK_Y_COORD_EXIT_OVERWORLD as int),
                )
            }),
            final(final(self).ram)@ == final(old(self).ram)@,
    {
        copy_word(self.ram, LINK_X_COORD, LINK_X_COORD_EXIT_OVERWORLD);
        copy_word(self.ram, LINK_Y_COORD, LINK_Y_COORD_EXIT_OVERWORLD);
    }

    pub fn restore_lower_level_state_from_cached(&mut self)
        requires
            LINK_IS_ON_LOWER_LEVEL < old(self).ram().len(),
            LINK_IS_ON_LOWER_LEVEL_CACHED < old(self).ram().len(),
            LINK_IS_ON_LOWER_LEVEL_MIRROR < old(self).ram().len(),
            LINK_IS_ON_LOWER_LEVEL_MIRROR_CACHED < old(self).ram().len(),
        ensures
            final(self).ram() == old(self).ram()
                .update(
                    LINK_IS_ON_LOWER_LEVEL as int,
                    old(self).ram()[LINK_IS_ON_LOWER_LEVEL_CACHED as int],
                )
                .update(
                    LINK_IS_ON_LOWER_LEVEL_MIRROR as int,
                    old(self).ram()[LINK_IS_ON_LOWER_LEVEL_MIRROR_CACHED as int],
                ),
            final(final(self).ram)@ == final(old(self).ram)@,
    {
        self.ram[LINK_IS_ON_LOWER_LEVEL] = self.ram[LINK_IS_ON_LOWER_LEVEL_CACHED];
        self.ram[LINK_IS_ON_LOWER_LEVEL_MIRROR] = self.ram[LINK_IS_ON_LOWER_LEVEL_MIRROR_CACHED];
    }

    pub fn restore_facing_from_cached(&mut self)
        requires
            LINK_FACING < old(self).ram().len(),
            LINK_FACING_CACHED < old(self).ram().len(),
        ensures
            final(self).ram() == old(self).ram().update(
                LINK_FACING as int,
                old(self).ram()[LINK_FACING_CACHED as int],
            ),
            final(final(self).ram)@ == final(old(self).ram)@,
    {
        self.ram[LINK_FACING] = self.ram[LINK_FACING_CACHED];
    }

    pub fn store_safe_return_position(&mut self, x: u16, y: u16)
        requires
            LINK_Y_COORD_SAFE_RETURN_LO < old(self).ram().len(),
            LINK_Y_COORD_SAFE_RETURN_HI < old(self).ram().len(),
            LINK_X_COORD_SAFE_RETURN_LO < old(self).ram().len(),
            LINK_X_COORD_SAFE_RETURN_HI < old(self).ram().len(),
        ensures
            final(self).ram() == old(self).ram()
                .update(LINK_Y_COORD_SAFE_RETURN_LO as int, y as u8)
                .update(LINK_Y_COORD_SAFE_RETURN_HI as int, (y >> 8) as u8)
                .update(LINK_X_COORD_SAFE_RETURN_LO as int, x as u8)
                .update(LINK_X_COORD_SAFE_RETURN_HI as int, (x >> 8) as u8),
            final(final(self).ram)@ == final(old(self).ram)@,
    {
        self.ram[LINK_Y_COORD_SAFE_RETURN_LO] = y as u8;
        self.ram[LINK_Y_COORD_SAFE_RETURN_HI] = (y >> 8) as u8;
        self.ram[LINK_X_COORD_SAFE_RETURN_LO] = x as u8;
        self.ram[LINK_X_COORD_SAFE_RETURN_HI] = (x >> 8) as u8;
    }

    pub fn restore_position_from_safe_return(&mut self)
        requires
            LINK_Y_COORD < old(self).ram().len(),
            LINK_Y_COORD_SAFE_RETURN_LO < old(self).ram().len(),
            LINK_Y_COORD + 1 < old(self).ram().len(),
            LINK_Y_COORD_SAFE_RETURN_HI < old(self).ram().len(),
            LINK_X_COORD < old(self).ram().len(),
            LINK_X_COORD_SAFE_RETURN_LO < old(self).ram().len(),
            LINK_X_COORD + 1 < old(self).ram().len(),
            LINK_X_COORD_SAFE_RETURN_HI < old(self).ram().len(),
        ensures
            final(self).ram() == old(self).ram()
                .update(LINK_Y_COORD as int, old(self).ram()[LINK_Y_COORD_SAFE_RETURN_LO as int])
                .update(LINK_Y_COORD + 1, old(self).ram()[LINK_Y_COORD_SAFE_RETURN_HI as int])
                .update(LINK_X_COORD as int, old(self).ram()[LINK_X_COORD_SAFE_RETURN_LO as int])
                .update(LINK_X_COORD + 1, old(self).ram()[LINK_X_COORD_SAFE_RETURN_HI as int]),
            final(final(self).ram)@ == final(old(self).ram)@,
    {
        self.ram[LINK_Y_COORD] = self.ram[LINK_Y_COORD_SAFE_RETURN_LO];
        self.ram[LINK_Y_COORD + 1] = self.ram[LINK_Y_COORD_SAFE_RETURN_HI];
        self.ram[LINK_X_COORD] = self.ram[LINK_X_COORD_SAFE_RETURN_LO];
        self.ram[LINK_X_COORD + 1] = self.ram[LINK_X_COORD_SAFE_RETURN_HI];
    }

    pub fn store_safe_return_low_from_current(&mut self)
        requires
            LINK_Y_COORD_SAFE_RETURN_LO < old(self).ram().len(),
            LINK_Y_COORD < old(self).ram().len(),
            LINK_X_COORD_SAFE_RETURN_LO < old(self).ram().len(),
            LINK_X_COORD < old(self).ram().len(),
        ensures
            final(self).ram() == old(self).ram()
                .update(LINK_Y_COORD_SAFE_RETURN_LO as int, old(self).ram()[LINK_Y_COORD as int])
                .update(LINK_X_COORD_SAFE_RETURN_LO as int, old(self).ram()[LINK_X_COORD as int]),
            final(final(self).ram)@ == final(old(self).ram)@,
    {
        self.ram[LINK_Y_COORD_SAFE_RETURN_LO] = self.ram[LINK_Y_COORD];
        self.ram[LINK_X_COORD_SAFE_RETURN_LO] = self.ram[LINK_X_COORD];
    }

    pub fn store_safe_return_y(&mut self, y: u16)
        requires
            LINK_Y_COORD_SAFE_RETURN_LO < old(self).ram().len(),
            LINK_Y_COORD_SAFE_RETURN_HI < old(self).ram().len(),
        ensures
            final(self).ram() == old(self).ram()
                .update(LINK_Y_COORD_SAFE_RETURN_LO as int, y as u8)
                .update(LINK_Y_COORD_SAFE_RETURN_HI as int, (y >> 8) as u8),
            final(final(self).ram)@ == final(old(self).ram)@,
    {
        self.ram[LINK_Y_COORD_SAFE_RETURN_LO] = y as u8;
        self.ram[LINK_Y_COORD_SAFE_RETURN_HI] = (y >> 8) as u8;
    }

    pub fn set_hop_origin_coord(&mut self, value: u16)
        requires
            LINK_Y_COORD_ORIGINAL + 1 < old(self).ram().len(),
        ensures
            final(self).ram() == types::with_u16(
                old(self).ram(),
                LINK_Y_COORD_ORIGINAL as int,
                value,
            ),
            final(final(self).ram)@ == final(old(self).ram)@,
    {
        write_le_u16(self.ram, LINK_Y_COORD_ORIGINAL, value);
    }

    pub fn set_hop_origin_delta_from_y(&mut self, y: u16) -> (result: u16)
        requires
            LINK_Y_COORD_ORIGINAL + 1 < old(self).ram().len(),
        ensures
            result == access::word_at(old(self).ram(), LINK_Y_COORD_ORIGINAL as int).wrapping_sub(y),
            final(self).ram() == types::with_u16(
                old(self).ram(),
                LINK_Y_COORD_ORIGINAL as int,
                access::word_at(old(self).ram(), LINK_Y_COORD_ORIGINAL as int)
                    .wrapping_sub(y),
            ),
            final(final(self).ram)@ == final(old(self).ram)@,
    {
        let diff = word(self.ram, LINK_Y_COORD_ORIGINAL).wrapping_sub(y);
        write_le_u16(self.ram, LINK_Y_COORD_ORIGINAL, diff);
        diff
    }

    pub fn restore_y_from_hop_origin(&mut self)
        requires
            LINK_Y_COORD + 1 < old(self).ram().len(),
            LINK_Y_COORD_ORIGINAL + 1 < old(self).ram().len(),
        ensures
            final(self).ram() == types::with_u16(
                old(self).ram(),
                LINK_Y_COORD as int,
                types::u16_at(old(self).ram(), LINK_Y_COORD_ORIGINAL as int),
            ),
            final(final(self).ram)@ == final(old(self).ram)@,
    {
        copy_word(self.ram, LINK_Y_COORD, LINK_Y_COORD_ORIGINAL);
    }

    pub fn clear_temp_bunny_timer(&mut self)
        requires
            LINK_TIMER_TEMPBUNNY + 1 < old(self).ram().len(),
        ensures
            final(self).ram() == types::with_u16(old(self).ram(), LINK_TIMER_TEMPBUNNY as int, 0u16),
            final(final(self).ram)@ == final(old(self).ram)@,
    {
        write_le_u16(self.ram, LINK_TIMER_TEMPBUNNY, 0);
    }

    pub fn set_temp_bunny_timer(&mut self, value: u16)
        requires
            LINK_TIMER_TEMPBUNNY + 1 < old(self).ram().len(),
        ensures
            final(self).ram() == types::with_u16(
                old(self).ram(),
                LINK_TIMER_TEMPBUNNY as int,
                value,
            ),
            final(final(self).ram)@ == final(old(self).ram)@,
    {
        write_le_u16(self.ram, LINK_TIMER_TEMPBUNNY, value);
    }

    pub fn decrement_temp_bunny_timer(&mut self) -> (result: u16)
        requires
            LINK_TIMER_TEMPBUNNY + 1 < old(self).ram().len(),
        ensures
            result == access::word_at(old(self).ram(), LINK_TIMER_TEMPBUNNY as int).wrapping_sub(1),
            final(self).ram() == types::with_u16(
                old(self).ram(),
                LINK_TIMER_TEMPBUNNY as int,
                access::word_at(old(self).ram(), LINK_TIMER_TEMPBUNNY as int)
                    .wrapping_sub(1),
            ),
            final(final(self).ram)@ == final(old(self).ram)@,
    {
        let timer = word(self.ram, LINK_TIMER_TEMPBUNNY).wrapping_sub(1);
        write_le_u16(self.ram, LINK_TIMER_TEMPBUNNY, timer);
        timer
    }

    pub fn set_safe_return_y_low(&mut self, value: u8)
        requires
            LINK_Y_COORD_SAFE_RETURN_LO < old(self).ram().len(),
        ensures
            final(self).ram() == old(self).ram().update(LINK_Y_COORD_SAFE_RETURN_LO as int, value),
            final(final(self).ram)@ == final(old(self).ram)@,
    {
        self.ram[LINK_Y_COORD_SAFE_RETURN_LO] = value;
    }

    pub fn set_movement_velocity_from_position_delta(&mut self, x: u16, y: u16, old_x: u16, old_y: u16)
        requires
            LINK_Y_VELOCITY < old(self).ram().len(),
            LINK_X_VELOCITY < old(self).ram().len(),
        ensures
            final(self).ram() == old(self).ram()
                .update(LINK_Y_VELOCITY as int, y.wrapping_sub(old_y) as u8)
                .update(LINK_X_VELOCITY as int, x.wrapping_sub(old_x) as u8),
            final(final(self).ram)@ == final(old(self).ram)@,
    {
        self.ram[LINK_Y_VELOCITY] = y.wrapping_sub(old_y) as u8;
        self.ram[LINK_X_VELOCITY] = x.wrapping_sub(old_x) as u8;
    }

    pub fn set_movement_velocity_from_delta(&mut self, x_delta: u16, y_delta: u16)
        requires
            LINK_Y_VELOCITY < old(self).ram().len(),
            LINK_X_VELOCITY < old(self).ram().len(),
        ensures
            final(self).ram() == old(self).ram()
                .update(LINK_Y_VELOCITY as int, y_delta as u8)
                .update(LINK_X_VELOCITY as int, x_delta as u8),
            final(final(self).ram)@ == final(old(self).ram)@,
    {
        self.ram[LINK_Y_VELOCITY] = y_delta as u8;
        self.ram[LINK_X_VELOCITY] = x_delta as u8;
    }

    pub fn subtract_axis_velocity_delta(&mut self, horizontal: bool, delta: u8)
        requires
            horizontal ==> LINK_X_VELOCITY < old(self).ram().len(),
            !horizontal ==> LINK_Y_VELOCITY < old(self).ram().len(),
        ensures
            final(self).ram() == (if horizontal {
                old(self).ram()
                    .update(
                        LINK_X_VELOCITY as int,
                        old(self).ram()[LINK_X_VELOCITY as int].wrapping_sub(delta),
                    )
            } else {
                old(self).ram()
                    .update(
                        LINK_Y_VELOCITY as int,
                        old(self).ram()[LINK_Y_VELOCITY as int].wrapping_sub(delta),
                    )
            }),
            final(final(self).ram)@ == final(old(self).ram)@,
    {
        if horizontal {
            self.ram[LINK_X_VELOCITY] = self.ram[LINK_X_VELOCITY].wrapping_sub(delta);
        } else {
            self.ram[LINK_Y_VELOCITY] = self.ram[LINK_Y_VELOCITY].wrapping_sub(delta);
        }
    }

    pub fn add_movement_velocity_delta(&mut self, x_delta: u16, y_delta: u16)
        requires
            LINK_X_VELOCITY < old(self).ram().len(),
            LINK_Y_VELOCITY < old(self).ram().len(),
        ensures
            final(self).ram() == old(self).ram()
                .update(
                    LINK_X_VELOCITY as int,
                    old(self).ram()[LINK_X_VELOCITY as int].wrapping_add(x_delta as u8),
                )
                .update(
                    LINK_Y_VELOCITY as int,
                    old(self).ram()[LINK_Y_VELOCITY as int].wrapping_add(y_delta as u8),
                ),
            final(final(self).ram)@ == final(old(self).ram)@,
    {
        self.ram[LINK_X_VELOCITY] = self.ram[LINK_X_VELOCITY].wrapping_add(x_delta as u8);
        self.ram[LINK_Y_VELOCITY] = self.ram[LINK_Y_VELOCITY].wrapping_add(y_delta as u8);
    }

    pub fn add_y_velocity_delta(&mut self, y_delta: u8)
        requires
            LINK_Y_VELOCITY < old(self).ram().len(),
        ensures
            final(self).ram() == old(self).ram().update(
                LINK_Y_VELOCITY as int,
                old(self).ram()[LINK_Y_VELOCITY as int].wrapping_add(y_delta),
            ),
            final(final(self).ram)@ == final(old(self).ram)@,
    {
        self.ram[LINK_Y_VELOCITY] = self.ram[LINK_Y_VELOCITY].wrapping_add(y_delta);
    }

    pub fn set_y_velocity_from_safe_return_delta_unless_ledge_hopping(&mut self)
        requires
            LINK_HANDLER_STATE < old(self).ram().len(),
            old(self).ram()[LINK_HANDLER_STATE as int] != 11
                ==> LINK_Y_VELOCITY < old(self).ram().len(),
            old(self).ram()[LINK_HANDLER_STATE as int] != 11
                ==> LINK_Y_COORD < old(self).ram().len(),
            old(self).ram()[LINK_HANDLER_STATE as int] != 11
                ==> LINK_Y_COORD_SAFE_RETURN_LO < old(self).ram().len(),
        ensures
            final(self).ram() == (if old(self).ram()[LINK_HANDLER_STATE as int] != 11 {
                old(self).ram()
                    .update(
                        LINK_Y_VELOCITY as int,
                        old(self).ram()[LINK_Y_COORD as int].wrapping_sub(old(self).ram()[LINK_Y_COORD_SAFE_RETURN_LO as int]),
                    )
            } else {
                old(self).ram()
            }),
            final(final(self).ram)@ == final(old(self).ram)@,
    {
        if self.ram[LINK_HANDLER_STATE] != 11 {
            self.ram[LINK_Y_VELOCITY] = self.ram[LINK_Y_COORD].wrapping_sub(self.ram[LINK_Y_COORD_SAFE_RETURN_LO]);
        }
    }

    pub fn set_x_velocity_from_safe_return_delta(&mut self)
        requires
            LINK_X_VELOCITY < old(self).ram().len(),
            LINK_X_COORD < old(self).ram().len(),
            LINK_X_COORD_SAFE_RETURN_LO < old(self).ram().len(),
        ensures
            final(self).ram() == old(self).ram().update(
                LINK_X_VELOCITY as int,
                old(self).ram()[LINK_X_COORD as int].wrapping_sub(old(self).ram()[LINK_X_COORD_SAFE_RETURN_LO as int]),
            ),
            final(final(self).ram)@ == final(old(self).ram)@,
    {
        self.ram[LINK_X_VELOCITY] = self.ram[LINK_X_COORD].wrapping_sub(self.ram[LINK_X_COORD_SAFE_RETURN_LO]);
    }

    pub fn update_vertical_direction_from_movement_velocity(&mut self)
        requires
            LINK_Y_VELOCITY < old(self).ram().len(),
            old(self).ram()[LINK_Y_VELOCITY as int] != 0 ==> LINK_DIRECTION < old(self).ram().len(),
        ensures
            final(self).ram() == (if old(self).ram()[LINK_Y_VELOCITY as int] != 0 {
                old(self).ram()
                    .update(
                        LINK_DIRECTION as int,
                        (old(self).ram()[LINK_DIRECTION as int] & 3u8)
                            | (if (old(self).ram()[LINK_Y_VELOCITY as int] as i8) < 0 {
                                8u8
                            } else {
                                4u8
                            }),
                    )
            } else {
                old(self).ram()
            }),
            final(final(self).ram)@ == final(old(self).ram)@,
    {
        if self.ram[LINK_Y_VELOCITY] != 0 {
            self.ram[LINK_DIRECTION] = (self.ram[LINK_DIRECTION] & 3) | (if (self.ram[LINK_Y_VELOCITY] as i8) < 0 { 8 } else { 4 });
        }
    }

    pub fn update_horizontal_direction_from_movement_velocity(&mut self)
        requires
            LINK_X_VELOCITY < old(self).ram().len(),
            old(self).ram()[LINK_X_VELOCITY as int] != 0 ==> LINK_DIRECTION < old(self).ram().len(),
        ensures
            final(self).ram() == (if old(self).ram()[LINK_X_VELOCITY as int] != 0 {
                old(self).ram()
                    .update(
                        LINK_DIRECTION as int,
                        (old(self).ram()[LINK_DIRECTION as int] & 0x0cu8)
                            | (if (old(self).ram()[LINK_X_VELOCITY as int] as i8) < 0 {
                                2u8
                            } else {
                                1u8
                            }),
                    )
            } else {
                old(self).ram()
            }),
            final(final(self).ram)@ == final(old(self).ram)@,
    {
        if self.ram[LINK_X_VELOCITY] != 0 {
            self.ram[LINK_DIRECTION] = (self.ram[LINK_DIRECTION] & 0x0c) | (if (self.ram[LINK_X_VELOCITY] as i8) < 0 { 2 } else { 1 });
        }
    }

    pub fn refresh_direction_from_safe_return_delta(&mut self)
        requires
            LINK_HANDLER_STATE < old(self).ram().len(),
            old(self).ram()[LINK_HANDLER_STATE as int] != 11
                ==> LINK_Y_COORD < old(self).ram().len(),
            old(self).ram()[LINK_HANDLER_STATE as int] != 11
                ==> LINK_Y_COORD_SAFE_RETURN_LO < old(self).ram().len(),
            LINK_Y_VELOCITY < old(self).ram().len(),
            ({
                let ram1 = if old(self).ram()[LINK_HANDLER_STATE as int] != 11 {
                    old(self).ram()
                        .update(
                            LINK_Y_VELOCITY as int,
                            old(self).ram()[LINK_Y_COORD as int].wrapping_sub(old(self).ram()[LINK_Y_COORD_SAFE_RETURN_LO as int]),
                        )
                } else {
                    old(self).ram()
                };
                ram1[LINK_Y_VELOCITY as int] != 0 ==> LINK_DIRECTION < old(self).ram().len()
            }),
            LINK_X_VELOCITY < old(self).ram().len(),
            LINK_X_COORD < old(self).ram().len(),
            LINK_X_COORD_SAFE_RETURN_LO < old(self).ram().len(),
            ({
                let ram1 = if old(self).ram()[LINK_HANDLER_STATE as int] != 11 {
                    old(self).ram()
                        .update(
                            LINK_Y_VELOCITY as int,
                            old(self).ram()[LINK_Y_COORD as int].wrapping_sub(old(self).ram()[LINK_Y_COORD_SAFE_RETURN_LO as int]),
                        )
                } else {
                    old(self).ram()
                };
                let ram2 = if ram1[LINK_Y_VELOCITY as int] != 0 {
                    ram1.update(
                        LINK_DIRECTION as int,
                        (ram1[LINK_DIRECTION as int] & 3u8)
                            | (if (ram1[LINK_Y_VELOCITY as int] as i8) < 0 { 8u8 } else { 4u8 }),
                    )
                } else {
                    ram1
                };
                ram2[LINK_X_COORD as int].wrapping_sub(ram2[LINK_X_COORD_SAFE_RETURN_LO as int]) != 0
                    ==> LINK_DIRECTION < old(self).ram().len()
            }),
        ensures
            ({
                let ram1 = if old(self).ram()[LINK_HANDLER_STATE as int] != 11 {
                    old(self).ram()
                        .update(
                            LINK_Y_VELOCITY as int,
                            old(self).ram()[LINK_Y_COORD as int].wrapping_sub(old(self).ram()[LINK_Y_COORD_SAFE_RETURN_LO as int]),
                        )
                } else {
                    old(self).ram()
                };
                let ram2 = if ram1[LINK_Y_VELOCITY as int] != 0 {
                    ram1.update(
                        LINK_DIRECTION as int,
                        (ram1[LINK_DIRECTION as int] & 3u8)
                            | (if (ram1[LINK_Y_VELOCITY as int] as i8) < 0 { 8u8 } else { 4u8 }),
                    )
                } else {
                    ram1
                };
                final(self).ram() == (if ram2[LINK_X_COORD as int].wrapping_sub(ram2[LINK_X_COORD_SAFE_RETURN_LO as int]) != 0 {
                    ram2
                        .update(
                            LINK_X_VELOCITY as int,
                            ram2[LINK_X_COORD as int].wrapping_sub(ram2[LINK_X_COORD_SAFE_RETURN_LO as int]),
                        )
                        .update(
                            LINK_DIRECTION as int,
                            (ram2[LINK_DIRECTION as int] & 0x0cu8)
                                | (if (ram2[LINK_X_COORD as int].wrapping_sub(ram2[LINK_X_COORD_SAFE_RETURN_LO as int]) as i8) < 0 {
                                    2u8
                                } else {
                                    1u8
                                }),
                        )
                } else {
                    ram2.update(
                        LINK_X_VELOCITY as int,
                        ram2[LINK_X_COORD as int].wrapping_sub(ram2[LINK_X_COORD_SAFE_RETURN_LO as int]),
                    )
                })
            }),
            final(final(self).ram)@ == final(old(self).ram)@,
    {
        self.set_y_velocity_from_safe_return_delta_unless_ledge_hopping();
        self.update_vertical_direction_from_movement_velocity();
        self.set_x_velocity_from_safe_return_delta();
        self.update_horizontal_direction_from_movement_velocity();
    }

    pub fn set_x_velocity(&mut self, value: u8)
        requires
            LINK_X_VELOCITY < old(self).ram().len(),
        ensures
            final(self).ram() == old(self).ram().update(LINK_X_VELOCITY as int, value),
            final(final(self).ram)@ == final(old(self).ram)@,
    {
        self.ram[LINK_X_VELOCITY] = value;
    }

    pub fn set_y_velocity(&mut self, value: u8)
        requires
            LINK_Y_VELOCITY < old(self).ram().len(),
        ensures
            final(self).ram() == old(self).ram().update(LINK_Y_VELOCITY as int, value),
            final(final(self).ram)@ == final(old(self).ram)@,
    {
        self.ram[LINK_Y_VELOCITY] = value;
    }

    pub fn clear_movement_velocity_and_direction(&mut self)
        requires
            LINK_X_VELOCITY < old(self).ram().len(),
            LINK_Y_VELOCITY < old(self).ram().len(),
            LINK_DIRECTION < old(self).ram().len(),
        ensures
            final(self).ram() == old(self).ram()
                .update(LINK_X_VELOCITY as int, 0u8)
                .update(LINK_Y_VELOCITY as int, 0u8)
                .update(LINK_DIRECTION as int, 0u8),
            final(final(self).ram)@ == final(old(self).ram)@,
    {
        self.ram[LINK_X_VELOCITY] = 0;
        self.ram[LINK_Y_VELOCITY] = 0;
        self.ram[LINK_DIRECTION] = 0;
    }

    pub fn clear_movement_velocity(&mut self)
        requires
            LINK_X_VELOCITY < old(self).ram().len(),
            LINK_Y_VELOCITY < old(self).ram().len(),
        ensures
            final(self).ram() == old(self).ram()
                .update(LINK_X_VELOCITY as int, 0u8)
                .update(LINK_Y_VELOCITY as int, 0u8),
            final(final(self).ram)@ == final(old(self).ram)@,
    {
        self.ram[LINK_X_VELOCITY] = 0;
        self.ram[LINK_Y_VELOCITY] = 0;
    }

    pub fn clear_movement_subpixels(&mut self)
        requires
            LINK_X_SUBPIXEL < old(self).ram().len(),
            LINK_Y_SUBPIXEL < old(self).ram().len(),
        ensures
            final(self).ram() == old(self).ram()
                .update(LINK_X_SUBPIXEL as int, 0u8)
                .update(LINK_Y_SUBPIXEL as int, 0u8),
            final(final(self).ram)@ == final(old(self).ram)@,
    {
        self.ram[LINK_X_SUBPIXEL] = 0;
        self.ram[LINK_Y_SUBPIXEL] = 0;
    }

    pub fn clear_link_state_block_for_ending(&mut self)
        requires
            LINK_Y_COORD + 0x70 <= old(self).ram().len(),
        ensures
            final(self).ram() == access::filled(
                old(self).ram(),
                LINK_Y_COORD as int,
                LINK_Y_COORD + 0x70,
                0u8,
            ),
            final(final(self).ram)@ == final(old(self).ram)@,
    {
        fill_bytes(self.ram, LINK_Y_COORD, LINK_Y_COORD + 0x70, 0);
    }

    pub fn clear_page_movement_deltas(&mut self)
        requires
            LINK_X_PAGE_MOVEMENT_DELTA < old(self).ram().len(),
            LINK_Y_PAGE_MOVEMENT_DELTA < old(self).ram().len(),
        ensures
            final(self).ram() == old(self).ram()
                .update(LINK_X_PAGE_MOVEMENT_DELTA as int, 0u8)
                .update(LINK_Y_PAGE_MOVEMENT_DELTA as int, 0u8),
            final(final(self).ram)@ == final(old(self).ram)@,
    {
        self.ram[LINK_X_PAGE_MOVEMENT_DELTA] = 0;
        self.ram[LINK_Y_PAGE_MOVEMENT_DELTA] = 0;
    }

    pub fn set_page_movement_deltas(&mut self, y_delta: u8, x_delta: u8)
        requires
            LINK_Y_PAGE_MOVEMENT_DELTA < old(self).ram().len(),
            LINK_X_PAGE_MOVEMENT_DELTA < old(self).ram().len(),
        ensures
            final(self).ram() == old(self).ram()
                .update(LINK_Y_PAGE_MOVEMENT_DELTA as int, y_delta)
                .update(LINK_X_PAGE_MOVEMENT_DELTA as int, x_delta),
            final(final(self).ram)@ == final(old(self).ram)@,
    {
        self.ram[LINK_Y_PAGE_MOVEMENT_DELTA] = y_delta;
        self.ram[LINK_X_PAGE_MOVEMENT_DELTA] = x_delta;
    }

    pub fn set_y_page_movement_delta_from_high_position(&mut self, high: u8)
        requires
            LINK_Y_PAGE_MOVEMENT_DELTA < old(self).ram().len(),
            LINK_Y_COORD_SAFE_RETURN_HI < old(self).ram().len(),
        ensures
            final(self).ram() == old(self).ram().update(
                LINK_Y_PAGE_MOVEMENT_DELTA as int,
                high.wrapping_sub(old(self).ram()[LINK_Y_COORD_SAFE_RETURN_HI as int]),
            ),
            final(final(self).ram)@ == final(old(self).ram)@,
    {
        self.ram[LINK_Y_PAGE_MOVEMENT_DELTA] = high.wrapping_sub(self.ram[LINK_Y_COORD_SAFE_RETURN_HI]);
    }

    pub fn set_x_page_movement_delta_from_high_position(&mut self, high: u8)
        requires
            LINK_X_PAGE_MOVEMENT_DELTA < old(self).ram().len(),
            LINK_X_COORD_SAFE_RETURN_HI < old(self).ram().len(),
        ensures
            final(self).ram() == old(self).ram().update(
                LINK_X_PAGE_MOVEMENT_DELTA as int,
                high.wrapping_sub(old(self).ram()[LINK_X_COORD_SAFE_RETURN_HI as int]),
            ),
            final(final(self).ram)@ == final(old(self).ram)@,
    {
        self.ram[LINK_X_PAGE_MOVEMENT_DELTA] = high.wrapping_sub(self.ram[LINK_X_COORD_SAFE_RETURN_HI]);
    }

    pub fn clear_actual_velocity_and_page_movement_deltas(&mut self)
        requires
            LINK_ACTUAL_X_VELOCITY < old(self).ram().len(),
            LINK_ACTUAL_Y_VELOCITY < old(self).ram().len(),
            LINK_X_PAGE_MOVEMENT_DELTA < old(self).ram().len(),
            LINK_Y_PAGE_MOVEMENT_DELTA < old(self).ram().len(),
        ensures
            final(self).ram() == old(self).ram()
                .update(LINK_ACTUAL_X_VELOCITY as int, 0)
                .update(LINK_ACTUAL_Y_VELOCITY as int, 0)
                .update(LINK_X_PAGE_MOVEMENT_DELTA as int, 0u8)
                .update(LINK_Y_PAGE_MOVEMENT_DELTA as int, 0u8),
            final(final(self).ram)@ == final(old(self).ram)@,
    {
        self.clear_actual_velocity_xy();
        self.clear_page_movement_deltas();
    }

    pub fn set_moving_against_diag_tile(&mut self, value: u8)
        requires
            LINK_MOVING_AGAINST_DIAG_TILE < old(self).ram().len(),
        ensures
            final(self).ram() == old(self).ram().update(
                LINK_MOVING_AGAINST_DIAG_TILE as int,
                value,
            ),
            final(final(self).ram)@ == final(old(self).ram)@,
    {
        self.ram[LINK_MOVING_AGAINST_DIAG_TILE] = value;
    }

    pub fn add_moving_against_diag_tile_flags(&mut self, value: u8)
        requires
            LINK_MOVING_AGAINST_DIAG_TILE < old(self).ram().len(),
        ensures
            final(self).ram() == old(self).ram().update(
                LINK_MOVING_AGAINST_DIAG_TILE as int,
                old(self).ram()[LINK_MOVING_AGAINST_DIAG_TILE as int] | value,
            ),
            final(final(self).ram)@ == final(old(self).ram)@,
    {
        self.ram[LINK_MOVING_AGAINST_DIAG_TILE] |= value;
    }

    pub fn clear_moving_against_diag_tile(&mut self)
        requires
            LINK_MOVING_AGAINST_DIAG_TILE < old(self).ram().len(),
        ensures
            final(self).ram() == old(self).ram().update(LINK_MOVING_AGAINST_DIAG_TILE as int, 0u8),
            final(final(self).ram)@ == final(old(self).ram)@,
    {
        self.ram[LINK_MOVING_AGAINST_DIAG_TILE] = 0;
    }

    pub fn reset_direction_limits(&mut self)
        requires
            LINK_DIRECTION_MASK_A < old(self).ram().len(),
            LINK_DIRECTION_MASK_B < old(self).ram().len(),
            LINK_NUM_ORTHOGONAL_DIRECTIONS < old(self).ram().len(),
        ensures
            final(self).ram() == old(self).ram()
                .update(LINK_DIRECTION_MASK_A as int, 0x0fu8)
                .update(LINK_DIRECTION_MASK_B as int, 0x0fu8)
                .update(LINK_NUM_ORTHOGONAL_DIRECTIONS as int, 0u8),
            final(final(self).ram)@ == final(old(self).ram)@,
    {
        self.ram[LINK_DIRECTION_MASK_A] = 0x0f;
        self.ram[LINK_DIRECTION_MASK_B] = 0x0f;
        self.ram[LINK_NUM_ORTHOGONAL_DIRECTIONS] = 0;
    }

    pub fn reset_direction_masks(&mut self)
        requires
            LINK_DIRECTION_MASK_A < old(self).ram().len(),
            LINK_DIRECTION_MASK_B < old(self).ram().len(),
        ensures
            final(self).ram() == old(self).ram()
                .update(LINK_DIRECTION_MASK_A as int, 0x0fu8)
                .update(LINK_DIRECTION_MASK_B as int, 0x0fu8),
            final(final(self).ram)@ == final(old(self).ram)@,
    {
        self.ram[LINK_DIRECTION_MASK_A] = 0x0f;
        self.ram[LINK_DIRECTION_MASK_B] = 0x0f;
    }

    pub fn set_quadrants_from_packed_nibbles(&mut self, value: u8)
        requires
            LINK_QUADRANT_X < old(self).ram().len(),
            LINK_QUADRANT_Y < old(self).ram().len(),
        ensures
            final(self).ram() == old(self).ram()
                .update(LINK_QUADRANT_X as int, value >> 4)
                .update(LINK_QUADRANT_Y as int, value & 0x0fu8),
            final(final(self).ram)@ == final(old(self).ram)@,
    {
        self.ram[LINK_QUADRANT_X] = value >> 4;
        self.ram[LINK_QUADRANT_Y] = value & 0x0f;
    }

    pub fn set_quadrants(&mut self, x: u8, y: u8)
        requires
            LINK_QUADRANT_X < old(self).ram().len(),
            LINK_QUADRANT_Y < old(self).ram().len(),
        ensures
            final(self).ram() == old(self).ram()
                .update(LINK_QUADRANT_X as int, x)
                .update(LINK_QUADRANT_Y as int, y),
            final(final(self).ram)@ == final(old(self).ram)@,
    {
        self.ram[LINK_QUADRANT_X] = x;
        self.ram[LINK_QUADRANT_Y] = y;
    }

    pub fn toggle_quadrant_x(&mut self) -> (result: u8)
        requires
            LINK_QUADRANT_X < old(self).ram().len(),
        ensures
            result == (old(self).ram()[LINK_QUADRANT_X as int] ^ 1),
            final(self).ram() == old(self).ram().update(
                LINK_QUADRANT_X as int,
                old(self).ram()[LINK_QUADRANT_X as int] ^ 1,
            ),
            final(final(self).ram)@ == final(old(self).ram)@,
    {
        self.ram[LINK_QUADRANT_X] ^= 1;
        self.ram[LINK_QUADRANT_X]
    }

    pub fn toggle_quadrant_y(&mut self) -> (result: u8)
        requires
            LINK_QUADRANT_Y < old(self).ram().len(),
        ensures
            result == (old(self).ram()[LINK_QUADRANT_Y as int] ^ 2),
            final(self).ram() == old(self).ram().update(
                LINK_QUADRANT_Y as int,
                old(self).ram()[LINK_QUADRANT_Y as int] ^ 2,
            ),
            final(final(self).ram)@ == final(old(self).ram)@,
    {
        self.ram[LINK_QUADRANT_Y] ^= 2;
        self.ram[LINK_QUADRANT_Y]
    }

    pub fn increment_orthogonal_direction_count(&mut self)
        requires
            LINK_NUM_ORTHOGONAL_DIRECTIONS < old(self).ram().len(),
        ensures
            final(self).ram() == old(self).ram().update(
                LINK_NUM_ORTHOGONAL_DIRECTIONS as int,
                old(self).ram()[LINK_NUM_ORTHOGONAL_DIRECTIONS as int].wrapping_add(1),
            ),
            final(final(self).ram)@ == final(old(self).ram)@,
    {
        self.ram[LINK_NUM_ORTHOGONAL_DIRECTIONS] = self.ram[LINK_NUM_ORTHOGONAL_DIRECTIONS].wrapping_add(1);
    }

    pub fn clear_orthogonal_direction_count(&mut self)
        requires
            LINK_NUM_ORTHOGONAL_DIRECTIONS < old(self).ram().len(),
        ensures
            final(self).ram() == old(self).ram().update(LINK_NUM_ORTHOGONAL_DIRECTIONS as int, 0u8),
            final(final(self).ram)@ == final(old(self).ram)@,
    {
        self.ram[LINK_NUM_ORTHOGONAL_DIRECTIONS] = 0;
    }

    pub fn set_last_direction_moved_towards(&mut self, value: u8)
        requires
            LINK_LAST_DIRECTION_MOVED_TOWARDS < old(self).ram().len(),
        ensures
            final(self).ram() == old(self).ram().update(
                LINK_LAST_DIRECTION_MOVED_TOWARDS as int,
                value,
            ),
            final(final(self).ram)@ == final(old(self).ram)@,
    {
        self.ram[LINK_LAST_DIRECTION_MOVED_TOWARDS] = value;
    }

    pub fn set_last_direction_from_current_direction(&mut self)
        requires
            LINK_LAST_DIRECTION < old(self).ram().len(),
            LINK_DIRECTION < old(self).ram().len(),
        ensures
            final(self).ram() == old(self).ram().update(
                LINK_LAST_DIRECTION as int,
                old(self).ram()[LINK_DIRECTION as int],
            ),
            final(final(self).ram)@ == final(old(self).ram)@,
    {
        self.ram[LINK_LAST_DIRECTION] = self.ram[LINK_DIRECTION];
    }

    pub fn set_last_direction(&mut self, value: u8)
        requires
            LINK_LAST_DIRECTION < old(self).ram().len(),
        ensures
            final(self).ram() == old(self).ram().update(LINK_LAST_DIRECTION as int, value),
            final(final(self).ram)@ == final(old(self).ram)@,
    {
        self.ram[LINK_LAST_DIRECTION] = value;
    }

    pub fn mask_last_direction(&mut self, mask: u8)
        requires
            LINK_LAST_DIRECTION < old(self).ram().len(),
        ensures
            final(self).ram() == old(self).ram().update(
                LINK_LAST_DIRECTION as int,
                old(self).ram()[LINK_LAST_DIRECTION as int] & mask,
            ),
            final(final(self).ram)@ == final(old(self).ram)@,
    {
        self.ram[LINK_LAST_DIRECTION] &= mask;
    }

    pub fn set_last_direction_from_swim_flags(&mut self)
        requires
            LINK_LAST_DIRECTION < old(self).ram().len(),
            SWIM_PLAYER_DIRECTION_FLAGS < old(self).ram().len(),
        ensures
            final(self).ram() == old(self).ram().update(
                LINK_LAST_DIRECTION as int,
                old(self).ram()[SWIM_PLAYER_DIRECTION_FLAGS as int],
            ),
            final(final(self).ram)@ == final(old(self).ram)@,
    {
        self.ram[LINK_LAST_DIRECTION] = self.ram[SWIM_PLAYER_DIRECTION_FLAGS];
    }

    pub fn set_swim_flags_from_last_direction(&mut self)
        requires
            SWIM_PLAYER_DIRECTION_FLAGS < old(self).ram().len(),
            LINK_LAST_DIRECTION < old(self).ram().len(),
        ensures
            final(self).ram() == old(self).ram().update(
                SWIM_PLAYER_DIRECTION_FLAGS as int,
                old(self).ram()[LINK_LAST_DIRECTION as int],
            ),
            final(final(self).ram)@ == final(old(self).ram)@,
    {
        self.ram[SWIM_PLAYER_DIRECTION_FLAGS] = self.ram[LINK_LAST_DIRECTION];
    }

    pub fn set_direction(&mut self, value: u8)
        requires
            LINK_DIRECTION < old(self).ram().len(),
        ensures
            final(self).ram() == old(self).ram().update(LINK_DIRECTION as int, value),
            final(final(self).ram)@ == final(old(self).ram)@,
    {
        self.ram[LINK_DIRECTION] = value;
    }

    pub fn set_direction_and_last_direction(&mut self, value: u8)
        requires
            LINK_DIRECTION < old(self).ram().len(),
            LINK_LAST_DIRECTION < old(self).ram().len(),
        ensures
            final(self).ram() == old(self).ram()
                .update(LINK_DIRECTION as int, value)
                .update(LINK_LAST_DIRECTION as int, value),
            final(final(self).ram)@ == final(old(self).ram)@,
    {
        self.ram[LINK_DIRECTION] = value;
        self.ram[LINK_LAST_DIRECTION] = value;
    }

    pub fn set_direction_and_swim_flags(&mut self, value: u8)
        requires
            LINK_DIRECTION < old(self).ram().len(),
            SWIM_PLAYER_DIRECTION_FLAGS < old(self).ram().len(),
        ensures
            final(self).ram() == old(self).ram()
                .update(LINK_DIRECTION as int, value)
                .update(SWIM_PLAYER_DIRECTION_FLAGS as int, value),
            final(final(self).ram)@ == final(old(self).ram)@,
    {
        self.ram[LINK_DIRECTION] = value;
        self.ram[SWIM_PLAYER_DIRECTION_FLAGS] = value;
    }

    pub fn mask_direction(&mut self, mask: u8)
        requires
            LINK_DIRECTION < old(self).ram().len(),
        ensures
            final(self).ram() == old(self).ram().update(
                LINK_DIRECTION as int,
                old(self).ram()[LINK_DIRECTION as int] & mask,
            ),
            final(final(self).ram)@ == final(old(self).ram)@,
    {
        self.ram[LINK_DIRECTION] &= mask;
    }

    pub fn clear_cardinal_direction(&mut self)
        requires
            LINK_DIRECTION < old(self).ram().len(),
        ensures
            final(self).ram() == old(self).ram().update(
                LINK_DIRECTION as int,
                old(self).ram()[LINK_DIRECTION as int] & (!0x0f),
            ),
            final(final(self).ram)@ == final(old(self).ram)@,
    {
        self.ram[LINK_DIRECTION] &= !0x0f;
    }

    pub fn add_direction_flags(&mut self, flags: u8)
        requires
            LINK_DIRECTION < old(self).ram().len(),
        ensures
            final(self).ram() == old(self).ram().update(
                LINK_DIRECTION as int,
                old(self).ram()[LINK_DIRECTION as int] | flags,
            ),
            final(final(self).ram)@ == final(old(self).ram)@,
    {
        self.ram[LINK_DIRECTION] |= flags;
    }

    pub fn clear_direction_flags(&mut self, flags: u8)
        requires
            LINK_DIRECTION < old(self).ram().len(),
        ensures
            final(self).ram() == old(self).ram().update(
                LINK_DIRECTION as int,
                old(self).ram()[LINK_DIRECTION as int] & (!flags),
            ),
            final(final(self).ram)@ == final(old(self).ram)@,
    {
        self.ram[LINK_DIRECTION] &= !flags;
    }

    pub fn set_direction_lock(&mut self, value: u8)
        requires
            LINK_CANT_CHANGE_DIRECTION < old(self).ram().len(),
        ensures
            final(self).ram() == old(self).ram().update(LINK_CANT_CHANGE_DIRECTION as int, value),
            final(final(self).ram)@ == final(old(self).ram)@,
    {
        self.ram[LINK_CANT_CHANGE_DIRECTION] = value;
    }

    pub fn clear_direction_lock(&mut self)
        requires
            LINK_CANT_CHANGE_DIRECTION < old(self).ram().len(),
        ensures
            final(self).ram() == old(self).ram().update(LINK_CANT_CHANGE_DIRECTION as int, 0u8),
            final(final(self).ram)@ == final(old(self).ram)@,
    {
        self.ram[LINK_CANT_CHANGE_DIRECTION] = 0;
    }

    pub fn set_direction_lock_bits(&mut self, mask: u8)
        requires
            LINK_CANT_CHANGE_DIRECTION < old(self).ram().len(),
        ensures
            final(self).ram() == old(self).ram().update(
                LINK_CANT_CHANGE_DIRECTION as int,
                old(self).ram()[LINK_CANT_CHANGE_DIRECTION as int] | mask,
            ),
            final(final(self).ram)@ == final(old(self).ram)@,
    {
        self.ram[LINK_CANT_CHANGE_DIRECTION] |= mask;
    }

    pub fn clear_direction_lock_bits(&mut self, mask: u8)
        requires
            LINK_CANT_CHANGE_DIRECTION < old(self).ram().len(),
        ensures
            final(self).ram() == old(self).ram().update(
                LINK_CANT_CHANGE_DIRECTION as int,
                old(self).ram()[LINK_CANT_CHANGE_DIRECTION as int] & (!mask),
            ),
            final(final(self).ram)@ == final(old(self).ram)@,
    {
        self.ram[LINK_CANT_CHANGE_DIRECTION] &= !mask;
    }

    pub fn set_direction_mask_a(&mut self, value: u8)
        requires
            LINK_DIRECTION_MASK_A < old(self).ram().len(),
        ensures
            final(self).ram() == old(self).ram().update(LINK_DIRECTION_MASK_A as int, value),
            final(final(self).ram)@ == final(old(self).ram)@,
    {
        self.ram[LINK_DIRECTION_MASK_A] = value;
    }

    pub fn set_direction_mask_b(&mut self, value: u8)
        requires
            LINK_DIRECTION_MASK_B < old(self).ram().len(),
        ensures
            final(self).ram() == old(self).ram().update(LINK_DIRECTION_MASK_B as int, value),
            final(final(self).ram)@ == final(old(self).ram)@,
    {
        self.ram[LINK_DIRECTION_MASK_B] = value;
    }

    pub fn apply_direction_masks(&mut self)
        requires
            LINK_DIRECTION < old(self).ram().len(),
            LINK_DIRECTION_MASK_A < old(self).ram().len(),
            LINK_DIRECTION_MASK_B < old(self).ram().len(),
        ensures
            final(self).ram() == old(self).ram().update(
                LINK_DIRECTION as int,
                old(self).ram()[LINK_DIRECTION as int] & (old(self).ram()[LINK_DIRECTION_MASK_A as int] & old(self).ram()[LINK_DIRECTION_MASK_B as int]),
            ),
            final(final(self).ram)@ == final(old(self).ram)@,
    {
        self.ram[LINK_DIRECTION] &= self.ram[LINK_DIRECTION_MASK_A] & self.ram[LINK_DIRECTION_MASK_B];
    }

    pub fn force_direction_from_diag_tile_if_needed(&mut self)
        requires
            LINK_DIRECTION < old(self).ram().len(),
            LINK_MOVING_AGAINST_DIAG_TILE < old(self).ram().len(),
        ensures
            final(self).ram() == (if ((old(self).ram()[LINK_DIRECTION as int] & 0x0fu8) != 0) && ((old(self).ram()[LINK_MOVING_AGAINST_DIAG_TILE as int] & 0x0fu8) != 0) {
                old(self).ram()
                    .update(
                        LINK_DIRECTION as int,
                        old(self).ram()[LINK_MOVING_AGAINST_DIAG_TILE as int] & 0x0fu8,
                    )
            } else {
                old(self).ram()
            }),
            final(final(self).ram)@ == final(old(self).ram)@,
    {
        if self.ram[LINK_DIRECTION] & 0x0f != 0 && self.ram[LINK_MOVING_AGAINST_DIAG_TILE] & 0x0f != 0 {
            self.ram[LINK_DIRECTION] = self.ram[LINK_MOVING_AGAINST_DIAG_TILE] & 0x0f;
        }
    }

    pub fn resolve_orthogonal_direction_count_from_facing(&mut self)
        requires
            LINK_NUM_ORTHOGONAL_DIRECTIONS < old(self).ram().len(),
            old(self).ram()[LINK_NUM_ORTHOGONAL_DIRECTIONS as int] == 2
                ==> LINK_FACING < old(self).ram().len(),
        ensures
            final(self).ram() == old(self).ram().update(
                LINK_NUM_ORTHOGONAL_DIRECTIONS as int,
                if old(self).ram()[LINK_NUM_ORTHOGONAL_DIRECTIONS as int] == 2u8 {
                    if (old(self).ram()[LINK_FACING as int] & 4u8) != 0u8 { 2u8 } else { 1u8 }
                } else {
                    0u8
                },
            ),
            final(final(self).ram)@ == final(old(self).ram)@,
    {
        self.ram[LINK_NUM_ORTHOGONAL_DIRECTIONS] = if self.ram[LINK_NUM_ORTHOGONAL_DIRECTIONS] == 2 {
            if self.ram[LINK_FACING] & 4 != 0 {
                2
            } else {
                1
            }
        } else {
            0
        };
    }

    pub fn mark_moving_floor_direction(&mut self, floor_y: u16, floor_x: u16)
        requires
            floor_y != 0 ==> LINK_DIRECTION < old(self).ram().len(),
            (floor_y == 0) && (floor_x != 0) ==> LINK_DIRECTION < old(self).ram().len(),
        ensures
            final(self).ram() == (if floor_y != 0 {
                if floor_x != 0 {
                    old(self).ram()
                        .update(
                            LINK_DIRECTION as int,
                            old(self).ram()[LINK_DIRECTION as int]
                                | (if (floor_y as i16) < 0 { 8 } else { 4 }),
                        )
                        .update(
                            LINK_DIRECTION as int,
                            (old(self).ram()[LINK_DIRECTION as int]
                                 | (if (floor_y as i16) < 0 { 8 } else { 4 }))
                                | (if (floor_x as i16) < 0 { 2 } else { 1 }),
                        )
                } else {
                    old(self).ram()
                        .update(
                            LINK_DIRECTION as int,
                            old(self).ram()[LINK_DIRECTION as int]
                                | (if (floor_y as i16) < 0 { 8 } else { 4 }),
                        )
                }
            } else if floor_x != 0 {
                old(self).ram()
                    .update(
                        LINK_DIRECTION as int,
                        old(self).ram()[LINK_DIRECTION as int]
                            | (if (floor_x as i16) < 0 { 2 } else { 1 }),
                    )
            } else {
                old(self).ram()
            }),
            final(final(self).ram)@ == final(old(self).ram)@,
    {
        if floor_y != 0 {
            self.ram[LINK_DIRECTION] |= if (floor_y as i16) < 0 {
                8
            } else {
                4
            };
        }
        if floor_x != 0 {
            self.ram[LINK_DIRECTION] |= if (floor_x as i16) < 0 {
                2
            } else {
                1
            };
        }
    }

    pub fn cache_moving_floor_position(&mut self, x: u16, y: u16)
        requires
            RELATED_TO_MOVING_FLOOR_Y + 1 < old(self).ram().len(),
            RELATED_TO_MOVING_FLOOR_X + 1 < old(self).ram().len(),
        ensures
            final(self).ram() == types::with_u16(
                types::with_u16(
                    old(self).ram(),
                    RELATED_TO_MOVING_FLOOR_Y as int,
                    y,
                ),
                RELATED_TO_MOVING_FLOOR_X as int,
                x,
            ),
            final(final(self).ram)@ == final(old(self).ram)@,
    {
        write_le_u16(self.ram, RELATED_TO_MOVING_FLOOR_Y, y);
        write_le_u16(self.ram, RELATED_TO_MOVING_FLOOR_X, x);
    }

    pub fn mark_lower_level(&mut self)
        requires
            LINK_IS_ON_LOWER_LEVEL < old(self).ram().len(),
        ensures
            final(self).ram() == old(self).ram().update(LINK_IS_ON_LOWER_LEVEL as int, 1u8),
            final(final(self).ram)@ == final(old(self).ram)@,
    {
        self.ram[LINK_IS_ON_LOWER_LEVEL] = 1;
    }

    pub fn mark_lower_level_mirror(&mut self)
        requires
            LINK_IS_ON_LOWER_LEVEL_MIRROR < old(self).ram().len(),
        ensures
            final(self).ram() == old(self).ram().update(LINK_IS_ON_LOWER_LEVEL_MIRROR as int, 1u8),
            final(final(self).ram)@ == final(old(self).ram)@,
    {
        self.ram[LINK_IS_ON_LOWER_LEVEL_MIRROR] = 1;
    }

    pub fn set_lower_level_state(&mut self, value: u8)
        requires
            LINK_IS_ON_LOWER_LEVEL < old(self).ram().len(),
        ensures
            final(self).ram() == old(self).ram().update(LINK_IS_ON_LOWER_LEVEL as int, value),
            final(final(self).ram)@ == final(old(self).ram)@,
    {
        self.ram[LINK_IS_ON_LOWER_LEVEL] = value;
    }

    pub fn set_lower_level_mirror_state(&mut self, value: u8)
        requires
            LINK_IS_ON_LOWER_LEVEL_MIRROR < old(self).ram().len(),
        ensures
            final(self).ram() == old(self).ram().update(
                LINK_IS_ON_LOWER_LEVEL_MIRROR as int,
                value,
            ),
            final(final(self).ram)@ == final(old(self).ram)@,
    {
        self.ram[LINK_IS_ON_LOWER_LEVEL_MIRROR] = value;
    }

    pub fn set_lower_level_states(&mut self, state: u8, mirror: u8)
        requires
            LINK_IS_ON_LOWER_LEVEL < old(self).ram().len(),
            LINK_IS_ON_LOWER_LEVEL_MIRROR < old(self).ram().len(),
        ensures
            final(self).ram() == old(self).ram()
                .update(LINK_IS_ON_LOWER_LEVEL as int, state)
                .update(LINK_IS_ON_LOWER_LEVEL_MIRROR as int, mirror),
            final(final(self).ram)@ == final(old(self).ram)@,
    {
        self.ram[LINK_IS_ON_LOWER_LEVEL] = state;
        self.ram[LINK_IS_ON_LOWER_LEVEL_MIRROR] = mirror;
    }

    pub fn clear_lower_level(&mut self)
        requires
            LINK_IS_ON_LOWER_LEVEL < old(self).ram().len(),
        ensures
            final(self).ram() == old(self).ram().update(LINK_IS_ON_LOWER_LEVEL as int, 0u8),
            final(final(self).ram)@ == final(old(self).ram)@,
    {
        self.ram[LINK_IS_ON_LOWER_LEVEL] = 0;
    }

    pub fn clear_lower_level_states(&mut self)
        requires
            LINK_IS_ON_LOWER_LEVEL < old(self).ram().len(),
            LINK_IS_ON_LOWER_LEVEL_MIRROR < old(self).ram().len(),
        ensures
            final(self).ram() == old(self).ram()
                .update(LINK_IS_ON_LOWER_LEVEL as int, 0u8)
                .update(LINK_IS_ON_LOWER_LEVEL_MIRROR as int, 0u8),
            final(final(self).ram)@ == final(old(self).ram)@,
    {
        self.ram[LINK_IS_ON_LOWER_LEVEL] = 0;
        self.ram[LINK_IS_ON_LOWER_LEVEL_MIRROR] = 0;
    }

    pub fn set_water_ripple_or_grass_state(&mut self, value: u8)
        requires
            DRAW_WATER_RIPPLES_OR_GRASS < old(self).ram().len(),
        ensures
            final(self).ram() == old(self).ram().update(DRAW_WATER_RIPPLES_OR_GRASS as int, value),
            final(final(self).ram)@ == final(old(self).ram)@,
    {
        self.ram[DRAW_WATER_RIPPLES_OR_GRASS] = value;
    }

    pub fn clear_water_ripple_or_grass_state(&mut self)
        requires
            DRAW_WATER_RIPPLES_OR_GRASS < old(self).ram().len(),
        ensures
            final(self).ram() == old(self).ram().update(DRAW_WATER_RIPPLES_OR_GRASS as int, 0u8),
            final(final(self).ram)@ == final(old(self).ram)@,
    {
        self.ram[DRAW_WATER_RIPPLES_OR_GRASS] = 0;
    }

    pub fn increment_water_ripple_or_grass_state(&mut self) -> (result: u8)
        requires
            DRAW_WATER_RIPPLES_OR_GRASS < old(self).ram().len(),
        ensures
            result == old(self).ram()[DRAW_WATER_RIPPLES_OR_GRASS as int].wrapping_add(1),
            final(self).ram() == old(self).ram().update(
                DRAW_WATER_RIPPLES_OR_GRASS as int,
                old(self).ram()[DRAW_WATER_RIPPLES_OR_GRASS as int].wrapping_add(1),
            ),
            final(final(self).ram)@ == final(old(self).ram)@,
    {
        self.ram[DRAW_WATER_RIPPLES_OR_GRASS] = self.ram[DRAW_WATER_RIPPLES_OR_GRASS].wrapping_add(1);
        self.ram[DRAW_WATER_RIPPLES_OR_GRASS]
    }

    pub fn toggle_lower_level_state(&mut self)
        requires
            LINK_IS_ON_LOWER_LEVEL < old(self).ram().len(),
        ensures
            final(self).ram() == old(self).ram().update(
                LINK_IS_ON_LOWER_LEVEL as int,
                old(self).ram()[LINK_IS_ON_LOWER_LEVEL as int] ^ 1,
            ),
            final(final(self).ram)@ == final(old(self).ram)@,
    {
        self.ram[LINK_IS_ON_LOWER_LEVEL] ^= 1;
    }

    pub fn toggle_lower_level_mirror_state(&mut self)
        requires
            LINK_IS_ON_LOWER_LEVEL_MIRROR < old(self).ram().len(),
        ensures
            final(self).ram() == old(self).ram().update(
                LINK_IS_ON_LOWER_LEVEL_MIRROR as int,
                old(self).ram()[LINK_IS_ON_LOWER_LEVEL_MIRROR as int] ^ 1,
            ),
            final(final(self).ram)@ == final(old(self).ram)@,
    {
        self.ram[LINK_IS_ON_LOWER_LEVEL_MIRROR] ^= 1;
    }

    pub fn mirror_lower_level_state(&mut self)
        requires
            LINK_IS_ON_LOWER_LEVEL_MIRROR < old(self).ram().len(),
            LINK_IS_ON_LOWER_LEVEL < old(self).ram().len(),
        ensures
            final(self).ram() == old(self).ram().update(
                LINK_IS_ON_LOWER_LEVEL_MIRROR as int,
                old(self).ram()[LINK_IS_ON_LOWER_LEVEL as int],
            ),
            final(final(self).ram)@ == final(old(self).ram)@,
    {
        self.ram[LINK_IS_ON_LOWER_LEVEL_MIRROR] = self.ram[LINK_IS_ON_LOWER_LEVEL];
    }

    pub fn set_actual_z_velocity(&mut self, value: u8)
        requires
            LINK_Z_VELOCITY < old(self).ram().len(),
        ensures
            final(self).ram() == old(self).ram().update(LINK_Z_VELOCITY as int, value),
            final(final(self).ram)@ == final(old(self).ram)@,
    {
        self.ram[LINK_Z_VELOCITY] = value;
    }

    pub fn set_recoil_z_velocity_for_dungeon_reset(&mut self, value: u8)
        requires
            LINK_RECOIL_Z_VELOCITY_DUNGEON < old(self).ram().len(),
        ensures
            final(self).ram() == old(self).ram().update(
                LINK_RECOIL_Z_VELOCITY_DUNGEON as int,
                value,
            ),
            final(final(self).ram)@ == final(old(self).ram)@,
    {
        self.ram[LINK_RECOIL_Z_VELOCITY_DUNGEON] = value;
    }

    pub fn set_recoil_z_velocity(&mut self, value: u8)
        requires
            LINK_RECOIL_Z_VELOCITY_DUNGEON < old(self).ram().len(),
        ensures
            final(self).ram() == old(self).ram().update(
                LINK_RECOIL_Z_VELOCITY_DUNGEON as int,
                value,
            ),
            final(final(self).ram)@ == final(old(self).ram)@,
    {
        self.ram[LINK_RECOIL_Z_VELOCITY_DUNGEON] = value;
    }

    pub fn set_actual_x_velocity(&mut self, value: u8)
        requires
            LINK_ACTUAL_X_VELOCITY < old(self).ram().len(),
        ensures
            final(self).ram() == old(self).ram().update(LINK_ACTUAL_X_VELOCITY as int, value),
            final(final(self).ram)@ == final(old(self).ram)@,
    {
        self.ram[LINK_ACTUAL_X_VELOCITY] = value;
    }

    pub fn set_actual_y_velocity(&mut self, value: u8)
        requires
            LINK_ACTUAL_Y_VELOCITY < old(self).ram().len(),
        ensures
            final(self).ram() == old(self).ram().update(LINK_ACTUAL_Y_VELOCITY as int, value),
            final(final(self).ram)@ == final(old(self).ram)@,
    {
        self.ram[LINK_ACTUAL_Y_VELOCITY] = value;
    }

    pub fn clear_actual_x_velocity(&mut self)
        requires
            LINK_ACTUAL_X_VELOCITY < old(self).ram().len(),
        ensures
            final(self).ram() == old(self).ram().update(LINK_ACTUAL_X_VELOCITY as int, 0u8),
            final(final(self).ram)@ == final(old(self).ram)@,
    {
        self.ram[LINK_ACTUAL_X_VELOCITY] = 0;
    }

    pub fn clear_actual_y_velocity(&mut self)
        requires
            LINK_ACTUAL_Y_VELOCITY < old(self).ram().len(),
        ensures
            final(self).ram() == old(self).ram().update(LINK_ACTUAL_Y_VELOCITY as int, 0u8),
            final(final(self).ram)@ == final(old(self).ram)@,
    {
        self.ram[LINK_ACTUAL_Y_VELOCITY] = 0;
    }

    pub fn set_actual_velocity_xy(&mut self, x: u8, y: u8)
        requires
            LINK_ACTUAL_X_VELOCITY < old(self).ram().len(),
            LINK_ACTUAL_Y_VELOCITY < old(self).ram().len(),
        ensures
            final(self).ram() == old(self).ram()
                .update(LINK_ACTUAL_X_VELOCITY as int, x)
                .update(LINK_ACTUAL_Y_VELOCITY as int, y),
            final(final(self).ram)@ == final(old(self).ram)@,
    {
        self.ram[LINK_ACTUAL_X_VELOCITY] = x;
        self.ram[LINK_ACTUAL_Y_VELOCITY] = y;
    }

    pub fn invert_actual_velocity_xy(&mut self)
        requires
            LINK_ACTUAL_X_VELOCITY < old(self).ram().len(),
            LINK_ACTUAL_Y_VELOCITY < old(self).ram().len(),
            old(self).ram()[LINK_ACTUAL_X_VELOCITY as int] as i8 != i8::MIN,
            old(self).ram()[LINK_ACTUAL_Y_VELOCITY as int] as i8 != i8::MIN,
        ensures
            final(self).ram() == old(self).ram().update(
                LINK_ACTUAL_X_VELOCITY as int,
                (-(old(self).ram()[LINK_ACTUAL_X_VELOCITY as int] as i8)) as u8,
            ).update(
                LINK_ACTUAL_Y_VELOCITY as int,
                (-(old(self).ram()[LINK_ACTUAL_Y_VELOCITY as int] as i8)) as u8,
            ),
            final(final(self).ram)@ == final(old(self).ram)@,
    {
        self.ram[LINK_ACTUAL_X_VELOCITY] = (-(self.ram[LINK_ACTUAL_X_VELOCITY] as i8)) as u8;
        self.ram[LINK_ACTUAL_Y_VELOCITY] = (-(self.ram[LINK_ACTUAL_Y_VELOCITY] as i8)) as u8;
    }

    pub fn xor_actual_velocity_xy(&mut self, mask: u8)
        requires
            LINK_ACTUAL_X_VELOCITY < old(self).ram().len(),
            LINK_ACTUAL_Y_VELOCITY < old(self).ram().len(),
        ensures
            final(self).ram() == old(self).ram()
                .update(
                    LINK_ACTUAL_X_VELOCITY as int,
                    old(self).ram()[LINK_ACTUAL_X_VELOCITY as int] ^ mask,
                )
                .update(
                    LINK_ACTUAL_Y_VELOCITY as int,
                    old(self).ram()[LINK_ACTUAL_Y_VELOCITY as int] ^ mask,
                ),
            final(final(self).ram)@ == final(old(self).ram)@,
    {
        self.ram[LINK_ACTUAL_X_VELOCITY] ^= mask;
        self.ram[LINK_ACTUAL_Y_VELOCITY] ^= mask;
    }

    pub fn derive_direction_from_actual_velocity(&mut self)
        requires
            LINK_DIRECTION < old(self).ram().len(),
            LINK_ACTUAL_Y_VELOCITY < old(self).ram().len(),
            LINK_ACTUAL_X_VELOCITY < old(self).ram().len(),
        ensures
            final(self).ram() == (if old(self).ram()[LINK_ACTUAL_Y_VELOCITY as int] != 0 {
                if old(self).ram()[LINK_ACTUAL_X_VELOCITY as int] != 0 {
                    old(self).ram()
                        .update(LINK_DIRECTION as int, 0u8)
                        .update(
                            LINK_DIRECTION as int,
                            0u8
                                | (if (old(self).ram()[LINK_ACTUAL_Y_VELOCITY as int] as i8) < 0 {
                                    8
                                } else {
                                    4
                                }),
                        )
                        .update(
                            LINK_DIRECTION as int,
                            (0u8
                                 | (if (old(self).ram()[LINK_ACTUAL_Y_VELOCITY as int] as i8) < 0 {
                                     8
                                 } else {
                                     4
                                 }))
                                | (if (old(self).ram()[LINK_ACTUAL_X_VELOCITY as int] as i8) < 0 {
                                    2
                                } else {
                                    1
                                }),
                        )
                } else {
                    old(self).ram()
                        .update(LINK_DIRECTION as int, 0u8)
                        .update(
                            LINK_DIRECTION as int,
                            0u8
                                | (if (old(self).ram()[LINK_ACTUAL_Y_VELOCITY as int] as i8) < 0 {
                                    8
                                } else {
                                    4
                                }),
                        )
                }
            } else if old(self).ram()[LINK_ACTUAL_X_VELOCITY as int] != 0 {
                old(self).ram()
                    .update(LINK_DIRECTION as int, 0u8)
                    .update(
                        LINK_DIRECTION as int,
                        0u8
                            | (if (old(self).ram()[LINK_ACTUAL_X_VELOCITY as int] as i8) < 0 {
                                2
                            } else {
                                1
                            }),
                    )
            } else {
                old(self).ram().update(LINK_DIRECTION as int, 0u8)
            }),
            final(final(self).ram)@ == final(old(self).ram)@,
    {
        self.ram[LINK_DIRECTION] = 0;
        if self.ram[LINK_ACTUAL_Y_VELOCITY] != 0 {
            self.ram[LINK_DIRECTION] |= if (self.ram[LINK_ACTUAL_Y_VELOCITY] as i8) < 0 {
                8
            } else {
                4
            };
        }
        if self.ram[LINK_ACTUAL_X_VELOCITY] != 0 {
            self.ram[LINK_DIRECTION] |= if (self.ram[LINK_ACTUAL_X_VELOCITY] as i8) < 0 {
                2
            } else {
                1
            };
        }
    }

    pub fn set_actual_velocity_from_direction(&mut self, direction: u8, velocity: u8)
        requires
            LINK_ACTUAL_X_VELOCITY < old(self).ram().len(),
            LINK_ACTUAL_Y_VELOCITY < old(self).ram().len(),
        ensures
            final(self).ram() == old(self).ram()
                .update(
                    LINK_ACTUAL_X_VELOCITY as int,
                    if (direction & 0x03u8) != 0 {
                        if (direction & 0x02u8) != 0 {
                            0u8.wrapping_sub(velocity)
                        } else {
                            velocity
                        }
                    } else {
                        0u8
                    },
                )
                .update(
                    LINK_ACTUAL_Y_VELOCITY as int,
                    if (direction & 0x0cu8) != 0 {
                        if (direction & 0x08u8) != 0 {
                            0u8.wrapping_sub(velocity)
                        } else {
                            velocity
                        }
                    } else {
                        0u8
                    },
                ),
            final(final(self).ram)@ == final(old(self).ram)@,
    {
        self.ram[LINK_ACTUAL_X_VELOCITY] = if direction & 0x03 != 0 {
            if direction & 0x02 != 0 {
                0u8.wrapping_sub(velocity)
            } else {
                velocity
            }
        } else {
            0
        };
        self.ram[LINK_ACTUAL_Y_VELOCITY] = if direction & 0x0c != 0 {
            if direction & 0x08 != 0 {
                0u8.wrapping_sub(velocity)
            } else {
                velocity
            }
        } else {
            0
        };
    }

    pub fn clear_actual_velocity_xy(&mut self)
        requires
            LINK_ACTUAL_X_VELOCITY < old(self).ram().len(),
            LINK_ACTUAL_Y_VELOCITY < old(self).ram().len(),
        ensures
            final(self).ram() == old(self).ram()
                .update(LINK_ACTUAL_X_VELOCITY as int, 0)
                .update(LINK_ACTUAL_Y_VELOCITY as int, 0),
            final(final(self).ram)@ == final(old(self).ram)@,
    {
        self.set_actual_velocity_xy(0, 0);
    }

    pub fn set_actual_z_velocity_and_copy(&mut self, value: u8)
        requires
            LINK_Z_VELOCITY < old(self).ram().len(),
            LINK_Z_VELOCITY_COPY < old(self).ram().len(),
        ensures
            final(self).ram() == old(self).ram()
                .update(LINK_Z_VELOCITY as int, value)
                .update(LINK_Z_VELOCITY_COPY as int, value),
            final(final(self).ram)@ == final(old(self).ram)@,
    {
        self.ram[LINK_Z_VELOCITY] = value;
        self.ram[LINK_Z_VELOCITY_COPY] = value;
    }

    pub fn set_actual_z_velocity_mirror_and_copy(&mut self, value: u8)
        requires
            LINK_Z_VELOCITY_MIRROR < old(self).ram().len(),
            LINK_Z_VELOCITY_COPY_MIRROR < old(self).ram().len(),
        ensures
            final(self).ram() == old(self).ram()
                .update(LINK_Z_VELOCITY_MIRROR as int, value)
                .update(LINK_Z_VELOCITY_COPY_MIRROR as int, value),
            final(final(self).ram)@ == final(old(self).ram)@,
    {
        self.ram[LINK_Z_VELOCITY_MIRROR] = value;
        self.ram[LINK_Z_VELOCITY_COPY_MIRROR] = value;
    }

    pub fn restore_actual_z_velocity_from_mirror(&mut self)
        requires
            LINK_Z_VELOCITY < old(self).ram().len(),
            LINK_Z_VELOCITY_MIRROR < old(self).ram().len(),
            LINK_Z_VELOCITY_COPY < old(self).ram().len(),
            LINK_Z_VELOCITY_COPY_MIRROR < old(self).ram().len(),
        ensures
            final(self).ram() == old(self).ram()
                .update(LINK_Z_VELOCITY as int, old(self).ram()[LINK_Z_VELOCITY_MIRROR as int])
                .update(
                    LINK_Z_VELOCITY_COPY as int,
                    old(self).ram()[LINK_Z_VELOCITY_COPY_MIRROR as int],
                ),
            final(final(self).ram)@ == final(old(self).ram)@,
    {
        self.ram[LINK_Z_VELOCITY] = self.ram[LINK_Z_VELOCITY_MIRROR];
        self.ram[LINK_Z_VELOCITY_COPY] = self.ram[LINK_Z_VELOCITY_COPY_MIRROR];
    }

    pub fn cache_actual_z_velocity_to_mirror(&mut self)
        requires
            LINK_Z_VELOCITY_MIRROR < old(self).ram().len(),
            LINK_Z_VELOCITY < old(self).ram().len(),
            LINK_Z_VELOCITY_COPY_MIRROR < old(self).ram().len(),
            LINK_Z_VELOCITY_COPY < old(self).ram().len(),
        ensures
            final(self).ram() == old(self).ram()
                .update(LINK_Z_VELOCITY_MIRROR as int, old(self).ram()[LINK_Z_VELOCITY as int])
                .update(
                    LINK_Z_VELOCITY_COPY_MIRROR as int,
                    old(self).ram()[LINK_Z_VELOCITY_COPY as int],
                ),
            final(final(self).ram)@ == final(old(self).ram)@,
    {
        self.ram[LINK_Z_VELOCITY_MIRROR] = self.ram[LINK_Z_VELOCITY];
        self.ram[LINK_Z_VELOCITY_COPY_MIRROR] = self.ram[LINK_Z_VELOCITY_COPY];
    }

    pub fn prime_airborne_z_velocity(&mut self)
        requires
            LINK_Z_VELOCITY < old(self).ram().len(),
            LINK_Z_COORD + 1 < old(self).ram().len(),
            LINK_Z_SUBPIXEL < old(self).ram().len(),
        ensures
            final(self).ram() == types::with_u16(old(self).ram().update(LINK_Z_VELOCITY as int, 0xffu8), LINK_Z_COORD as int, 0xffffu16)
                .update(LINK_Z_SUBPIXEL as int, 0u8),
            final(final(self).ram)@ == final(old(self).ram)@,
    {
        self.ram[LINK_Z_VELOCITY] = 0xff;
        write_le_u16(self.ram, LINK_Z_COORD, 0xffff);
        self.ram[LINK_Z_SUBPIXEL] = 0;
    }

    pub fn decrement_actual_z_velocity(&mut self, delta: u8)
        requires
            LINK_Z_VELOCITY < old(self).ram().len(),
        ensures
            final(self).ram() == old(self).ram().update(
                LINK_Z_VELOCITY as int,
                old(self).ram()[LINK_Z_VELOCITY as int].wrapping_sub(delta),
            ),
            final(final(self).ram)@ == final(old(self).ram)@,
    {
        self.ram[LINK_Z_VELOCITY] = self.ram[LINK_Z_VELOCITY].wrapping_sub(delta);
    }

    pub fn set_incapacitated_timer(&mut self, value: u8)
        requires
            LINK_INCAPACITATED_TIMER < old(self).ram().len(),
        ensures
            final(self).ram() == old(self).ram().update(LINK_INCAPACITATED_TIMER as int, value),
            final(final(self).ram)@ == final(old(self).ram)@,
    {
        self.ram[LINK_INCAPACITATED_TIMER] = value;
    }

    pub fn decrement_incapacitated_timer(&mut self) -> (result: u8)
        requires
            LINK_INCAPACITATED_TIMER < old(self).ram().len(),
        ensures
            result == old(self).ram()[LINK_INCAPACITATED_TIMER as int].wrapping_sub(1),
            final(self).ram() == old(self).ram().update(
                LINK_INCAPACITATED_TIMER as int,
                old(self).ram()[LINK_INCAPACITATED_TIMER as int].wrapping_sub(1),
            ),
            final(final(self).ram)@ == final(old(self).ram)@,
    {
        self.ram[LINK_INCAPACITATED_TIMER] = self.ram[LINK_INCAPACITATED_TIMER].wrapping_sub(1);
        self.ram[LINK_INCAPACITATED_TIMER]
    }

    pub fn reset_elapsed_incapacitated_timer(&mut self)
        requires
            LINK_INCAPACITATED_TIMER < old(self).ram().len(),
        ensures
            final(self).ram() == (if old(self).ram()[LINK_INCAPACITATED_TIMER as int] == 0 {
                old(self).ram().update(LINK_INCAPACITATED_TIMER as int, 1u8)
            } else {
                old(self).ram()
            }),
            final(final(self).ram)@ == final(old(self).ram)@,
    {
        if self.ram[LINK_INCAPACITATED_TIMER] == 0 {
            self.ram[LINK_INCAPACITATED_TIMER] = 1;
        }
    }

    pub fn set_recoil_timer(&mut self, value: u8)
        requires
            LINK_RECOIL_TIMER < old(self).ram().len(),
        ensures
            final(self).ram() == old(self).ram().update(LINK_RECOIL_TIMER as int, value),
            final(final(self).ram)@ == final(old(self).ram)@,
    {
        self.ram[LINK_RECOIL_TIMER] = value;
    }

    pub fn increment_recoil_timer(&mut self) -> (result: u8)
        requires
            LINK_RECOIL_TIMER < old(self).ram().len(),
        ensures
            result == old(self).ram()[LINK_RECOIL_TIMER as int].wrapping_add(1),
            final(self).ram() == old(self).ram().update(
                LINK_RECOIL_TIMER as int,
                old(self).ram()[LINK_RECOIL_TIMER as int].wrapping_add(1),
            ),
            final(final(self).ram)@ == final(old(self).ram)@,
    {
        self.ram[LINK_RECOIL_TIMER] = self.ram[LINK_RECOIL_TIMER].wrapping_add(1);
        self.ram[LINK_RECOIL_TIMER]
    }

    pub fn clear_speed_modifier(&mut self)
        requires
            LINK_SPEED_MODIFIER < old(self).ram().len(),
        ensures
            final(self).ram() == old(self).ram().update(LINK_SPEED_MODIFIER as int, 0u8),
            final(final(self).ram)@ == final(old(self).ram)@,
    {
        self.ram[LINK_SPEED_MODIFIER] = 0;
    }

    pub fn set_speed_modifier(&mut self, value: u8)
        requires
            LINK_SPEED_MODIFIER < old(self).ram().len(),
        ensures
            final(self).ram() == old(self).ram().update(LINK_SPEED_MODIFIER as int, value),
            final(final(self).ram)@ == final(old(self).ram)@,
    {
        self.ram[LINK_SPEED_MODIFIER] = value;
    }

    pub fn set_tile_below(&mut self, value: u8)
        requires
            LINK_TILE_BELOW < old(self).ram().len(),
        ensures
            final(self).ram() == old(self).ram().update(LINK_TILE_BELOW as int, value),
            final(final(self).ram)@ == final(old(self).ram)@,
    {
        self.ram[LINK_TILE_BELOW] = value;
    }

    pub fn advance_frame_change_counter(&mut self, delay: u8) -> (result: bool)
        requires
            LINK_FRAME_CHANGE_COUNTER < old(self).ram().len(),
        ensures
            result == (old(self).ram()[LINK_FRAME_CHANGE_COUNTER as int].wrapping_add(1) >= delay),
            final(self).ram() == (if old(self).ram()[LINK_FRAME_CHANGE_COUNTER as int].wrapping_add(1) >= delay {
                old(self).ram()
                    .update(
                        LINK_FRAME_CHANGE_COUNTER as int,
                        old(self).ram()[LINK_FRAME_CHANGE_COUNTER as int].wrapping_add(1),
                    )
                    .update(LINK_FRAME_CHANGE_COUNTER as int, 0u8)
            } else {
                old(self).ram()
                    .update(
                        LINK_FRAME_CHANGE_COUNTER as int,
                        old(self).ram()[LINK_FRAME_CHANGE_COUNTER as int].wrapping_add(1),
                    )
            }),
            final(final(self).ram)@ == final(old(self).ram)@,
    {
        self.ram[LINK_FRAME_CHANGE_COUNTER] = self.ram[LINK_FRAME_CHANGE_COUNTER].wrapping_add(1);
        if self.ram[LINK_FRAME_CHANGE_COUNTER] >= delay {
            self.ram[LINK_FRAME_CHANGE_COUNTER] = 0;
            true
        } else {
            false
        }
    }

    pub fn set_visibility_status(&mut self, value: u8)
        requires
            LINK_VISIBILITY_STATUS < old(self).ram().len(),
        ensures
            final(self).ram() == old(self).ram().update(LINK_VISIBILITY_STATUS as int, value),
            final(final(self).ram)@ == final(old(self).ram)@,
    {
        self.ram[LINK_VISIBILITY_STATUS] = value;
    }

    pub fn set_sprite_damage_disable_timer(&mut self, value: u8)
        requires
            LINK_DISABLE_SPRITE_DAMAGE < old(self).ram().len(),
        ensures
            final(self).ram() == old(self).ram().update(LINK_DISABLE_SPRITE_DAMAGE as int, value),
            final(final(self).ram)@ == final(old(self).ram)@,
    {
        self.ram[LINK_DISABLE_SPRITE_DAMAGE] = value;
    }

    pub fn clear_sprite_damage_disable_timer(&mut self)
        requires
            LINK_DISABLE_SPRITE_DAMAGE < old(self).ram().len(),
        ensures
            final(self).ram() == old(self).ram().update(LINK_DISABLE_SPRITE_DAMAGE as int, 0u8),
            final(final(self).ram)@ == final(old(self).ram)@,
    {
        self.ram[LINK_DISABLE_SPRITE_DAMAGE] = 0;
    }

    pub fn set_somaria_platform_state(&mut self, value: u8)
        requires
            PLAYER_ON_SOMARIA_PLATFORM < old(self).ram().len(),
        ensures
            final(self).ram() == old(self).ram().update(PLAYER_ON_SOMARIA_PLATFORM as int, value),
            final(final(self).ram)@ == final(old(self).ram)@,
    {
        self.ram[PLAYER_ON_SOMARIA_PLATFORM] = value;
    }

    pub fn clear_somaria_platform_state(&mut self)
        requires
            PLAYER_ON_SOMARIA_PLATFORM < old(self).ram().len(),
        ensures
            final(self).ram() == old(self).ram().update(PLAYER_ON_SOMARIA_PLATFORM as int, 0u8),
            final(final(self).ram)@ == final(old(self).ram)@,
    {
        self.ram[PLAYER_ON_SOMARIA_PLATFORM] = 0;
    }

    pub fn set_near_pit_state(&mut self, value: u8)
        requires
            PLAYER_NEAR_PIT_STATE < old(self).ram().len(),
        ensures
            final(self).ram() == old(self).ram().update(PLAYER_NEAR_PIT_STATE as int, value),
            final(final(self).ram)@ == final(old(self).ram)@,
    {
        self.ram[PLAYER_NEAR_PIT_STATE] = value;
    }

    pub fn clear_near_pit_state(&mut self)
        requires
            PLAYER_NEAR_PIT_STATE < old(self).ram().len(),
        ensures
            final(self).ram() == old(self).ram().update(PLAYER_NEAR_PIT_STATE as int, 0u8),
            final(final(self).ram)@ == final(old(self).ram)@,
    {
        self.ram[PLAYER_NEAR_PIT_STATE] = 0;
    }

    pub fn set_pit_data_index(&mut self, value: u8)
        requires
            PLAYER_PIT_DATA_INDEX < old(self).ram().len(),
        ensures
            final(self).ram() == old(self).ram().update(PLAYER_PIT_DATA_INDEX as int, value),
            final(final(self).ram)@ == final(old(self).ram)@,
    {
        self.ram[PLAYER_PIT_DATA_INDEX] = value;
    }

    pub fn clear_pit_data_index(&mut self)
        requires
            PLAYER_PIT_DATA_INDEX < old(self).ram().len(),
        ensures
            final(self).ram() == old(self).ram().update(PLAYER_PIT_DATA_INDEX as int, 0u8),
            final(final(self).ram)@ == final(old(self).ram)@,
    {
        self.ram[PLAYER_PIT_DATA_INDEX] = 0;
    }

    pub fn advance_pit_data_index(&mut self) -> (result: u8)
        requires
            PLAYER_PIT_DATA_INDEX < old(self).ram().len(),
        ensures
            result == old(self).ram()[PLAYER_PIT_DATA_INDEX as int].wrapping_add(1),
            final(self).ram() == old(self).ram().update(
                PLAYER_PIT_DATA_INDEX as int,
                old(self).ram()[PLAYER_PIT_DATA_INDEX as int].wrapping_add(1),
            ),
            final(final(self).ram)@ == final(old(self).ram)@,
    {
        self.ram[PLAYER_PIT_DATA_INDEX] = self.ram[PLAYER_PIT_DATA_INDEX].wrapping_add(1);
        self.ram[PLAYER_PIT_DATA_INDEX]
    }

    pub fn begin_pit_check(&mut self)
        requires
            PLAYER_PIT_DATA_INDEX < old(self).ram().len(),
            PLAYER_NEAR_PIT_STATE < old(self).ram().len(),
        ensures
            final(self).ram() == old(self).ram()
                .update(PLAYER_PIT_DATA_INDEX as int, 0u8)
                .update(PLAYER_NEAR_PIT_STATE as int, 1),
            final(final(self).ram)@ == final(old(self).ram)@,
    {
        self.clear_pit_data_index();
        self.set_near_pit_state(1);
    }

    pub fn clear_pit_state(&mut self)
        requires
            PLAYER_PIT_DATA_INDEX < old(self).ram().len(),
            PLAYER_NEAR_PIT_STATE < old(self).ram().len(),
        ensures
            final(self).ram() == old(self).ram()
                .update(PLAYER_PIT_DATA_INDEX as int, 0u8)
                .update(PLAYER_NEAR_PIT_STATE as int, 0u8),
            final(final(self).ram)@ == final(old(self).ram)@,
    {
        self.clear_pit_data_index();
        self.clear_near_pit_state();
    }

    pub fn set_hookshot_interlock(&mut self, value: u8)
        requires
            RELATED_TO_HOOKSHOT < old(self).ram().len(),
        ensures
            final(self).ram() == old(self).ram().update(RELATED_TO_HOOKSHOT as int, value),
            final(final(self).ram)@ == final(old(self).ram)@,
    {
        self.ram[RELATED_TO_HOOKSHOT] = value;
    }

    pub fn clear_hookshot_interlock(&mut self)
        requires
            RELATED_TO_HOOKSHOT < old(self).ram().len(),
        ensures
            final(self).ram() == old(self).ram().update(RELATED_TO_HOOKSHOT as int, 0u8),
            final(final(self).ram)@ == final(old(self).ram)@,
    {
        self.ram[RELATED_TO_HOOKSHOT] = 0;
    }

    pub fn xor_hookshot_interlock(&mut self, mask: u8)
        requires
            RELATED_TO_HOOKSHOT < old(self).ram().len(),
        ensures
            final(self).ram() == old(self).ram().update(
                RELATED_TO_HOOKSHOT as int,
                old(self).ram()[RELATED_TO_HOOKSHOT as int] ^ mask,
            ),
            final(final(self).ram)@ == final(old(self).ram)@,
    {
        self.ram[RELATED_TO_HOOKSHOT] ^= mask;
    }

    pub fn increment_sprite_damage_disable_timer(&mut self)
        requires
            LINK_DISABLE_SPRITE_DAMAGE < old(self).ram().len(),
        ensures
            final(self).ram() == old(self).ram().update(
                LINK_DISABLE_SPRITE_DAMAGE as int,
                old(self).ram()[LINK_DISABLE_SPRITE_DAMAGE as int].wrapping_add(1),
            ),
            final(final(self).ram)@ == final(old(self).ram)@,
    {
        self.ram[LINK_DISABLE_SPRITE_DAMAGE] = self.ram[LINK_DISABLE_SPRITE_DAMAGE].wrapping_add(1);
    }

    pub fn clear_electrocute_on_touch(&mut self)
        requires
            LINK_ELECTROCUTE_ON_TOUCH < old(self).ram().len(),
        ensures
            final(self).ram() == old(self).ram().update(LINK_ELECTROCUTE_ON_TOUCH as int, 0u8),
            final(final(self).ram)@ == final(old(self).ram)@,
    {
        self.ram[LINK_ELECTROCUTE_ON_TOUCH] = 0;
    }

    pub fn set_electrocute_on_touch(&mut self, value: u8)
        requires
            LINK_ELECTROCUTE_ON_TOUCH < old(self).ram().len(),
        ensures
            final(self).ram() == old(self).ram().update(LINK_ELECTROCUTE_ON_TOUCH as int, value),
            final(final(self).ram)@ == final(old(self).ram)@,
    {
        self.ram[LINK_ELECTROCUTE_ON_TOUCH] = value;
    }

    pub fn clear_conveyor_belt_state(&mut self)
        requires
            LINK_ON_CONVEYOR_BELT < old(self).ram().len(),
        ensures
            final(self).ram() == old(self).ram().update(LINK_ON_CONVEYOR_BELT as int, 0u8),
            final(final(self).ram)@ == final(old(self).ram)@,
    {
        self.ram[LINK_ON_CONVEYOR_BELT] = 0;
    }

    pub fn clear_faint_animation_active(&mut self)
        requires
            LINK_FAINT_ANIMATION_ACTIVE < old(self).ram().len(),
        ensures
            final(self).ram() == old(self).ram().update(LINK_FAINT_ANIMATION_ACTIVE as int, 0u8),
            final(final(self).ram)@ == final(old(self).ram)@,
    {
        self.ram[LINK_FAINT_ANIMATION_ACTIVE] = 0;
    }

    pub fn clear_hookshot_grave_latch(&mut self)
        requires
            LINK_SOMETHING_WITH_HOOKSHOT < old(self).ram().len(),
        ensures
            final(self).ram() == old(self).ram().update(LINK_SOMETHING_WITH_HOOKSHOT as int, 0u8),
            final(final(self).ram)@ == final(old(self).ram)@,
    {
        self.ram[LINK_SOMETHING_WITH_HOOKSHOT] = 0;
    }

    pub fn set_hookshot_grave_latch(&mut self)
        requires
            LINK_SOMETHING_WITH_HOOKSHOT < old(self).ram().len(),
        ensures
            final(self).ram() == old(self).ram().update(LINK_SOMETHING_WITH_HOOKSHOT as int, 1u8),
            final(final(self).ram)@ == final(old(self).ram)@,
    {
        self.ram[LINK_SOMETHING_WITH_HOOKSHOT] = 1;
    }

    pub fn set_conveyor_belt_state(&mut self, value: u8)
        requires
            LINK_ON_CONVEYOR_BELT < old(self).ram().len(),
        ensures
            final(self).ram() == old(self).ram().update(LINK_ON_CONVEYOR_BELT as int, value),
            final(final(self).ram)@ == final(old(self).ram)@,
    {
        self.ram[LINK_ON_CONVEYOR_BELT] = value;
    }

    pub fn set_deep_water_state(&mut self, value: u8)
        requires
            LINK_IS_IN_DEEP_WATER < old(self).ram().len(),
        ensures
            final(self).ram() == old(self).ram().update(LINK_IS_IN_DEEP_WATER as int, value),
            final(final(self).ram)@ == final(old(self).ram)@,
    {
        self.ram[LINK_IS_IN_DEEP_WATER] = value;
    }

    pub fn enter_deep_water_state(&mut self)
        requires
            LINK_IS_IN_DEEP_WATER < old(self).ram().len(),
        ensures
            final(self).ram() == old(self).ram().update(LINK_IS_IN_DEEP_WATER as int, 1u8),
            final(final(self).ram)@ == final(old(self).ram)@,
    {
        self.ram[LINK_IS_IN_DEEP_WATER] = 1;
    }

    pub fn clear_deep_water_state(&mut self)
        requires
            LINK_IS_IN_DEEP_WATER < old(self).ram().len(),
        ensures
            final(self).ram() == old(self).ram().update(LINK_IS_IN_DEEP_WATER as int, 0u8),
            final(final(self).ram)@ == final(old(self).ram)@,
    {
        self.ram[LINK_IS_IN_DEEP_WATER] = 0;
    }

    pub fn clear_whirlpool_trigger(&mut self)
        requires
            LINK_TRIGGERED_BY_WHIRLPOOL_SPRITE < old(self).ram().len(),
        ensures
            final(self).ram() == old(self).ram().update(
                LINK_TRIGGERED_BY_WHIRLPOOL_SPRITE as int,
                0u8,
            ),
            final(final(self).ram)@ == final(old(self).ram)@,
    {
        self.ram[LINK_TRIGGERED_BY_WHIRLPOOL_SPRITE] = 0;
    }

    pub fn set_whirlpool_trigger(&mut self)
        requires
            LINK_TRIGGERED_BY_WHIRLPOOL_SPRITE < old(self).ram().len(),
        ensures
            final(self).ram() == old(self).ram().update(
                LINK_TRIGGERED_BY_WHIRLPOOL_SPRITE as int,
                1u8,
            ),
            final(final(self).ram)@ == final(old(self).ram)@,
    {
        self.ram[LINK_TRIGGERED_BY_WHIRLPOOL_SPRITE] = 1;
    }

    pub fn whirlpool_triggered(&self) -> (result: bool)
        ensures
            result == (access::byte_at(self.ram(), LINK_TRIGGERED_BY_WHIRLPOOL_SPRITE as int) != 0),
    {
        byte(self.ram, LINK_TRIGGERED_BY_WHIRLPOOL_SPRITE) != 0
    }

    pub fn set_dash_noise_request(&mut self)
        requires
            LINK_WANT_MAKE_NOISE_WHEN_DASHED < old(self).ram().len(),
        ensures
            final(self).ram() == old(self).ram().update(
                LINK_WANT_MAKE_NOISE_WHEN_DASHED as int,
                1u8,
            ),
            final(final(self).ram)@ == final(old(self).ram)@,
    {
        self.ram[LINK_WANT_MAKE_NOISE_WHEN_DASHED] = 1;
    }

    pub fn clear_dash_noise_request(&mut self)
        requires
            LINK_WANT_MAKE_NOISE_WHEN_DASHED < old(self).ram().len(),
        ensures
            final(self).ram() == old(self).ram().update(
                LINK_WANT_MAKE_NOISE_WHEN_DASHED as int,
                0u8,
            ),
            final(final(self).ram)@ == final(old(self).ram)@,
    {
        self.ram[LINK_WANT_MAKE_NOISE_WHEN_DASHED] = 0;
    }

    pub fn decrement_incapacitated_camera_timer(&mut self) -> (result: u8)
        requires
            LINK_INCAPACITATED_CAMERA_TIMER < old(self).ram().len(),
        ensures
            result == old(self).ram()[LINK_INCAPACITATED_CAMERA_TIMER as int].wrapping_sub(1),
            final(self).ram() == old(self).ram().update(
                LINK_INCAPACITATED_CAMERA_TIMER as int,
                old(self).ram()[LINK_INCAPACITATED_CAMERA_TIMER as int].wrapping_sub(1),
            ),
            final(final(self).ram)@ == final(old(self).ram)@,
    {
        self.ram[LINK_INCAPACITATED_CAMERA_TIMER] = self.ram[LINK_INCAPACITATED_CAMERA_TIMER].wrapping_sub(1);
        self.ram[LINK_INCAPACITATED_CAMERA_TIMER]
    }

    pub fn reset_incapacitated_camera_timer_from_incapacitated(&mut self)
        requires
            LINK_INCAPACITATED_CAMERA_TIMER < old(self).ram().len(),
            LINK_INCAPACITATED_TIMER < old(self).ram().len(),
        ensures
            final(self).ram() == old(self).ram().update(
                LINK_INCAPACITATED_CAMERA_TIMER as int,
                old(self).ram()[LINK_INCAPACITATED_TIMER as int] >> 4,
            ),
            final(final(self).ram)@ == final(old(self).ram)@,
    {
        self.ram[LINK_INCAPACITATED_CAMERA_TIMER] = self.ram[LINK_INCAPACITATED_TIMER] >> 4;
    }

    pub fn tick_jump_ledge_timer_or_reset(&mut self) -> (result: bool)
        requires
            LINK_TIMER_JUMP_LEDGE < old(self).ram().len(),
        ensures
            result == ((old(self).ram()[LINK_TIMER_JUMP_LEDGE as int].wrapping_sub(1) as i8) < 0),
            final(self).ram() == (if (old(self).ram()[LINK_TIMER_JUMP_LEDGE as int].wrapping_sub(1) as i8) < 0 {
                old(self).ram()
                    .update(
                        LINK_TIMER_JUMP_LEDGE as int,
                        old(self).ram()[LINK_TIMER_JUMP_LEDGE as int].wrapping_sub(1),
                    )
                    .update(LINK_TIMER_JUMP_LEDGE as int, 19u8)
            } else {
                old(self).ram()
                    .update(
                        LINK_TIMER_JUMP_LEDGE as int,
                        old(self).ram()[LINK_TIMER_JUMP_LEDGE as int].wrapping_sub(1),
                    )
            }),
            final(final(self).ram)@ == final(old(self).ram)@,
    {
        self.ram[LINK_TIMER_JUMP_LEDGE] = self.ram[LINK_TIMER_JUMP_LEDGE].wrapping_sub(1);
        if (self.ram[LINK_TIMER_JUMP_LEDGE] as i8) < 0 {
            self.ram[LINK_TIMER_JUMP_LEDGE] = 19;
            true
        } else {
            false
        }
    }

    pub fn reset_jump_ledge_timer(&mut self)
        requires
            LINK_TIMER_JUMP_LEDGE < old(self).ram().len(),
        ensures
            final(self).ram() == old(self).ram().update(LINK_TIMER_JUMP_LEDGE as int, 19u8),
            final(final(self).ram)@ == final(old(self).ram)@,
    {
        self.ram[LINK_TIMER_JUMP_LEDGE] = 19;
    }

    pub fn set_spin_attack_delay_timer(&mut self, value: u8)
        requires
            LINK_DELAY_TIMER_SPIN_ATTACK < old(self).ram().len(),
        ensures
            final(self).ram() == old(self).ram().update(LINK_DELAY_TIMER_SPIN_ATTACK as int, value),
            final(final(self).ram)@ == final(old(self).ram)@,
    {
        self.ram[LINK_DELAY_TIMER_SPIN_ATTACK] = value;
    }

    pub fn decrement_spin_attack_delay_timer(&mut self) -> (result: u8)
        requires
            LINK_DELAY_TIMER_SPIN_ATTACK < old(self).ram().len(),
        ensures
            result == old(self).ram()[LINK_DELAY_TIMER_SPIN_ATTACK as int].wrapping_sub(1),
            final(self).ram() == old(self).ram().update(
                LINK_DELAY_TIMER_SPIN_ATTACK as int,
                old(self).ram()[LINK_DELAY_TIMER_SPIN_ATTACK as int].wrapping_sub(1),
            ),
            final(final(self).ram)@ == final(old(self).ram)@,
    {
        self.ram[LINK_DELAY_TIMER_SPIN_ATTACK] = self.ram[LINK_DELAY_TIMER_SPIN_ATTACK].wrapping_sub(1);
        self.ram[LINK_DELAY_TIMER_SPIN_ATTACK]
    }

    pub fn decrement_sword_delay_timer(&mut self) -> (result: u8)
        requires
            LINK_SWORD_DELAY_TIMER < old(self).ram().len(),
        ensures
            result == old(self).ram()[LINK_SWORD_DELAY_TIMER as int].wrapping_sub(1),
            final(self).ram() == old(self).ram().update(
                LINK_SWORD_DELAY_TIMER as int,
                old(self).ram()[LINK_SWORD_DELAY_TIMER as int].wrapping_sub(1),
            ),
            final(final(self).ram)@ == final(old(self).ram)@,
    {
        self.ram[LINK_SWORD_DELAY_TIMER] = self.ram[LINK_SWORD_DELAY_TIMER].wrapping_sub(1);
        self.ram[LINK_SWORD_DELAY_TIMER]
    }

    pub fn set_sword_delay_timer(&mut self, value: u8)
        requires
            LINK_SWORD_DELAY_TIMER < old(self).ram().len(),
        ensures
            final(self).ram() == old(self).ram().update(LINK_SWORD_DELAY_TIMER as int, value),
            final(final(self).ram)@ == final(old(self).ram)@,
    {
        self.ram[LINK_SWORD_DELAY_TIMER] = value;
    }

    pub fn clear_sword_delay_timer(&mut self)
        requires
            LINK_SWORD_DELAY_TIMER < old(self).ram().len(),
        ensures
            final(self).ram() == old(self).ram().update(LINK_SWORD_DELAY_TIMER as int, 0u8),
            final(final(self).ram)@ == final(old(self).ram)@,
    {
        self.ram[LINK_SWORD_DELAY_TIMER] = 0;
    }

    pub fn set_dash_countdown(&mut self, value: u8)
        requires
            LINK_COUNTDOWN_FOR_DASH < old(self).ram().len(),
        ensures
            final(self).ram() == old(self).ram().update(LINK_COUNTDOWN_FOR_DASH as int, value),
            final(final(self).ram)@ == final(old(self).ram)@,
    {
        self.ram[LINK_COUNTDOWN_FOR_DASH] = value;
    }

    pub fn set_dash_counter(&mut self, value: u8)
        requires
            LINK_DASH_COUNTER < old(self).ram().len(),
        ensures
            final(self).ram() == old(self).ram().update(LINK_DASH_COUNTER as int, value),
            final(final(self).ram)@ == final(old(self).ram)@,
    {
        self.ram[LINK_DASH_COUNTER] = value;
    }

    pub fn prime_dash_counter(&mut self)
        requires
            LINK_DASH_COUNTER < old(self).ram().len(),
        ensures
            final(self).ram() == old(self).ram().update(LINK_DASH_COUNTER as int, 64u8),
            final(final(self).ram)@ == final(old(self).ram)@,
    {
        self.ram[LINK_DASH_COUNTER] = 64;
    }

    pub fn decrement_dash_counter_clamped_to_minimum(&mut self, minimum: u8)
        requires
            LINK_DASH_COUNTER < old(self).ram().len(),
        ensures
            final(self).ram() == (if old(self).ram()[LINK_DASH_COUNTER as int].wrapping_sub(1) < minimum {
                old(self).ram()
                    .update(
                        LINK_DASH_COUNTER as int,
                        old(self).ram()[LINK_DASH_COUNTER as int].wrapping_sub(1),
                    )
                    .update(LINK_DASH_COUNTER as int, minimum)
            } else {
                old(self).ram()
                    .update(
                        LINK_DASH_COUNTER as int,
                        old(self).ram()[LINK_DASH_COUNTER as int].wrapping_sub(1),
                    )
            }),
            final(final(self).ram)@ == final(old(self).ram)@,
    {
        self.ram[LINK_DASH_COUNTER] = self.ram[LINK_DASH_COUNTER].wrapping_sub(1);
        if self.ram[LINK_DASH_COUNTER] < minimum {
            self.ram[LINK_DASH_COUNTER] = minimum;
        }
    }

    pub fn increment_dash_countdown(&mut self) -> (result: u8)
        requires
            LINK_COUNTDOWN_FOR_DASH < old(self).ram().len(),
        ensures
            result == old(self).ram()[LINK_COUNTDOWN_FOR_DASH as int].wrapping_add(1),
            final(self).ram() == old(self).ram().update(
                LINK_COUNTDOWN_FOR_DASH as int,
                old(self).ram()[LINK_COUNTDOWN_FOR_DASH as int].wrapping_add(1),
            ),
            final(final(self).ram)@ == final(old(self).ram)@,
    {
        self.ram[LINK_COUNTDOWN_FOR_DASH] = self.ram[LINK_COUNTDOWN_FOR_DASH].wrapping_add(1);
        self.ram[LINK_COUNTDOWN_FOR_DASH]
    }

    pub fn decrement_dash_countdown(&mut self) -> (result: u8)
        requires
            LINK_COUNTDOWN_FOR_DASH < old(self).ram().len(),
        ensures
            result == old(self).ram()[LINK_COUNTDOWN_FOR_DASH as int].wrapping_sub(1),
            final(self).ram() == old(self).ram().update(
                LINK_COUNTDOWN_FOR_DASH as int,
                old(self).ram()[LINK_COUNTDOWN_FOR_DASH as int].wrapping_sub(1),
            ),
            final(final(self).ram)@ == final(old(self).ram)@,
    {
        self.ram[LINK_COUNTDOWN_FOR_DASH] = self.ram[LINK_COUNTDOWN_FOR_DASH].wrapping_sub(1);
        self.ram[LINK_COUNTDOWN_FOR_DASH]
    }

    pub fn set_cape_mode(&mut self, value: u8)
        requires
            LINK_CAPE_MODE < old(self).ram().len(),
        ensures
            final(self).ram() == old(self).ram().update(LINK_CAPE_MODE as int, value),
            final(final(self).ram)@ == final(old(self).ram)@,
    {
        self.ram[LINK_CAPE_MODE] = value;
    }

    pub fn clear_cape_mode(&mut self)
        requires
            LINK_CAPE_MODE < old(self).ram().len(),
        ensures
            final(self).ram() == old(self).ram().update(LINK_CAPE_MODE as int, 0u8),
            final(final(self).ram)@ == final(old(self).ram)@,
    {
        self.ram[LINK_CAPE_MODE] = 0;
    }

    pub fn increment_opening_pose(&mut self)
        requires
            LINK_POSE_DURING_OPENING < old(self).ram().len(),
        ensures
            final(self).ram() == old(self).ram().update(
                LINK_POSE_DURING_OPENING as int,
                old(self).ram()[LINK_POSE_DURING_OPENING as int].wrapping_add(1),
            ),
            final(final(self).ram)@ == final(old(self).ram)@,
    {
        self.ram[LINK_POSE_DURING_OPENING] = self.ram[LINK_POSE_DURING_OPENING].wrapping_add(1);
    }

    pub fn set_item_action_debug_value_2(&mut self, value: u8)
        requires
            LINK_DEBUG_VALUE_2 < old(self).ram().len(),
        ensures
            final(self).ram() == old(self).ram().update(LINK_DEBUG_VALUE_2 as int, value),
            final(final(self).ram)@ == final(old(self).ram)@,
    {
        self.ram[LINK_DEBUG_VALUE_2] = value;
    }

    pub fn clear_spin_attack_step_counter(&mut self)
        requires
            LINK_SPIN_ATTACK_STEP_COUNTER < old(self).ram().len(),
        ensures
            final(self).ram() == old(self).ram().update(LINK_SPIN_ATTACK_STEP_COUNTER as int, 0u8),
            final(final(self).ram)@ == final(old(self).ram)@,
    {
        self.ram[LINK_SPIN_ATTACK_STEP_COUNTER] = 0;
    }

    pub fn increment_spin_attack_step_counter(&mut self) -> (result: u8)
        requires
            LINK_SPIN_ATTACK_STEP_COUNTER < old(self).ram().len(),
        ensures
            result == old(self).ram()[LINK_SPIN_ATTACK_STEP_COUNTER as int].wrapping_add(1),
            final(self).ram() == old(self).ram().update(
                LINK_SPIN_ATTACK_STEP_COUNTER as int,
                old(self).ram()[LINK_SPIN_ATTACK_STEP_COUNTER as int].wrapping_add(1),
            ),
            final(final(self).ram)@ == final(old(self).ram)@,
    {
        self.ram[LINK_SPIN_ATTACK_STEP_COUNTER] = self.ram[LINK_SPIN_ATTACK_STEP_COUNTER].wrapping_add(1);
        self.ram[LINK_SPIN_ATTACK_STEP_COUNTER]
    }

    pub fn increment_spin_animation_step_counter(&mut self) -> (result: u8)
        requires
            STEP_COUNTER_FOR_SPIN_ATTACK < old(self).ram().len(),
        ensures
            result == old(self).ram()[STEP_COUNTER_FOR_SPIN_ATTACK as int].wrapping_add(1),
            final(self).ram() == old(self).ram().update(
                STEP_COUNTER_FOR_SPIN_ATTACK as int,
                old(self).ram()[STEP_COUNTER_FOR_SPIN_ATTACK as int].wrapping_add(1),
            ),
            final(final(self).ram)@ == final(old(self).ram)@,
    {
        self.ram[STEP_COUNTER_FOR_SPIN_ATTACK] = self.ram[STEP_COUNTER_FOR_SPIN_ATTACK].wrapping_add(1);
        self.ram[STEP_COUNTER_FOR_SPIN_ATTACK]
    }

    pub fn clear_spin_animation_step_counter(&mut self)
        requires
            STEP_COUNTER_FOR_SPIN_ATTACK < old(self).ram().len(),
        ensures
            final(self).ram() == old(self).ram().update(STEP_COUNTER_FOR_SPIN_ATTACK as int, 0u8),
            final(final(self).ram)@ == final(old(self).ram)@,
    {
        self.ram[STEP_COUNTER_FOR_SPIN_ATTACK] = 0;
    }

    pub fn set_spin_offsets(&mut self, value: u8)
        requires
            LINK_SPIN_OFFSETS < old(self).ram().len(),
        ensures
            final(self).ram() == old(self).ram().update(LINK_SPIN_OFFSETS as int, value),
            final(final(self).ram)@ == final(old(self).ram)@,
    {
        self.ram[LINK_SPIN_OFFSETS] = value;
    }

    pub fn clear_button_b_frames(&mut self)
        requires
            BUTTON_B_FRAMES < old(self).ram().len(),
        ensures
            final(self).ram() == old(self).ram().update(BUTTON_B_FRAMES as int, 0u8),
            final(final(self).ram)@ == final(old(self).ram)@,
    {
        self.ram[BUTTON_B_FRAMES] = 0;
    }

    pub fn clear_button_mask_b_y(&mut self)
        requires
            BUTTON_MASK_B_Y < old(self).ram().len(),
        ensures
            final(self).ram() == old(self).ram().update(BUTTON_MASK_B_Y as int, 0u8),
            final(final(self).ram)@ == final(old(self).ram)@,
    {
        self.ram[BUTTON_MASK_B_Y] = 0;
    }

    pub fn set_button_mask_b_y(&mut self, value: u8)
        requires
            BUTTON_MASK_B_Y < old(self).ram().len(),
        ensures
            final(self).ram() == old(self).ram().update(BUTTON_MASK_B_Y as int, value),
            final(final(self).ram)@ == final(old(self).ram)@,
    {
        self.ram[BUTTON_MASK_B_Y] = value;
    }

    pub fn add_button_mask_b_y_bits(&mut self, bits: u8)
        requires
            BUTTON_MASK_B_Y < old(self).ram().len(),
        ensures
            final(self).ram() == old(self).ram().update(
                BUTTON_MASK_B_Y as int,
                old(self).ram()[BUTTON_MASK_B_Y as int] | bits,
            ),
            final(final(self).ram)@ == final(old(self).ram)@,
    {
        self.ram[BUTTON_MASK_B_Y] |= bits;
    }

    pub fn clear_button_mask_b_y_bits(&mut self, bits: u8)
        requires
            BUTTON_MASK_B_Y < old(self).ram().len(),
        ensures
            final(self).ram() == old(self).ram().update(
                BUTTON_MASK_B_Y as int,
                old(self).ram()[BUTTON_MASK_B_Y as int] & (!bits),
            ),
            final(final(self).ram)@ == final(old(self).ram)@,
    {
        self.ram[BUTTON_MASK_B_Y] &= !bits;
    }

    pub fn set_button_b_frames(&mut self, value: u8)
        requires
            BUTTON_B_FRAMES < old(self).ram().len(),
        ensures
            final(self).ram() == old(self).ram().update(BUTTON_B_FRAMES as int, value),
            final(final(self).ram)@ == final(old(self).ram)@,
    {
        self.ram[BUTTON_B_FRAMES] = value;
    }

    pub fn set_button_b_frames_word(&mut self, value: u16)
        requires
            BUTTON_B_FRAMES + 1 < old(self).ram().len(),
        ensures
            final(self).ram() == types::with_u16(old(self).ram(), BUTTON_B_FRAMES as int, value),
            final(final(self).ram)@ == final(old(self).ram)@,
    {
        write_le_u16(self.ram, BUTTON_B_FRAMES, value);
    }

    pub fn decrement_button_b_frames_word(&mut self) -> (result: u16)
        requires
            BUTTON_B_FRAMES + 1 < old(self).ram().len(),
        ensures
            result == types::u16_at(old(self).ram(), BUTTON_B_FRAMES as int).wrapping_sub(1),
            final(self).ram() == types::with_u16(
                old(self).ram(),
                BUTTON_B_FRAMES as int,
                types::u16_at(old(self).ram(), BUTTON_B_FRAMES as int)
                    .wrapping_sub(1),
            ),
            final(final(self).ram)@ == final(old(self).ram)@,
    {
        let frames = read_le_u16(self.ram, BUTTON_B_FRAMES).wrapping_sub(1);
        write_le_u16(self.ram, BUTTON_B_FRAMES, frames);
        frames
    }

    pub fn increment_button_b_frames(&mut self) -> (result: u8)
        requires
            BUTTON_B_FRAMES < old(self).ram().len(),
        ensures
            result == old(self).ram()[BUTTON_B_FRAMES as int].wrapping_add(1),
            final(self).ram() == old(self).ram().update(
                BUTTON_B_FRAMES as int,
                old(self).ram()[BUTTON_B_FRAMES as int].wrapping_add(1),
            ),
            final(final(self).ram)@ == final(old(self).ram)@,
    {
        self.ram[BUTTON_B_FRAMES] = self.ram[BUTTON_B_FRAMES].wrapping_add(1);
        self.ram[BUTTON_B_FRAMES]
    }

    pub fn set_y_button_action_flags(&mut self, value: u8)
        requires
            Y_BUTTON_ACTION_FLAGS < old(self).ram().len(),
        ensures
            final(self).ram() == old(self).ram().update(Y_BUTTON_ACTION_FLAGS as int, value),
            final(final(self).ram)@ == final(old(self).ram)@,
    {
        self.ram[Y_BUTTON_ACTION_FLAGS] = value;
    }

    pub fn add_y_button_action_flag_bits(&mut self, bits: u8)
        requires
            Y_BUTTON_ACTION_FLAGS < old(self).ram().len(),
        ensures
            final(self).ram() == old(self).ram().update(
                Y_BUTTON_ACTION_FLAGS as int,
                old(self).ram()[Y_BUTTON_ACTION_FLAGS as int] | bits,
            ),
            final(final(self).ram)@ == final(old(self).ram)@,
    {
        self.ram[Y_BUTTON_ACTION_FLAGS] |= bits;
    }

    pub fn clear_y_button_action_flags(&mut self)
        requires
            Y_BUTTON_ACTION_FLAGS < old(self).ram().len(),
        ensures
            final(self).ram() == old(self).ram().update(Y_BUTTON_ACTION_FLAGS as int, 0u8),
            final(final(self).ram)@ == final(old(self).ram)@,
    {
        self.ram[Y_BUTTON_ACTION_FLAGS] = 0;
    }

    pub fn set_y_button_action_step(&mut self, value: u8)
        requires
            Y_BUTTON_ACTION_STEP < old(self).ram().len(),
        ensures
            final(self).ram() == old(self).ram().update(Y_BUTTON_ACTION_STEP as int, value),
            final(final(self).ram)@ == final(old(self).ram)@,
    {
        self.ram[Y_BUTTON_ACTION_STEP] = value;
    }

    pub fn clear_y_button_action_step(&mut self)
        requires
            Y_BUTTON_ACTION_STEP < old(self).ram().len(),
        ensures
            final(self).ram() == old(self).ram().update(Y_BUTTON_ACTION_STEP as int, 0u8),
            final(final(self).ram)@ == final(old(self).ram)@,
    {
        self.ram[Y_BUTTON_ACTION_STEP] = 0;
    }

    pub fn set_y_button_action_timer(&mut self, value: u8)
        requires
            Y_BUTTON_ACTION_TIMER < old(self).ram().len(),
        ensures
            final(self).ram() == old(self).ram().update(Y_BUTTON_ACTION_TIMER as int, value),
            final(final(self).ram)@ == final(old(self).ram)@,
    {
        self.ram[Y_BUTTON_ACTION_TIMER] = value;
    }

    pub fn decrement_y_button_action_timer(&mut self) -> (result: u8)
        requires
            Y_BUTTON_ACTION_TIMER < old(self).ram().len(),
        ensures
            result == old(self).ram()[Y_BUTTON_ACTION_TIMER as int].wrapping_sub(1),
            final(self).ram() == old(self).ram().update(
                Y_BUTTON_ACTION_TIMER as int,
                old(self).ram()[Y_BUTTON_ACTION_TIMER as int].wrapping_sub(1),
            ),
            final(final(self).ram)@ == final(old(self).ram)@,
    {
        self.ram[Y_BUTTON_ACTION_TIMER] = self.ram[Y_BUTTON_ACTION_TIMER].wrapping_sub(1);
        self.ram[Y_BUTTON_ACTION_TIMER]
    }

    pub fn set_filtered_joypad_h(&mut self, value: u8)
        requires
            FILTERED_JOYPAD_H < old(self).ram().len(),
        ensures
            final(self).ram() == old(self).ram().update(FILTERED_JOYPAD_H as int, value),
            final(final(self).ram)@ == final(old(self).ram)@,
    {
        self.ram[FILTERED_JOYPAD_H] = value;
    }

    pub fn set_filtered_joypad_l(&mut self, value: u8)
        requires
            FILTERED_JOYPAD_L < old(self).ram().len(),
        ensures
            final(self).ram() == old(self).ram().update(FILTERED_JOYPAD_L as int, value),
            final(final(self).ram)@ == final(old(self).ram)@,
    {
        self.ram[FILTERED_JOYPAD_L] = value;
    }

    pub fn clear_filtered_joypad_l_bits(&mut self, bits: u8)
        requires
            FILTERED_JOYPAD_L < old(self).ram().len(),
        ensures
            final(self).ram() == old(self).ram().update(
                FILTERED_JOYPAD_L as int,
                old(self).ram()[FILTERED_JOYPAD_L as int] & (!bits),
            ),
            final(final(self).ram)@ == final(old(self).ram)@,
    {
        self.ram[FILTERED_JOYPAD_L] &= !bits;
    }

    pub fn set_joypad1h_last(&mut self, value: u8)
        requires
            JOYPAD1H_LAST < old(self).ram().len(),
        ensures
            final(self).ram() == old(self).ram().update(JOYPAD1H_LAST as int, value),
            final(final(self).ram)@ == final(old(self).ram)@,
    {
        self.ram[JOYPAD1H_LAST] = value;
    }

    pub fn set_joypad1l_last(&mut self, value: u8)
        requires
            JOYPAD1L_LAST < old(self).ram().len(),
        ensures
            final(self).ram() == old(self).ram().update(JOYPAD1L_LAST as int, value),
            final(final(self).ram)@ == final(old(self).ram)@,
    {
        self.ram[JOYPAD1L_LAST] = value;
    }

    pub fn set_joypad1h_last2(&mut self, value: u8)
        requires
            JOYPAD1H_LAST2 < old(self).ram().len(),
        ensures
            final(self).ram() == old(self).ram().update(JOYPAD1H_LAST2 as int, value),
            final(final(self).ram)@ == final(old(self).ram)@,
    {
        self.ram[JOYPAD1H_LAST2] = value;
    }

    pub fn set_joypad1l_last2(&mut self, value: u8)
        requires
            JOYPAD1L_LAST2 < old(self).ram().len(),
        ensures
            final(self).ram() == old(self).ram().update(JOYPAD1L_LAST2 as int, value),
            final(final(self).ram)@ == final(old(self).ram)@,
    {
        self.ram[JOYPAD1L_LAST2] = value;
    }

    pub fn set_item_action_step_var(&mut self, value: u8)
        requires
            LINK_ITEM_ACTION_STEP_SCRATCH < old(self).ram().len(),
        ensures
            final(self).ram() == old(self).ram().update(
                LINK_ITEM_ACTION_STEP_SCRATCH as int,
                value,
            ),
            final(final(self).ram)@ == final(old(self).ram)@,
    {
        self.ram[LINK_ITEM_ACTION_STEP_SCRATCH] = value;
    }

    pub fn set_throw_oam_state_index(&mut self, value: u8)
        requires
            LINK_THROW_OAM_STATE_INDEX < old(self).ram().len(),
        ensures
            final(self).ram() == old(self).ram().update(LINK_THROW_OAM_STATE_INDEX as int, value),
            final(final(self).ram)@ == final(old(self).ram)@,
    {
        self.ram[LINK_THROW_OAM_STATE_INDEX] = value;
    }

    pub fn clear_item_action_step_var(&mut self)
        requires
            LINK_ITEM_ACTION_STEP_SCRATCH < old(self).ram().len(),
        ensures
            final(self).ram() == old(self).ram().update(LINK_ITEM_ACTION_STEP_SCRATCH as int, 0u8),
            final(final(self).ram)@ == final(old(self).ram)@,
    {
        self.ram[LINK_ITEM_ACTION_STEP_SCRATCH] = 0;
    }

    pub fn increment_item_action_step_var(&mut self) -> (result: u8)
        requires
            LINK_ITEM_ACTION_STEP_SCRATCH < old(self).ram().len(),
        ensures
            result == old(self).ram()[LINK_ITEM_ACTION_STEP_SCRATCH as int].wrapping_add(1),
            final(self).ram() == old(self).ram().update(
                LINK_ITEM_ACTION_STEP_SCRATCH as int,
                old(self).ram()[LINK_ITEM_ACTION_STEP_SCRATCH as int].wrapping_add(1),
            ),
            final(final(self).ram)@ == final(old(self).ram)@,
    {
        self.ram[LINK_ITEM_ACTION_STEP_SCRATCH] = self.ram[LINK_ITEM_ACTION_STEP_SCRATCH].wrapping_add(1);
        self.ram[LINK_ITEM_ACTION_STEP_SCRATCH]
    }

    pub fn advance_item_action_step_var_wrapping_7_to_1(&mut self) -> (result: u8)
        requires
            LINK_ITEM_ACTION_STEP_SCRATCH < old(self).ram().len(),
        ensures
            result == (if old(self).ram()[LINK_ITEM_ACTION_STEP_SCRATCH as int].wrapping_add(1) == 7 {
                1u8
            } else {
                old(self).ram()[LINK_ITEM_ACTION_STEP_SCRATCH as int].wrapping_add(1)
            }),
            final(self).ram() == old(self).ram().update(
                LINK_ITEM_ACTION_STEP_SCRATCH as int,
                if old(self).ram()[LINK_ITEM_ACTION_STEP_SCRATCH as int].wrapping_add(1) == 7 {
                    1u8
                } else {
                    old(self).ram()[LINK_ITEM_ACTION_STEP_SCRATCH as int].wrapping_add(1)
                },
            ),
            final(final(self).ram)@ == final(old(self).ram)@,
    {
        self.ram[LINK_ITEM_ACTION_STEP_SCRATCH] = if self.ram[LINK_ITEM_ACTION_STEP_SCRATCH].wrapping_add(1) == 7 {
            1
        } else {
            self.ram[LINK_ITEM_ACTION_STEP_SCRATCH].wrapping_add(1)
        };
        self.ram[LINK_ITEM_ACTION_STEP_SCRATCH]
    }

    pub fn clear_near_moveable_statue(&mut self)
        requires
            LINK_IS_NEAR_MOVEABLE_STATUE < old(self).ram().len(),
        ensures
            final(self).ram() == old(self).ram().update(LINK_IS_NEAR_MOVEABLE_STATUE as int, 0u8),
            final(final(self).ram)@ == final(old(self).ram)@,
    {
        self.ram[LINK_IS_NEAR_MOVEABLE_STATUE] = 0;
    }

    pub fn mark_near_moveable_statue(&mut self)
        requires
            LINK_IS_NEAR_MOVEABLE_STATUE < old(self).ram().len(),
        ensures
            final(self).ram() == old(self).ram().update(LINK_IS_NEAR_MOVEABLE_STATUE as int, 1u8),
            final(final(self).ram)@ == final(old(self).ram)@,
    {
        self.ram[LINK_IS_NEAR_MOVEABLE_STATUE] = 1;
    }

    pub fn clear_pull_for_rupees_sprite_need(&mut self)
        requires
            LINK_NEED_FOR_PULLFORRUPEES_SPRITE < old(self).ram().len(),
        ensures
            final(self).ram() == old(self).ram().update(
                LINK_NEED_FOR_PULLFORRUPEES_SPRITE as int,
                0u8,
            ),
            final(final(self).ram)@ == final(old(self).ram)@,
    {
        self.ram[LINK_NEED_FOR_PULLFORRUPEES_SPRITE] = 0;
    }

    pub fn set_pull_for_rupees_sprite_need(&mut self)
        requires
            LINK_NEED_FOR_PULLFORRUPEES_SPRITE < old(self).ram().len(),
        ensures
            final(self).ram() == old(self).ram().update(
                LINK_NEED_FOR_PULLFORRUPEES_SPRITE as int,
                1u8,
            ),
            final(final(self).ram)@ == final(old(self).ram)@,
    {
        self.ram[LINK_NEED_FOR_PULLFORRUPEES_SPRITE] = 1;
    }

    pub fn set_pull_action_state(&mut self, value: u8)
        requires
            LINK_PULL_ACTION_STATE < old(self).ram().len(),
        ensures
            final(self).ram() == old(self).ram().update(LINK_PULL_ACTION_STATE as int, value),
            final(final(self).ram)@ == final(old(self).ram)@,
    {
        self.ram[LINK_PULL_ACTION_STATE] = value;
    }

    pub fn increment_pull_action_state(&mut self)
        requires
            LINK_PULL_ACTION_STATE < old(self).ram().len(),
        ensures
            final(self).ram() == old(self).ram().update(
                LINK_PULL_ACTION_STATE as int,
                old(self).ram()[LINK_PULL_ACTION_STATE as int].wrapping_add(1),
            ),
            final(final(self).ram)@ == final(old(self).ram)@,
    {
        self.ram[LINK_PULL_ACTION_STATE] = self.ram[LINK_PULL_ACTION_STATE].wrapping_add(1);
    }

    pub fn prevent_movement(&mut self)
        requires
            LINK_PREVENT_FROM_MOVING < old(self).ram().len(),
        ensures
            final(self).ram() == old(self).ram().update(LINK_PREVENT_FROM_MOVING as int, 1u8),
            final(final(self).ram)@ == final(old(self).ram)@,
    {
        self.ram[LINK_PREVENT_FROM_MOVING] = 1;
    }

    pub fn clear_prevent_movement(&mut self)
        requires
            LINK_PREVENT_FROM_MOVING < old(self).ram().len(),
        ensures
            final(self).ram() == old(self).ram().update(LINK_PREVENT_FROM_MOVING as int, 0u8),
            final(final(self).ram)@ == final(old(self).ram)@,
    {
        self.ram[LINK_PREVENT_FROM_MOVING] = 0;
    }

    pub fn clear_frame_change_counter(&mut self)
        requires
            LINK_FRAME_CHANGE_COUNTER < old(self).ram().len(),
        ensures
            final(self).ram() == old(self).ram().update(LINK_FRAME_CHANGE_COUNTER as int, 0u8),
            final(final(self).ram)@ == final(old(self).ram)@,
    {
        self.ram[LINK_FRAME_CHANGE_COUNTER] = 0;
    }

    pub fn set_faint_animation_active(&mut self, value: u8)
        requires
            LINK_FAINT_ANIMATION_ACTIVE < old(self).ram().len(),
        ensures
            final(self).ram() == old(self).ram().update(LINK_FAINT_ANIMATION_ACTIVE as int, value),
            final(final(self).ram)@ == final(old(self).ram)@,
    {
        self.ram[LINK_FAINT_ANIMATION_ACTIVE] = value;
    }

    pub fn clear_given_damage(&mut self)
        requires
            LINK_GIVE_DAMAGE < old(self).ram().len(),
        ensures
            final(self).ram() == old(self).ram().update(LINK_GIVE_DAMAGE as int, 0u8),
            final(final(self).ram)@ == final(old(self).ram)@,
    {
        self.ram[LINK_GIVE_DAMAGE] = 0;
    }

    pub fn set_given_damage(&mut self, value: u8)
        requires
            LINK_GIVE_DAMAGE < old(self).ram().len(),
        ensures
            final(self).ram() == old(self).ram().update(LINK_GIVE_DAMAGE as int, value),
            final(final(self).ram)@ == final(old(self).ram)@,
    {
        self.ram[LINK_GIVE_DAMAGE] = value;
    }

    pub fn force_hold_sword_up(&mut self)
        requires
            LINK_FORCE_HOLD_SWORD_UP < old(self).ram().len(),
        ensures
            final(self).ram() == old(self).ram().update(LINK_FORCE_HOLD_SWORD_UP as int, 1u8),
            final(final(self).ram)@ == final(old(self).ram)@,
    {
        self.ram[LINK_FORCE_HOLD_SWORD_UP] = 1;
    }

    pub fn clear_force_hold_sword_up(&mut self)
        requires
            LINK_FORCE_HOLD_SWORD_UP < old(self).ram().len(),
        ensures
            final(self).ram() == old(self).ram().update(LINK_FORCE_HOLD_SWORD_UP as int, 0u8),
            final(final(self).ram)@ == final(old(self).ram)@,
    {
        self.ram[LINK_FORCE_HOLD_SWORD_UP] = 0;
    }

    pub fn clear_transforming(&mut self)
        requires
            LINK_IS_TRANSFORMING < old(self).ram().len(),
        ensures
            final(self).ram() == old(self).ram().update(LINK_IS_TRANSFORMING as int, 0u8),
            final(final(self).ram)@ == final(old(self).ram)@,
    {
        self.ram[LINK_IS_TRANSFORMING] = 0;
    }

    pub fn set_transforming(&mut self)
        requires
            LINK_IS_TRANSFORMING < old(self).ram().len(),
        ensures
            final(self).ram() == old(self).ram().update(LINK_IS_TRANSFORMING as int, 1u8),
            final(final(self).ram)@ == final(old(self).ram)@,
    {
        self.ram[LINK_IS_TRANSFORMING] = 1;
    }

    pub fn set_sprite_oam_state_timer(&mut self, value: u8)
        requires
            LINK_SPRITE_OAM_STATE_TIMER < old(self).ram().len(),
        ensures
            final(self).ram() == old(self).ram().update(LINK_SPRITE_OAM_STATE_TIMER as int, value),
            final(final(self).ram)@ == final(old(self).ram)@,
    {
        self.ram[LINK_SPRITE_OAM_STATE_TIMER] = value;
    }

    pub fn mark_pit_landing_oam_state(&mut self)
        requires
            LINK_SPRITE_OAM_STATE_TIMER < old(self).ram().len(),
        ensures
            final(self).ram() == old(self).ram().update(LINK_SPRITE_OAM_STATE_TIMER as int, 9u8),
            final(final(self).ram)@ == final(old(self).ram)@,
    {
        self.ram[LINK_SPRITE_OAM_STATE_TIMER] = 9;
    }

    pub fn set_receive_item_index(&mut self, value: u8)
        requires
            LINK_RECEIVE_ITEM_INDEX < old(self).ram().len(),
        ensures
            final(self).ram() == old(self).ram().update(LINK_RECEIVE_ITEM_INDEX as int, value),
            final(final(self).ram)@ == final(old(self).ram)@,
    {
        self.ram[LINK_RECEIVE_ITEM_INDEX] = value;
    }

    pub fn set_item_holding_timer(&mut self, value: u8)
        requires
            LINK_ITEM_HOLDING_TIMER < old(self).ram().len(),
        ensures
            final(self).ram() == old(self).ram().update(LINK_ITEM_HOLDING_TIMER as int, value),
            final(final(self).ram)@ == final(old(self).ram)@,
    {
        self.ram[LINK_ITEM_HOLDING_TIMER] = value;
    }

    pub fn set_item_hold_pose(&mut self, value: u8)
        requires
            LINK_POSE_FOR_ITEM < old(self).ram().len(),
        ensures
            final(self).ram() == old(self).ram().update(LINK_POSE_FOR_ITEM as int, value),
            final(final(self).ram)@ == final(old(self).ram)@,
    {
        self.ram[LINK_POSE_FOR_ITEM] = value;
    }

    pub fn clear_item_hold_pose(&mut self)
        requires
            LINK_POSE_FOR_ITEM < old(self).ram().len(),
        ensures
            final(self).ram() == old(self).ram().update(LINK_POSE_FOR_ITEM as int, 0u8),
            final(final(self).ram)@ == final(old(self).ram)@,
    {
        self.ram[LINK_POSE_FOR_ITEM] = 0;
    }

    pub fn set_link_dma_staging_index(&mut self, value: u8)
        requires
            LINK_DMA_STAGING_INDEX < old(self).ram().len(),
        ensures
            final(self).ram() == old(self).ram().update(LINK_DMA_STAGING_INDEX as int, value),
            final(final(self).ram)@ == final(old(self).ram)@,
    {
        self.ram[LINK_DMA_STAGING_INDEX] = value;
    }

    pub fn set_immobilized_flag(&mut self, value: u8)
        requires
            FLAG_IS_LINK_IMMOBILIZED < old(self).ram().len(),
        ensures
            final(self).ram() == old(self).ram().update(FLAG_IS_LINK_IMMOBILIZED as int, value),
            final(final(self).ram)@ == final(old(self).ram)@,
    {
        self.ram[FLAG_IS_LINK_IMMOBILIZED] = value;
    }

    pub fn immobilize(&mut self)
        requires
            FLAG_IS_LINK_IMMOBILIZED < old(self).ram().len(),
        ensures
            final(self).ram() == old(self).ram().update(FLAG_IS_LINK_IMMOBILIZED as int, 1),
            final(final(self).ram)@ == final(old(self).ram)@,
    {
        self.set_immobilized_flag(1);
    }

    pub fn clear_immobilized(&mut self)
        requires
            FLAG_IS_LINK_IMMOBILIZED < old(self).ram().len(),
        ensures
            final(self).ram() == old(self).ram().update(FLAG_IS_LINK_IMMOBILIZED as int, 0),
            final(final(self).ram)@ == final(old(self).ram)@,
    {
        self.set_immobilized_flag(0);
    }

    pub fn increment_immobilized_flag(&mut self) -> (result: u8)
        requires
            FLAG_IS_LINK_IMMOBILIZED < old(self).ram().len(),
        ensures
            result == old(self).ram()[FLAG_IS_LINK_IMMOBILIZED as int].wrapping_add(1),
            final(self).ram() == old(self).ram().update(
                FLAG_IS_LINK_IMMOBILIZED as int,
                old(self).ram()[FLAG_IS_LINK_IMMOBILIZED as int].wrapping_add(1),
            ),
            final(final(self).ram)@ == final(old(self).ram)@,
    {
        self.ram[FLAG_IS_LINK_IMMOBILIZED] = self.ram[FLAG_IS_LINK_IMMOBILIZED].wrapping_add(1);
        self.ram[FLAG_IS_LINK_IMMOBILIZED]
    }

    pub fn set_menu_block_flag(&mut self, value: u8)
        requires
            FLAG_BLOCK_LINK_MENU < old(self).ram().len(),
        ensures
            final(self).ram() == old(self).ram().update(FLAG_BLOCK_LINK_MENU as int, value),
            final(final(self).ram)@ == final(old(self).ram)@,
    {
        self.ram[FLAG_BLOCK_LINK_MENU] = value;
    }

    pub fn clear_menu_block(&mut self)
        requires
            FLAG_BLOCK_LINK_MENU < old(self).ram().len(),
        ensures
            final(self).ram() == old(self).ram().update(FLAG_BLOCK_LINK_MENU as int, 0),
            final(final(self).ram)@ == final(old(self).ram)@,
    {
        self.set_menu_block_flag(0);
    }

    pub fn increment_menu_block_flag(&mut self) -> (result: u8)
        requires
            FLAG_BLOCK_LINK_MENU < old(self).ram().len(),
        ensures
            result == old(self).ram()[FLAG_BLOCK_LINK_MENU as int].wrapping_add(1),
            final(self).ram() == old(self).ram().update(
                FLAG_BLOCK_LINK_MENU as int,
                old(self).ram()[FLAG_BLOCK_LINK_MENU as int].wrapping_add(1),
            ),
            final(final(self).ram)@ == final(old(self).ram)@,
    {
        self.ram[FLAG_BLOCK_LINK_MENU] = self.ram[FLAG_BLOCK_LINK_MENU].wrapping_add(1);
        self.ram[FLAG_BLOCK_LINK_MENU]
    }

    pub fn set_link_dma_graphics_index_word(&mut self, value: u16)
        requires
            LINK_DMA_GRAPHICS_INDEX + 1 < old(self).ram().len(),
        ensures
            final(self).ram() == types::with_u16(
                old(self).ram(),
                LINK_DMA_GRAPHICS_INDEX as int,
                value,
            ),
            final(final(self).ram)@ == final(old(self).ram)@,
    {
        write_le_u16(self.ram, LINK_DMA_GRAPHICS_INDEX, value);
    }

    pub fn set_link_dma_left_sprite_bank_word(&mut self, value: u16)
        requires
            LINK_DMA_LEFT_SPRITE_BANK_INDEX + 1 < old(self).ram().len(),
        ensures
            final(self).ram() == types::with_u16(
                old(self).ram(),
                LINK_DMA_LEFT_SPRITE_BANK_INDEX as int,
                value,
            ),
            final(final(self).ram)@ == final(old(self).ram)@,
    {
        write_le_u16(self.ram, LINK_DMA_LEFT_SPRITE_BANK_INDEX, value);
    }

    pub fn set_link_dma_right_sprite_bank_word(&mut self, value: u16)
        requires
            LINK_DMA_RIGHT_SPRITE_BANK_INDEX + 1 < old(self).ram().len(),
        ensures
            final(self).ram() == types::with_u16(
                old(self).ram(),
                LINK_DMA_RIGHT_SPRITE_BANK_INDEX as int,
                value,
            ),
            final(final(self).ram)@ == final(old(self).ram)@,
    {
        write_le_u16(self.ram, LINK_DMA_RIGHT_SPRITE_BANK_INDEX, value);
    }

    pub fn clear_link_dma_sprite_banks(&mut self)
        requires
            LINK_DMA_LEFT_SPRITE_BANK_INDEX + 1 < old(self).ram().len(),
            LINK_DMA_RIGHT_SPRITE_BANK_INDEX + 1 < old(self).ram().len(),
        ensures
            final(self).ram() == types::with_u16(
                types::with_u16(
                    old(self).ram(),
                    LINK_DMA_LEFT_SPRITE_BANK_INDEX as int,
                    0,
                ),
                LINK_DMA_RIGHT_SPRITE_BANK_INDEX as int,
                0,
            ),
            final(final(self).ram)@ == final(old(self).ram)@,
    {
        self.set_link_dma_left_sprite_bank_word(0);
        self.set_link_dma_right_sprite_bank_word(0);
    }

    pub fn set_palette_bits_of_oam_word(&mut self, value: u16)
        requires
            LINK_PALETTE_BITS_OF_OAM + 1 < old(self).ram().len(),
        ensures
            final(self).ram() == types::with_u16(
                old(self).ram(),
                LINK_PALETTE_BITS_OF_OAM as int,
                value,
            ),
            final(final(self).ram)@ == final(old(self).ram)@,
    {
        write_le_u16(self.ram, LINK_PALETTE_BITS_OF_OAM, value);
    }

    pub fn advance_link_dma_source_offset(&mut self) -> (result: u16)
        requires
            LINK_DMA_SOURCE_OFFSET + 1 < old(self).ram().len(),
        ensures
            result == (if types::u16_at(old(self).ram(), LINK_DMA_SOURCE_OFFSET as int).wrapping_add(0x400) == 0x0c00 {
                0
            } else {
                types::u16_at(old(self).ram(), LINK_DMA_SOURCE_OFFSET as int).wrapping_add(0x400)
            }),
            final(self).ram() == (if types::u16_at(old(self).ram(), LINK_DMA_SOURCE_OFFSET as int).wrapping_add(0x400) == 0x0c00 {
                types::with_u16(old(self).ram(), LINK_DMA_SOURCE_OFFSET as int, 0)
            } else {
                types::with_u16(
                    old(self).ram(),
                    LINK_DMA_SOURCE_OFFSET as int,
                    types::u16_at(old(self).ram(), LINK_DMA_SOURCE_OFFSET as int)
                        .wrapping_add(0x400),
                )
            }),
            final(final(self).ram)@ == final(old(self).ram)@,
    {
        let mut source_offset = read_le_u16(self.ram, LINK_DMA_SOURCE_OFFSET).wrapping_add(0x400);
        if source_offset == 0x0c00 {
            source_offset = 0;
        }
        write_le_u16(self.ram, LINK_DMA_SOURCE_OFFSET, source_offset);
        source_offset
    }

    pub fn advance_link_dma_tile_offset(&mut self) -> (result: u16)
        requires
            LINK_DMA_TILE_OFFSET + 1 < old(self).ram().len(),
        ensures
            result == (if types::u16_at(old(self).ram(), LINK_DMA_TILE_OFFSET as int).wrapping_add(2) == 12 {
                0
            } else {
                types::u16_at(old(self).ram(), LINK_DMA_TILE_OFFSET as int).wrapping_add(2)
            }),
            final(self).ram() == (if types::u16_at(old(self).ram(), LINK_DMA_TILE_OFFSET as int).wrapping_add(2) == 12 {
                types::with_u16(old(self).ram(), LINK_DMA_TILE_OFFSET as int, 0)
            } else {
                types::with_u16(
                    old(self).ram(),
                    LINK_DMA_TILE_OFFSET as int,
                    types::u16_at(old(self).ram(), LINK_DMA_TILE_OFFSET as int).wrapping_add(2),
                )
            }),
            final(final(self).ram)@ == final(old(self).ram)@,
    {
        let mut tile_offset = read_le_u16(self.ram, LINK_DMA_TILE_OFFSET).wrapping_add(2);
        if tile_offset == 12 {
            tile_offset = 0;
        }
        write_le_u16(self.ram, LINK_DMA_TILE_OFFSET, tile_offset);
        tile_offset
    }

    pub fn set_link_dma_countdown(&mut self, value: u16)
        requires
            LINK_DMA_COUNTDOWN + 1 < old(self).ram().len(),
        ensures
            final(self).ram() == types::with_u16(old(self).ram(), LINK_DMA_COUNTDOWN as int, value),
            final(final(self).ram)@ == final(old(self).ram)@,
    {
        write_le_u16(self.ram, LINK_DMA_COUNTDOWN, value);
    }

    pub fn decrement_link_dma_countdown(&mut self) -> (result: u16)
        requires
            LINK_DMA_COUNTDOWN + 1 < old(self).ram().len(),
        ensures
            result == types::u16_at(old(self).ram(), LINK_DMA_COUNTDOWN as int).wrapping_sub(1),
            final(self).ram() == types::with_u16(
                old(self).ram(),
                LINK_DMA_COUNTDOWN as int,
                types::u16_at(old(self).ram(), LINK_DMA_COUNTDOWN as int)
                    .wrapping_sub(1),
            ),
            final(final(self).ram)@ == final(old(self).ram)@,
    {
        let countdown = read_le_u16(self.ram, LINK_DMA_COUNTDOWN).wrapping_sub(1);
        write_le_u16(self.ram, LINK_DMA_COUNTDOWN, countdown);
        countdown
    }

    pub fn reset_link_dma_animation_cycle(&mut self, countdown: u16)
        requires
            LINK_DMA_COUNTDOWN + 1 < old(self).ram().len(),
            LINK_DMA_SOURCE_OFFSET + 1 < old(self).ram().len(),
            LINK_DMA_TILE_OFFSET + 1 < old(self).ram().len(),
        ensures
            final(self).ram() == types::with_u16(
                types::with_u16(
                    types::with_u16(
                        old(self).ram(),
                        LINK_DMA_COUNTDOWN as int,
                        countdown,
                    ),
                    LINK_DMA_SOURCE_OFFSET as int,
                    0u16,
                ),
                LINK_DMA_TILE_OFFSET as int,
                0u16,
            ),
            final(final(self).ram)@ == final(old(self).ram)@,
    {
        self.set_link_dma_countdown(countdown);
        write_le_u16(self.ram, LINK_DMA_SOURCE_OFFSET, 0);
        write_le_u16(self.ram, LINK_DMA_TILE_OFFSET, 0);
    }

    pub fn set_sword_dma_graphics_index(&mut self, value: u8)
        requires
            LINK_DMA_SWORD_GRAPHICS_INDEX < old(self).ram().len(),
        ensures
            final(self).ram() == old(self).ram().update(
                LINK_DMA_SWORD_GRAPHICS_INDEX as int,
                value,
            ),
            final(final(self).ram)@ == final(old(self).ram)@,
    {
        self.ram[LINK_DMA_SWORD_GRAPHICS_INDEX] = value;
    }

    pub fn set_shield_dma_graphics_index(&mut self, value: u8)
        requires
            LINK_DMA_SHIELD_GRAPHICS_INDEX < old(self).ram().len(),
        ensures
            final(self).ram() == old(self).ram().update(
                LINK_DMA_SHIELD_GRAPHICS_INDEX as int,
                value,
            ),
            final(final(self).ram)@ == final(old(self).ram)@,
    {
        self.ram[LINK_DMA_SHIELD_GRAPHICS_INDEX] = value;
    }

    pub fn decrement_sprite_oam_state_timer(&mut self) -> (result: u8)
        requires
            LINK_SPRITE_OAM_STATE_TIMER < old(self).ram().len(),
        ensures
            result == old(self).ram()[LINK_SPRITE_OAM_STATE_TIMER as int].wrapping_sub(1),
            final(self).ram() == old(self).ram().update(
                LINK_SPRITE_OAM_STATE_TIMER as int,
                old(self).ram()[LINK_SPRITE_OAM_STATE_TIMER as int].wrapping_sub(1),
            ),
            final(final(self).ram)@ == final(old(self).ram)@,
    {
        self.ram[LINK_SPRITE_OAM_STATE_TIMER] = self.ram[LINK_SPRITE_OAM_STATE_TIMER].wrapping_sub(1);
        self.ram[LINK_SPRITE_OAM_STATE_TIMER]
    }

    pub fn set_speed_setting(&mut self, value: u8)
        requires
            LINK_SPEED_SETTING < old(self).ram().len(),
        ensures
            final(self).ram() == old(self).ram().update(LINK_SPEED_SETTING as int, value),
            final(final(self).ram)@ == final(old(self).ram)@,
    {
        self.ram[LINK_SPEED_SETTING] = value;
    }

    pub fn decrement_speed_setting(&mut self) -> (result: u8)
        requires
            LINK_SPEED_SETTING < old(self).ram().len(),
        ensures
            result == old(self).ram()[LINK_SPEED_SETTING as int].wrapping_sub(1),
            final(self).ram() == old(self).ram().update(
                LINK_SPEED_SETTING as int,
                old(self).ram()[LINK_SPEED_SETTING as int].wrapping_sub(1),
            ),
            final(final(self).ram)@ == final(old(self).ram)@,
    {
        self.ram[LINK_SPEED_SETTING] = self.ram[LINK_SPEED_SETTING].wrapping_sub(1);
        self.ram[LINK_SPEED_SETTING]
    }

    pub fn set_flag_moving(&mut self, value: u8)
        requires
            LINK_FLAG_MOVING < old(self).ram().len(),
        ensures
            final(self).ram() == old(self).ram().update(LINK_FLAG_MOVING as int, value),
            final(final(self).ram)@ == final(old(self).ram)@,
    {
        self.ram[LINK_FLAG_MOVING] = value;
    }

    pub fn start_running(&mut self)
        requires
            LINK_IS_RUNNING < old(self).ram().len(),
        ensures
            final(self).ram() == old(self).ram().update(LINK_IS_RUNNING as int, 1u8),
            final(final(self).ram)@ == final(old(self).ram)@,
    {
        self.ram[LINK_IS_RUNNING] = 1;
    }

    pub fn set_running_state(&mut self, value: u8)
        requires
            LINK_IS_RUNNING < old(self).ram().len(),
        ensures
            final(self).ram() == old(self).ram().update(LINK_IS_RUNNING as int, value),
            final(final(self).ram)@ == final(old(self).ram)@,
    {
        self.ram[LINK_IS_RUNNING] = value;
    }

    pub fn clear_running(&mut self)
        requires
            LINK_IS_RUNNING < old(self).ram().len(),
        ensures
            final(self).ram() == old(self).ram().update(LINK_IS_RUNNING as int, 0u8),
            final(final(self).ram)@ == final(old(self).ram)@,
    {
        self.ram[LINK_IS_RUNNING] = 0;
    }

    pub fn arm_stair_speed_modifier(&mut self)
        requires
            LINK_SPEED_SETTING < old(self).ram().len(),
            LINK_SPEED_MODIFIER < old(self).ram().len(),
        ensures
            final(self).ram() == old(self).ram()
                .update(LINK_SPEED_SETTING as int, 2u8)
                .update(LINK_SPEED_MODIFIER as int, 1u8),
            final(final(self).ram)@ == final(old(self).ram)@,
    {
        self.ram[LINK_SPEED_SETTING] = 2;
        self.ram[LINK_SPEED_MODIFIER] = 1;
    }

    pub fn resolve_dash_speed_setting(&mut self)
        requires
            LINK_SPEED_SETTING < old(self).ram().len(),
            old(self).ram()[LINK_SPEED_SETTING as int] == 2
                ==> LINK_IS_RUNNING < old(self).ram().len(),
        ensures
            final(self).ram() == (if old(self).ram()[LINK_SPEED_SETTING as int] == 2 {
                old(self).ram()
                    .update(
                        LINK_SPEED_SETTING as int,
                        if old(self).ram()[LINK_IS_RUNNING as int] != 0u8 {
                            16u8
                        } else {
                            0u8
                        },
                    )
            } else {
                old(self).ram()
            }),
            final(final(self).ram)@ == final(old(self).ram)@,
    {
        if self.ram[LINK_SPEED_SETTING] == 2 {
            self.ram[LINK_SPEED_SETTING] = if self.ram[LINK_IS_RUNNING] != 0 {
                16
            } else {
                0
            };
        }
    }

    pub fn promote_pending_speed_modifier(&mut self)
        requires
            LINK_SPEED_MODIFIER < old(self).ram().len(),
        ensures
            final(self).ram() == (if old(self).ram()[LINK_SPEED_MODIFIER as int] == 1 {
                old(self).ram().update(LINK_SPEED_MODIFIER as int, 2u8)
            } else {
                old(self).ram()
            }),
            final(final(self).ram)@ == final(old(self).ram)@,
    {
        if self.ram[LINK_SPEED_MODIFIER] == 1 {
            self.ram[LINK_SPEED_MODIFIER] = 2;
        }
    }

    pub fn increase_near_pit_speed_modifier(&mut self)
        requires
            LINK_SPEED_MODIFIER < old(self).ram().len(),
        ensures
            final(self).ram() == old(self).ram().update(
                LINK_SPEED_MODIFIER as int,
                if old(self).ram()[LINK_SPEED_MODIFIER as int] < 48 {
                    old(self).ram()[LINK_SPEED_MODIFIER as int].wrapping_add(8)
                } else {
                    32u8
                },
            ),
            final(final(self).ram)@ == final(old(self).ram)@,
    {
        self.ram[LINK_SPEED_MODIFIER] = if self.ram[LINK_SPEED_MODIFIER] < 48 {
            self.ram[LINK_SPEED_MODIFIER].wrapping_add(8)
        } else {
            32
        };
    }

    pub fn advance_dash_deceleration(&mut self)
        requires
            LINK_SPEED_MODIFIER < old(self).ram().len(),
        ensures
            final(self).ram() == old(self).ram().update(
                LINK_SPEED_MODIFIER as int,
                old(self).ram()[LINK_SPEED_MODIFIER as int].wrapping_add(1),
            ),
            final(final(self).ram)@ == final(old(self).ram)@,
    {
        self.ram[LINK_SPEED_MODIFIER] = self.ram[LINK_SPEED_MODIFIER].wrapping_add(1);
    }

    pub fn enter_water_hop_state(&mut self)
        requires
            LINK_AUXILIARY_STATE < old(self).ram().len(),
            old(self).ram()[LINK_AUXILIARY_STATE as int] != 2
                ==> LINK_ELECTROCUTE_ON_TOUCH < old(self).ram().len(),
            LINK_HANDLER_STATE < old(self).ram().len(),
        ensures
            final(self).ram() == (if old(self).ram()[LINK_AUXILIARY_STATE as int] != 2 {
                old(self).ram()
                    .update(LINK_AUXILIARY_STATE as int, 1u8)
                    .update(LINK_ELECTROCUTE_ON_TOUCH as int, 0u8)
                    .update(LINK_HANDLER_STATE as int, 6u8)
            } else {
                old(self).ram().update(LINK_HANDLER_STATE as int, 6u8)
            }),
            final(final(self).ram)@ == final(old(self).ram)@,
    {
        if self.ram[LINK_AUXILIARY_STATE] != 2 {
            self.ram[LINK_AUXILIARY_STATE] = 1;
            self.ram[LINK_ELECTROCUTE_ON_TOUCH] = 0;
        }
        self.ram[LINK_HANDLER_STATE] = 6;
    }

    pub fn clear_bunny_mirror(&mut self)
        requires
            LINK_IS_BUNNY_MIRROR < old(self).ram().len(),
        ensures
            final(self).ram() == old(self).ram().update(LINK_IS_BUNNY_MIRROR as int, 0u8),
            final(final(self).ram)@ == final(old(self).ram)@,
    {
        self.ram[LINK_IS_BUNNY_MIRROR] = 0;
    }

    pub fn clear_bunny_body_state(&mut self)
        requires
            LINK_IS_BUNNY < old(self).ram().len(),
        ensures
            final(self).ram() == old(self).ram().update(LINK_IS_BUNNY as int, 0u8),
            final(final(self).ram)@ == final(old(self).ram)@,
    {
        self.ram[LINK_IS_BUNNY] = 0;
    }

    pub fn set_bunny_state(&mut self, value: u8)
        requires
            LINK_IS_BUNNY < old(self).ram().len(),
            LINK_IS_BUNNY_MIRROR < old(self).ram().len(),
        ensures
            final(self).ram() == old(self).ram()
                .update(LINK_IS_BUNNY as int, value)
                .update(LINK_IS_BUNNY_MIRROR as int, value),
            final(final(self).ram)@ == final(old(self).ram)@,
    {
        self.ram[LINK_IS_BUNNY] = value;
        self.ram[LINK_IS_BUNNY_MIRROR] = value;
    }

    pub fn start_bunny_transform_poof(&mut self)
        requires
            LINK_DISABLE_SPRITE_DAMAGE < old(self).ram().len(),
            LINK_NEED_FOR_POOF_FOR_TRANSFORM < old(self).ram().len(),
            LINK_VISIBILITY_STATUS < old(self).ram().len(),
        ensures
            final(self).ram() == old(self).ram()
                .update(LINK_DISABLE_SPRITE_DAMAGE as int, 1u8)
                .update(LINK_NEED_FOR_POOF_FOR_TRANSFORM as int, 1u8)
                .update(LINK_VISIBILITY_STATUS as int, 12u8),
            final(final(self).ram)@ == final(old(self).ram)@,
    {
        self.ram[LINK_DISABLE_SPRITE_DAMAGE] = 1;
        self.ram[LINK_NEED_FOR_POOF_FOR_TRANSFORM] = 1;
        self.ram[LINK_VISIBILITY_STATUS] = 12;
    }

    pub fn finish_bunny_transform_poof(&mut self)
        requires
            LINK_IS_BUNNY_MIRROR < old(self).ram().len(),
            LINK_IS_BUNNY < old(self).ram().len(),
            LINK_VISIBILITY_STATUS < old(self).ram().len(),
            LINK_DISABLE_SPRITE_DAMAGE < old(self).ram().len(),
            LINK_NEED_FOR_POOF_FOR_TRANSFORM < old(self).ram().len(),
        ensures
            final(self).ram() == old(self).ram()
                .update(LINK_IS_BUNNY_MIRROR as int, 1u8)
                .update(LINK_IS_BUNNY as int, 1u8)
                .update(LINK_VISIBILITY_STATUS as int, 0u8)
                .update(LINK_DISABLE_SPRITE_DAMAGE as int, 0u8)
                .update(LINK_NEED_FOR_POOF_FOR_TRANSFORM as int, 0u8),
            final(final(self).ram)@ == final(old(self).ram)@,
    {
        self.ram[LINK_IS_BUNNY_MIRROR] = 1;
        self.ram[LINK_IS_BUNNY] = 1;
        self.ram[LINK_VISIBILITY_STATUS] = 0;
        self.ram[LINK_DISABLE_SPRITE_DAMAGE] = 0;
        self.ram[LINK_NEED_FOR_POOF_FOR_TRANSFORM] = 0;
    }

    pub fn clear_bunny_transform_flags(&mut self)
        requires
            LINK_NEED_FOR_POOF_FOR_TRANSFORM < old(self).ram().len(),
            LINK_IS_BUNNY < old(self).ram().len(),
            LINK_IS_BUNNY_MIRROR < old(self).ram().len(),
        ensures
            final(self).ram() == old(self).ram()
                .update(LINK_NEED_FOR_POOF_FOR_TRANSFORM as int, 0u8)
                .update(LINK_IS_BUNNY as int, 0u8)
                .update(LINK_IS_BUNNY_MIRROR as int, 0u8),
            final(final(self).ram)@ == final(old(self).ram)@,
    {
        self.ram[LINK_NEED_FOR_POOF_FOR_TRANSFORM] = 0;
        self.ram[LINK_IS_BUNNY] = 0;
        self.ram[LINK_IS_BUNNY_MIRROR] = 0;
    }

    pub fn clear_bunny_transform_after_moon_pearl(&mut self)
        requires
            LINK_NEED_FOR_POOF_FOR_TRANSFORM < old(self).ram().len(),
            LINK_IS_BUNNY < old(self).ram().len(),
            LINK_IS_BUNNY_MIRROR < old(self).ram().len(),
            LINK_TIMER_TEMPBUNNY < old(self).ram().len(),
        ensures
            final(self).ram() == old(self).ram()
                .update(LINK_NEED_FOR_POOF_FOR_TRANSFORM as int, 0u8)
                .update(LINK_IS_BUNNY as int, 0u8)
                .update(LINK_IS_BUNNY_MIRROR as int, 0u8)
                .update(LINK_TIMER_TEMPBUNNY as int, 0u8),
            final(final(self).ram)@ == final(old(self).ram)@,
    {
        self.ram[LINK_NEED_FOR_POOF_FOR_TRANSFORM] = 0;
        self.ram[LINK_IS_BUNNY] = 0;
        self.ram[LINK_IS_BUNNY_MIRROR] = 0;
        self.ram[LINK_TIMER_TEMPBUNNY] = 0;
    }

    pub fn clear_transform_poof_need_and_temp_bunny_timer(&mut self)
        requires
            LINK_NEED_FOR_POOF_FOR_TRANSFORM < old(self).ram().len(),
            LINK_TIMER_TEMPBUNNY + 1 < old(self).ram().len(),
        ensures
            final(self).ram() == types::with_u16(
                old(self).ram()
                    .update(LINK_NEED_FOR_POOF_FOR_TRANSFORM as int, 0u8),
                LINK_TIMER_TEMPBUNNY as int,
                0u16,
            ),
            final(final(self).ram)@ == final(old(self).ram)@,
    {
        self.ram[LINK_NEED_FOR_POOF_FOR_TRANSFORM] = 0;
        write_le_u16(self.ram, LINK_TIMER_TEMPBUNNY, 0);
    }

    pub fn clear_auxiliary_state(&mut self)
        requires
            LINK_AUXILIARY_STATE < old(self).ram().len(),
        ensures
            final(self).ram() == old(self).ram().update(LINK_AUXILIARY_STATE as int, 0u8),
            final(final(self).ram)@ == final(old(self).ram)@,
    {
        self.ram[LINK_AUXILIARY_STATE] = 0;
    }

    pub fn set_auxiliary_state(&mut self, value: u8)
        requires
            LINK_AUXILIARY_STATE < old(self).ram().len(),
        ensures
            final(self).ram() == old(self).ram().update(LINK_AUXILIARY_STATE as int, value),
            final(final(self).ram)@ == final(old(self).ram)@,
    {
        self.ram[LINK_AUXILIARY_STATE] = value;
    }

    pub fn clear_handler_state(&mut self)
        requires
            LINK_HANDLER_STATE < old(self).ram().len(),
        ensures
            final(self).ram() == old(self).ram().update(LINK_HANDLER_STATE as int, 0u8),
            final(final(self).ram)@ == final(old(self).ram)@,
    {
        self.ram[LINK_HANDLER_STATE] = 0;
    }

    pub fn set_handler_state(&mut self, value: u8)
        requires
            LINK_HANDLER_STATE < old(self).ram().len(),
        ensures
            final(self).ram() == old(self).ram().update(LINK_HANDLER_STATE as int, value),
            final(final(self).ram)@ == final(old(self).ram)@,
    {
        self.ram[LINK_HANDLER_STATE] = value;
    }

    pub fn set_facing(&mut self, value: u8)
        requires
            LINK_FACING < old(self).ram().len(),
        ensures
            final(self).ram() == old(self).ram().update(LINK_FACING as int, value),
            final(final(self).ram)@ == final(old(self).ram)@,
    {
        self.ram[LINK_FACING] = value;
    }

    pub fn set_facing_mirror(&mut self, value: u8)
        requires
            LINK_FACING_MIRROR < old(self).ram().len(),
        ensures
            final(self).ram() == old(self).ram().update(LINK_FACING_MIRROR as int, value),
            final(final(self).ram)@ == final(old(self).ram)@,
    {
        self.ram[LINK_FACING_MIRROR] = value;
    }

    pub fn cache_facing_to_mirror(&mut self)
        requires
            LINK_FACING_MIRROR < old(self).ram().len(),
            LINK_FACING < old(self).ram().len(),
        ensures
            final(self).ram() == old(self).ram().update(
                LINK_FACING_MIRROR as int,
                old(self).ram()[LINK_FACING as int],
            ),
            final(final(self).ram)@ == final(old(self).ram)@,
    {
        self.ram[LINK_FACING_MIRROR] = self.ram[LINK_FACING];
    }

    pub fn cache_facing(&mut self)
        requires
            LINK_FACING_CACHED < old(self).ram().len(),
            LINK_FACING < old(self).ram().len(),
        ensures
            final(self).ram() == old(self).ram().update(
                LINK_FACING_CACHED as int,
                old(self).ram()[LINK_FACING as int],
            ),
            final(final(self).ram)@ == final(old(self).ram)@,
    {
        self.ram[LINK_FACING_CACHED] = self.ram[LINK_FACING];
    }

    pub fn cache_lower_level_states(&mut self)
        requires
            LINK_IS_ON_LOWER_LEVEL_CACHED < old(self).ram().len(),
            LINK_IS_ON_LOWER_LEVEL < old(self).ram().len(),
            LINK_IS_ON_LOWER_LEVEL_MIRROR_CACHED < old(self).ram().len(),
            LINK_IS_ON_LOWER_LEVEL_MIRROR < old(self).ram().len(),
        ensures
            final(self).ram() == old(self).ram()
                .update(
                    LINK_IS_ON_LOWER_LEVEL_CACHED as int,
                    old(self).ram()[LINK_IS_ON_LOWER_LEVEL as int],
                )
                .update(
                    LINK_IS_ON_LOWER_LEVEL_MIRROR_CACHED as int,
                    old(self).ram()[LINK_IS_ON_LOWER_LEVEL_MIRROR as int],
                ),
            final(final(self).ram)@ == final(old(self).ram)@,
    {
        self.ram[LINK_IS_ON_LOWER_LEVEL_CACHED] = self.ram[LINK_IS_ON_LOWER_LEVEL];
        self.ram[LINK_IS_ON_LOWER_LEVEL_MIRROR_CACHED] = self.ram[LINK_IS_ON_LOWER_LEVEL_MIRROR];
    }

    pub fn land_after_splash(&mut self)
        requires
            LINK_HANDLER_STATE < old(self).ram().len(),
            LINK_IS_BUNNY_MIRROR < old(self).ram().len(),
            old(self).ram()[LINK_IS_BUNNY_MIRROR as int] != 0
                ==> LINK_ITEM_MOON_PEARL < old(self).ram().len(),
            old(self).ram()[LINK_IS_BUNNY_MIRROR as int] == 0
                ==> LINK_IS_IN_DEEP_WATER < old(self).ram().len(),
        ensures
            final(self).ram() == old(self).ram().update(
                LINK_HANDLER_STATE as int,
                if old(self).ram()[LINK_IS_BUNNY_MIRROR as int] != 0u8 {
                    if old(self).ram()[LINK_ITEM_MOON_PEARL as int] != 0u8 { 3u8 } else { 23u8 }
                } else {
                    if old(self).ram()[LINK_IS_IN_DEEP_WATER as int] != 0u8 { 4u8 } else { 0u8 }
                },
            ),
            final(final(self).ram)@ == final(old(self).ram)@,
    {
        self.ram[LINK_HANDLER_STATE] = if self.ram[LINK_IS_BUNNY_MIRROR] != 0 {
            if self.ram[LINK_ITEM_MOON_PEARL] != 0 {
                3
            } else {
                23
            }
        } else if self.ram[LINK_IS_IN_DEEP_WATER] != 0 {
            4
        } else {
            0
        };
    }

    pub fn interrupt_swimming_for_auxiliary_state(&mut self)
        requires
            LINK_HANDLER_STATE < old(self).ram().len(),
            LINK_Z_COORD + 1 < old(self).ram().len(),
            LINK_MAYBE_SWIM_FASTER < old(self).ram().len(),
            LINK_SWIM_HARD_STROKE < old(self).ram().len(),
            LINK_CANT_CHANGE_DIRECTION < old(self).ram().len(),
        ensures
            final(self).ram() == old(self).ram()
                .update(LINK_HANDLER_STATE as int, 2u8)
                .update(LINK_Z_COORD + 1, 0u8)
                .update(LINK_MAYBE_SWIM_FASTER as int, 0u8)
                .update(LINK_SWIM_HARD_STROKE as int, 0u8)
                .update(
                    LINK_CANT_CHANGE_DIRECTION as int,
                    old(self).ram()[LINK_CANT_CHANGE_DIRECTION as int] & (!1),
                ),
            final(final(self).ram)@ == final(old(self).ram)@,
    {
        self.ram[LINK_HANDLER_STATE] = 2;
        self.clear_z_high();
        self.ram[LINK_MAYBE_SWIM_FASTER] = 0;
        self.ram[LINK_SWIM_HARD_STROKE] = 0;
        self.ram[LINK_CANT_CHANGE_DIRECTION] &= !1;
    }

    pub fn clear_swimming_action_state(&mut self)
        requires
            BUTTON_MASK_B_Y < old(self).ram().len(),
            BUTTON_B_FRAMES < old(self).ram().len(),
            LINK_DELAY_TIMER_SPIN_ATTACK < old(self).ram().len(),
            LINK_SPIN_ATTACK_STEP_COUNTER < old(self).ram().len(),
            LINK_STATE_BITS < old(self).ram().len(),
            LINK_PICKING_THROW_STATE < old(self).ram().len(),
        ensures
            final(self).ram() == old(self).ram()
                .update(BUTTON_MASK_B_Y as int, 0u8)
                .update(BUTTON_B_FRAMES as int, 0u8)
                .update(LINK_DELAY_TIMER_SPIN_ATTACK as int, 0u8)
                .update(LINK_SPIN_ATTACK_STEP_COUNTER as int, 0u8)
                .update(LINK_STATE_BITS as int, 0u8)
                .update(LINK_PICKING_THROW_STATE as int, 0u8),
            final(final(self).ram)@ == final(old(self).ram)@,
    {
        self.ram[BUTTON_MASK_B_Y] = 0;
        self.ram[BUTTON_B_FRAMES] = 0;
        self.ram[LINK_DELAY_TIMER_SPIN_ATTACK] = 0;
        self.ram[LINK_SPIN_ATTACK_STEP_COUNTER] = 0;
        self.ram[LINK_STATE_BITS] = 0;
        self.ram[LINK_PICKING_THROW_STATE] = 0;
    }

    pub fn clear_swim_fast_state(&mut self)
        requires
            LINK_MAYBE_SWIM_FASTER < old(self).ram().len(),
        ensures
            final(self).ram() == old(self).ram().update(LINK_MAYBE_SWIM_FASTER as int, 0u8),
            final(final(self).ram)@ == final(old(self).ram)@,
    {
        self.ram[LINK_MAYBE_SWIM_FASTER] = 0;
    }

    pub fn advance_idle_swim_animation(&mut self)
        requires
            LINK_ANIMATION_STEPS < old(self).ram().len(),
            LINK_FRAME_CHANGE_COUNTER < old(self).ram().len(),
            old(self).ram()[LINK_FRAME_CHANGE_COUNTER as int].wrapping_add(1) >= 16
                ==> SWIM_STROKE_ANIM_STEP < old(self).ram().len(),
        ensures
            final(self).ram() == (if old(self).ram()[LINK_FRAME_CHANGE_COUNTER as int].wrapping_add(1) >= 16 {
                old(self).ram()
                    .update(
                        LINK_ANIMATION_STEPS as int,
                        old(self).ram()[LINK_ANIMATION_STEPS as int] & 1,
                    )
                    .update(
                        LINK_FRAME_CHANGE_COUNTER as int,
                        old(self).ram()[LINK_FRAME_CHANGE_COUNTER as int].wrapping_add(1),
                    )
                    .update(LINK_FRAME_CHANGE_COUNTER as int, 0u8)
                    .update(SWIM_STROKE_ANIM_STEP as int, 0u8)
                    .update(
                        LINK_ANIMATION_STEPS as int,
                        ((old(self).ram()[LINK_ANIMATION_STEPS as int] & 1) & 1u8) ^ 1u8,
                    )
            } else {
                old(self).ram()
                    .update(
                        LINK_ANIMATION_STEPS as int,
                        old(self).ram()[LINK_ANIMATION_STEPS as int] & 1,
                    )
                    .update(
                        LINK_FRAME_CHANGE_COUNTER as int,
                        old(self).ram()[LINK_FRAME_CHANGE_COUNTER as int].wrapping_add(1),
                    )
            }),
            final(final(self).ram)@ == final(old(self).ram)@,
    {
        self.ram[LINK_ANIMATION_STEPS] &= 1;
        self.ram[LINK_FRAME_CHANGE_COUNTER] = self.ram[LINK_FRAME_CHANGE_COUNTER].wrapping_add(1);
        if self.ram[LINK_FRAME_CHANGE_COUNTER] >= 16 {
            self.ram[LINK_FRAME_CHANGE_COUNTER] = 0;
            self.ram[SWIM_STROKE_ANIM_STEP] = 0;
            self.ram[LINK_ANIMATION_STEPS] = (self.ram[LINK_ANIMATION_STEPS] & 1) ^ 1;
        }
    }

    pub fn advance_active_swim_animation(&mut self, stroke_steps: &[u8; 4])
        requires
            LINK_FRAME_CHANGE_COUNTER < old(self).ram().len(),
            old(self).ram()[LINK_FRAME_CHANGE_COUNTER as int].wrapping_add(1) >= 8
                ==> LINK_ANIMATION_STEPS < old(self).ram().len(),
            old(self).ram()[LINK_FRAME_CHANGE_COUNTER as int].wrapping_add(1) >= 8
                ==> SWIM_STROKE_ANIM_STEP < old(self).ram().len(),
            old(self).ram()[LINK_FRAME_CHANGE_COUNTER as int].wrapping_add(1) >= 8
                ==> ((old(self).ram()[LINK_ANIMATION_STEPS as int].wrapping_add(1) & 3u8) as usize) < stroke_steps@.len(),
        ensures
            final(self).ram() == (if old(self).ram()[LINK_FRAME_CHANGE_COUNTER as int].wrapping_add(1) >= 8 {
                old(self).ram()
                    .update(
                        LINK_FRAME_CHANGE_COUNTER as int,
                        old(self).ram()[LINK_FRAME_CHANGE_COUNTER as int].wrapping_add(1),
                    )
                    .update(LINK_FRAME_CHANGE_COUNTER as int, 0u8)
                    .update(
                        LINK_ANIMATION_STEPS as int,
                        old(self).ram()[LINK_ANIMATION_STEPS as int].wrapping_add(1) & 3u8,
                    )
                    .update(
                        SWIM_STROKE_ANIM_STEP as int,
                        stroke_steps@[((old(self).ram()[LINK_ANIMATION_STEPS as int].wrapping_add(1) & 3u8) as usize) as int],
                    )
            } else {
                old(self).ram()
                    .update(
                        LINK_FRAME_CHANGE_COUNTER as int,
                        old(self).ram()[LINK_FRAME_CHANGE_COUNTER as int].wrapping_add(1),
                    )
            }),
            final(final(self).ram)@ == final(old(self).ram)@,
    {
        self.ram[LINK_FRAME_CHANGE_COUNTER] = self.ram[LINK_FRAME_CHANGE_COUNTER].wrapping_add(1);
        if self.ram[LINK_FRAME_CHANGE_COUNTER] >= 8 {
            self.ram[LINK_FRAME_CHANGE_COUNTER] = 0;
            self.ram[LINK_ANIMATION_STEPS] = self.ram[LINK_ANIMATION_STEPS].wrapping_add(1) & 3;
            self.ram[SWIM_STROKE_ANIM_STEP] = stroke_steps[self.ram[LINK_ANIMATION_STEPS] as usize];
        }
    }

    pub fn start_hard_swim_stroke(&mut self, hard_stroke: u8)
        requires
            LINK_SWIM_HARD_STROKE < old(self).ram().len(),
            LINK_MAYBE_SWIM_FASTER < old(self).ram().len(),
            SWIMMING_COUNTDOWN < old(self).ram().len(),
        ensures
            final(self).ram() == old(self).ram()
                .update(LINK_SWIM_HARD_STROKE as int, hard_stroke)
                .update(LINK_MAYBE_SWIM_FASTER as int, 1u8)
                .update(SWIMMING_COUNTDOWN as int, 7u8),
            final(final(self).ram)@ == final(old(self).ram)@,
    {
        self.ram[LINK_SWIM_HARD_STROKE] = hard_stroke;
        self.ram[LINK_MAYBE_SWIM_FASTER] = 1;
        self.ram[SWIMMING_COUNTDOWN] = 7;
    }

    pub fn tick_hard_swim_stroke(&mut self)
        requires
            SWIMMING_COUNTDOWN < old(self).ram().len(),
            (old(self).ram()[SWIMMING_COUNTDOWN as int].wrapping_sub(1) as i8) < 0
                ==> LINK_MAYBE_SWIM_FASTER < old(self).ram().len(),
            ((old(self).ram()[SWIMMING_COUNTDOWN as int].wrapping_sub(1) as i8) < 0)
                && (old(self).ram()[LINK_MAYBE_SWIM_FASTER as int].wrapping_add(1) == 5)
                ==> LINK_SWIM_HARD_STROKE < old(self).ram().len(),
        ensures
            final(self).ram() == (if (old(self).ram()[SWIMMING_COUNTDOWN as int].wrapping_sub(1) as i8) < 0 {
                if old(self).ram()[LINK_MAYBE_SWIM_FASTER as int].wrapping_add(1) == 5 {
                    old(self).ram()
                        .update(
                            SWIMMING_COUNTDOWN as int,
                            old(self).ram()[SWIMMING_COUNTDOWN as int].wrapping_sub(1),
                        )
                        .update(SWIMMING_COUNTDOWN as int, 7u8)
                        .update(
                            LINK_MAYBE_SWIM_FASTER as int,
                            old(self).ram()[LINK_MAYBE_SWIM_FASTER as int].wrapping_add(1),
                        )
                        .update(LINK_MAYBE_SWIM_FASTER as int, 0u8)
                        .update(
                            LINK_SWIM_HARD_STROKE as int,
                            old(self).ram()[LINK_SWIM_HARD_STROKE as int] & (!0xc0),
                        )
                } else {
                    old(self).ram()
                        .update(
                            SWIMMING_COUNTDOWN as int,
                            old(self).ram()[SWIMMING_COUNTDOWN as int].wrapping_sub(1),
                        )
                        .update(SWIMMING_COUNTDOWN as int, 7u8)
                        .update(
                            LINK_MAYBE_SWIM_FASTER as int,
                            old(self).ram()[LINK_MAYBE_SWIM_FASTER as int].wrapping_add(1),
                        )
                }
            } else {
                old(self).ram()
                    .update(
                        SWIMMING_COUNTDOWN as int,
                        old(self).ram()[SWIMMING_COUNTDOWN as int].wrapping_sub(1),
                    )
            }),
            final(final(self).ram)@ == final(old(self).ram)@,
    {
        self.ram[SWIMMING_COUNTDOWN] = self.ram[SWIMMING_COUNTDOWN].wrapping_sub(1);
        if (self.ram[SWIMMING_COUNTDOWN] as i8) < 0 {
            self.ram[SWIMMING_COUNTDOWN] = 7;
            self.ram[LINK_MAYBE_SWIM_FASTER] = self.ram[LINK_MAYBE_SWIM_FASTER].wrapping_add(1);
            if self.ram[LINK_MAYBE_SWIM_FASTER] == 5 {
                self.ram[LINK_MAYBE_SWIM_FASTER] = 0;
                self.ram[LINK_SWIM_HARD_STROKE] &= !0xc0;
            }
        }
    }

    pub fn clear_swim_movement_velocity(&mut self)
        requires
            LINK_Y_VELOCITY < old(self).ram().len(),
            LINK_X_VELOCITY < old(self).ram().len(),
        ensures
            final(self).ram() == old(self).ram()
                .update(LINK_Y_VELOCITY as int, 0u8)
                .update(LINK_X_VELOCITY as int, 0u8),
            final(final(self).ram)@ == final(old(self).ram)@,
    {
        self.ram[LINK_Y_VELOCITY] = 0;
        self.ram[LINK_X_VELOCITY] = 0;
    }

    pub fn reset_idle_swim_animation_if_out_of_water(&mut self)
        requires
            LINK_HANDLER_STATE < old(self).ram().len(),
            old(self).ram()[LINK_HANDLER_STATE as int] != 4
                ==> LINK_ANIMATION_STEPS < old(self).ram().len(),
        ensures
            final(self).ram() == (if old(self).ram()[LINK_HANDLER_STATE as int] != 4 {
                old(self).ram().update(LINK_ANIMATION_STEPS as int, 0u8)
            } else {
                old(self).ram()
            }),
            final(final(self).ram)@ == final(old(self).ram)@,
    {
        if self.ram[LINK_HANDLER_STATE] != 4 {
            self.ram[LINK_ANIMATION_STEPS] = 0;
        }
    }

    pub fn set_swim_direction_flags(&mut self, direction: u8)
        requires
            SWIM_PLAYER_DIRECTION_FLAGS < old(self).ram().len(),
        ensures
            final(self).ram() == old(self).ram().update(
                SWIM_PLAYER_DIRECTION_FLAGS as int,
                direction,
            ),
            final(final(self).ram)@ == final(old(self).ram)@,
    {
        self.ram[SWIM_PLAYER_DIRECTION_FLAGS] = direction;
    }

    pub fn reset_swim_subpixel_and_defense_state(&mut self)
        requires
            LINK_X_SUBPIXEL < old(self).ram().len(),
            LINK_Y_SUBPIXEL < old(self).ram().len(),
            LINK_MOVING_AGAINST_DIAG_TILE < old(self).ram().len(),
            PLAYER_DEFENSE_FLAGS < old(self).ram().len(),
        ensures
            final(self).ram() == old(self).ram()
                .update(LINK_X_SUBPIXEL as int, 0u8)
                .update(LINK_Y_SUBPIXEL as int, 0u8)
                .update(LINK_MOVING_AGAINST_DIAG_TILE as int, 0u8)
                .update(PLAYER_DEFENSE_FLAGS as int, 0u8),
            final(final(self).ram)@ == final(old(self).ram)@,
    {
        self.ram[LINK_X_SUBPIXEL] = 0;
        self.ram[LINK_Y_SUBPIXEL] = 0;
        self.ram[LINK_MOVING_AGAINST_DIAG_TILE] = 0;
        self.ram[PLAYER_DEFENSE_FLAGS] = 0;
    }

    pub fn clear_defense_flags(&mut self)
        requires
            PLAYER_DEFENSE_FLAGS < old(self).ram().len(),
        ensures
            final(self).ram() == old(self).ram().update(PLAYER_DEFENSE_FLAGS as int, 0u8),
            final(final(self).ram)@ == final(old(self).ram)@,
    {
        self.ram[PLAYER_DEFENSE_FLAGS] = 0;
    }

    pub fn set_defense_flags(&mut self, value: u8)
        requires
            PLAYER_DEFENSE_FLAGS < old(self).ram().len(),
        ensures
            final(self).ram() == old(self).ram().update(PLAYER_DEFENSE_FLAGS as int, value),
            final(final(self).ram)@ == final(old(self).ram)@,
    {
        self.ram[PLAYER_DEFENSE_FLAGS] = value;
    }

    pub fn or_defense_flags(&mut self, value: u8)
        requires
            PLAYER_DEFENSE_FLAGS < old(self).ram().len(),
        ensures
            final(self).ram() == old(self).ram().update(
                PLAYER_DEFENSE_FLAGS as int,
                old(self).ram()[PLAYER_DEFENSE_FLAGS as int] | value,
            ),
            final(final(self).ram)@ == final(old(self).ram)@,
    {
        self.ram[PLAYER_DEFENSE_FLAGS] |= value;
    }

    pub fn and_defense_flags(&mut self, value: u8)
        requires
            PLAYER_DEFENSE_FLAGS < old(self).ram().len(),
        ensures
            final(self).ram() == old(self).ram().update(
                PLAYER_DEFENSE_FLAGS as int,
                old(self).ram()[PLAYER_DEFENSE_FLAGS as int] & value,
            ),
            final(final(self).ram)@ == final(old(self).ram)@,
    {
        self.ram[PLAYER_DEFENSE_FLAGS] &= value;
    }

    pub fn clear_action_handler_timer(&mut self)
        requires
            PLAYER_HANDLER_TIMER < old(self).ram().len(),
        ensures
            final(self).ram() == old(self).ram().update(PLAYER_HANDLER_TIMER as int, 0u8),
            final(final(self).ram)@ == final(old(self).ram)@,
    {
        self.ram[PLAYER_HANDLER_TIMER] = 0;
    }

    pub fn set_action_handler_timer(&mut self, value: u8)
        requires
            PLAYER_HANDLER_TIMER < old(self).ram().len(),
        ensures
            final(self).ram() == old(self).ram().update(PLAYER_HANDLER_TIMER as int, value),
            final(final(self).ram)@ == final(old(self).ram)@,
    {
        self.ram[PLAYER_HANDLER_TIMER] = value;
    }

    pub fn increment_action_handler_timer(&mut self) -> (result: u8)
        requires
            PLAYER_HANDLER_TIMER < old(self).ram().len(),
        ensures
            result == old(self).ram()[PLAYER_HANDLER_TIMER as int].wrapping_add(1),
            final(self).ram() == old(self).ram().update(
                PLAYER_HANDLER_TIMER as int,
                old(self).ram()[PLAYER_HANDLER_TIMER as int].wrapping_add(1),
            ),
            final(final(self).ram)@ == final(old(self).ram)@,
    {
        self.ram[PLAYER_HANDLER_TIMER] = self.ram[PLAYER_HANDLER_TIMER].wrapping_add(1);
        self.ram[PLAYER_HANDLER_TIMER]
    }

    pub fn clear_doorway_state(&mut self)
        requires
            IS_STANDING_IN_DOORWAY < old(self).ram().len(),
        ensures
            final(self).ram() == old(self).ram().update(IS_STANDING_IN_DOORWAY as int, 0u8),
            final(final(self).ram)@ == final(old(self).ram)@,
    {
        self.ram[IS_STANDING_IN_DOORWAY] = 0;
    }

    pub fn set_doorway_state(&mut self, value: u8)
        requires
            IS_STANDING_IN_DOORWAY < old(self).ram().len(),
        ensures
            final(self).ram() == old(self).ram().update(IS_STANDING_IN_DOORWAY as int, value),
            final(final(self).ram)@ == final(old(self).ram)@,
    {
        self.ram[IS_STANDING_IN_DOORWAY] = value;
    }

    pub fn clear_blink_countdown(&mut self)
        requires
            COUNTDOWN_FOR_BLINK < old(self).ram().len(),
        ensures
            final(self).ram() == old(self).ram().update(COUNTDOWN_FOR_BLINK as int, 0u8),
            final(final(self).ram)@ == final(old(self).ram)@,
    {
        self.ram[COUNTDOWN_FOR_BLINK] = 0;
    }

    pub fn set_blink_countdown(&mut self, value: u8)
        requires
            COUNTDOWN_FOR_BLINK < old(self).ram().len(),
        ensures
            final(self).ram() == old(self).ram().update(COUNTDOWN_FOR_BLINK as int, value),
            final(final(self).ram)@ == final(old(self).ram)@,
    {
        self.ram[COUNTDOWN_FOR_BLINK] = value;
    }

    pub fn decrement_blink_countdown(&mut self) -> (result: u8)
        requires
            COUNTDOWN_FOR_BLINK < old(self).ram().len(),
        ensures
            result == old(self).ram()[COUNTDOWN_FOR_BLINK as int].wrapping_sub(1),
            final(self).ram() == old(self).ram().update(
                COUNTDOWN_FOR_BLINK as int,
                old(self).ram()[COUNTDOWN_FOR_BLINK as int].wrapping_sub(1),
            ),
            final(final(self).ram)@ == final(old(self).ram)@,
    {
        self.ram[COUNTDOWN_FOR_BLINK] = self.ram[COUNTDOWN_FOR_BLINK].wrapping_sub(1);
        self.ram[COUNTDOWN_FOR_BLINK]
    }

    pub fn set_item_receipt_method(&mut self, value: u8)
        requires
            ITEM_RECEIPT_METHOD < old(self).ram().len(),
        ensures
            final(self).ram() == old(self).ram().update(ITEM_RECEIPT_METHOD as int, value),
            final(final(self).ram)@ == final(old(self).ram)@,
    {
        self.ram[ITEM_RECEIPT_METHOD] = value;
    }

    pub fn clear_ancilla_pickup_flag(&mut self)
        requires
            FLAG_IS_ANCILLA_TO_PICK_UP < old(self).ram().len(),
        ensures
            final(self).ram() == old(self).ram().update(FLAG_IS_ANCILLA_TO_PICK_UP as int, 0u8),
            final(final(self).ram)@ == final(old(self).ram)@,
    {
        self.ram[FLAG_IS_ANCILLA_TO_PICK_UP] = 0;
    }

    pub fn set_ancilla_pickup_flag(&mut self, value: u8)
        requires
            FLAG_IS_ANCILLA_TO_PICK_UP < old(self).ram().len(),
        ensures
            final(self).ram() == old(self).ram().update(FLAG_IS_ANCILLA_TO_PICK_UP as int, value),
            final(final(self).ram)@ == final(old(self).ram)@,
    {
        self.ram[FLAG_IS_ANCILLA_TO_PICK_UP] = value;
    }

    pub fn set_spin_attack_step_counter(&mut self, value: u8)
        requires
            LINK_SPIN_ATTACK_STEP_COUNTER < old(self).ram().len(),
        ensures
            final(self).ram() == old(self).ram().update(
                LINK_SPIN_ATTACK_STEP_COUNTER as int,
                value,
            ),
            final(final(self).ram)@ == final(old(self).ram)@,
    {
        self.ram[LINK_SPIN_ATTACK_STEP_COUNTER] = value;
    }

    pub fn set_spin_animation_step_counter(&mut self, value: u8)
        requires
            STEP_COUNTER_FOR_SPIN_ATTACK < old(self).ram().len(),
        ensures
            final(self).ram() == old(self).ram().update(STEP_COUNTER_FOR_SPIN_ATTACK as int, value),
            final(final(self).ram)@ == final(old(self).ram)@,
    {
        self.ram[STEP_COUNTER_FOR_SPIN_ATTACK] = value;
    }

    pub fn clear_pit_correction(&mut self)
        requires
            PIT_CORRECTION_ACTIVE_FLAG < old(self).ram().len(),
        ensures
            final(self).ram() == old(self).ram().update(PIT_CORRECTION_ACTIVE_FLAG as int, 0u8),
            final(final(self).ram)@ == final(old(self).ram)@,
    {
        self.ram[PIT_CORRECTION_ACTIVE_FLAG] = 0;
    }

    pub fn cancel_dash_state(&mut self)
        requires
            LINK_COUNTDOWN_FOR_DASH < old(self).ram().len(),
            LINK_SPEED_SETTING < old(self).ram().len(),
            LINK_IS_RUNNING < old(self).ram().len(),
            LINK_CANT_CHANGE_DIRECTION < old(self).ram().len(),
            SWIM_ACCELERATION_MODE + 1 < old(self).ram().len(),
        ensures
            final(self).ram() == types::with_u16(
                old(self).ram()
                    .update(LINK_COUNTDOWN_FOR_DASH as int, 0u8)
                    .update(LINK_SPEED_SETTING as int, 0u8)
                    .update(LINK_IS_RUNNING as int, 0u8)
                    .update(LINK_CANT_CHANGE_DIRECTION as int, 0u8),
                SWIM_ACCELERATION_MODE as int,
                0u16,
            ),
            final(final(self).ram)@ == final(old(self).ram)@,
    {
        self.ram[LINK_COUNTDOWN_FOR_DASH] = 0;
        self.ram[LINK_SPEED_SETTING] = 0;
        self.ram[LINK_IS_RUNNING] = 0;
        self.ram[LINK_CANT_CHANGE_DIRECTION] = 0;
        write_le_u16(self.ram, SWIM_ACCELERATION_MODE, 0);
    }

    pub fn set_last_direction_moved_towards_from_facing(&mut self)
        requires
            LINK_LAST_DIRECTION_MOVED_TOWARDS < old(self).ram().len(),
            LINK_FACING < old(self).ram().len(),
        ensures
            final(self).ram() == old(self).ram().update(
                LINK_LAST_DIRECTION_MOVED_TOWARDS as int,
                old(self).ram()[LINK_FACING as int] >> 1,
            ),
            final(final(self).ram)@ == final(old(self).ram)@,
    {
        self.ram[LINK_LAST_DIRECTION_MOVED_TOWARDS] = self.ram[LINK_FACING] >> 1;
    }

    pub fn clear_animation_step(&mut self)
        requires
            LINK_ANIMATION_STEPS < old(self).ram().len(),
        ensures
            final(self).ram() == old(self).ram().update(LINK_ANIMATION_STEPS as int, 0u8),
            final(final(self).ram)@ == final(old(self).ram)@,
    {
        self.ram[LINK_ANIMATION_STEPS] = 0;
    }

    pub fn set_animation_step(&mut self, value: u8)
        requires
            LINK_ANIMATION_STEPS < old(self).ram().len(),
        ensures
            final(self).ram() == old(self).ram().update(LINK_ANIMATION_STEPS as int, value),
            final(final(self).ram)@ == final(old(self).ram)@,
    {
        self.ram[LINK_ANIMATION_STEPS] = value;
    }

    pub fn clear_animation_step_if_at_least(&mut self, threshold: u8)
        requires
            LINK_ANIMATION_STEPS < old(self).ram().len(),
        ensures
            final(self).ram() == (if old(self).ram()[LINK_ANIMATION_STEPS as int] >= threshold {
                old(self).ram().update(LINK_ANIMATION_STEPS as int, 0u8)
            } else {
                old(self).ram()
            }),
            final(final(self).ram)@ == final(old(self).ram)@,
    {
        if self.ram[LINK_ANIMATION_STEPS] >= threshold {
            self.clear_animation_step();
        }
    }

    pub fn subtract_animation_step_if_at_least(&mut self, threshold: u8, delta: u8)
        requires
            LINK_ANIMATION_STEPS < old(self).ram().len(),
        ensures
            final(self).ram() == (if old(self).ram()[LINK_ANIMATION_STEPS as int] >= threshold {
                old(self).ram()
                    .update(
                        LINK_ANIMATION_STEPS as int,
                        old(self).ram()[LINK_ANIMATION_STEPS as int].wrapping_sub(delta),
                    )
            } else {
                old(self).ram()
            }),
            final(final(self).ram)@ == final(old(self).ram)@,
    {
        if self.ram[LINK_ANIMATION_STEPS] >= threshold {
            self.ram[LINK_ANIMATION_STEPS] = self.ram[LINK_ANIMATION_STEPS].wrapping_sub(delta);
        }
    }

    pub fn set_item_in_hand(&mut self, value: u8)
        requires
            LINK_ITEM_IN_HAND < old(self).ram().len(),
        ensures
            final(self).ram() == old(self).ram().update(LINK_ITEM_IN_HAND as int, value),
            final(final(self).ram)@ == final(old(self).ram)@,
    {
        self.ram[LINK_ITEM_IN_HAND] = value;
    }

    pub fn clear_item_in_hand(&mut self)
        requires
            LINK_ITEM_IN_HAND < old(self).ram().len(),
        ensures
            final(self).ram() == old(self).ram().update(LINK_ITEM_IN_HAND as int, 0u8),
            final(final(self).ram)@ == final(old(self).ram)@,
    {
        self.ram[LINK_ITEM_IN_HAND] = 0;
    }

    pub fn clear_item_in_hand_bits(&mut self, mask: u8)
        requires
            LINK_ITEM_IN_HAND < old(self).ram().len(),
        ensures
            final(self).ram() == old(self).ram().update(
                LINK_ITEM_IN_HAND as int,
                old(self).ram()[LINK_ITEM_IN_HAND as int] & (!mask),
            ),
            final(final(self).ram)@ == final(old(self).ram)@,
    {
        self.ram[LINK_ITEM_IN_HAND] &= !mask;
    }

    pub fn clear_position_mode(&mut self)
        requires
            LINK_POSITION_MODE < old(self).ram().len(),
        ensures
            final(self).ram() == old(self).ram().update(LINK_POSITION_MODE as int, 0u8),
            final(final(self).ram)@ == final(old(self).ram)@,
    {
        self.ram[LINK_POSITION_MODE] = 0;
    }

    pub fn set_position_mode(&mut self, value: u8)
        requires
            LINK_POSITION_MODE < old(self).ram().len(),
        ensures
            final(self).ram() == old(self).ram().update(LINK_POSITION_MODE as int, value),
            final(final(self).ram)@ == final(old(self).ram)@,
    {
        self.ram[LINK_POSITION_MODE] = value;
    }

    pub fn set_position_mode_bits(&mut self, mask: u8)
        requires
            LINK_POSITION_MODE < old(self).ram().len(),
        ensures
            final(self).ram() == old(self).ram().update(
                LINK_POSITION_MODE as int,
                old(self).ram()[LINK_POSITION_MODE as int] | mask,
            ),
            final(final(self).ram)@ == final(old(self).ram)@,
    {
        self.ram[LINK_POSITION_MODE] |= mask;
    }

    pub fn clear_position_mode_bits(&mut self, mask: u8)
        requires
            LINK_POSITION_MODE < old(self).ram().len(),
        ensures
            final(self).ram() == old(self).ram().update(
                LINK_POSITION_MODE as int,
                old(self).ram()[LINK_POSITION_MODE as int] & (!mask),
            ),
            final(final(self).ram)@ == final(old(self).ram)@,
    {
        self.ram[LINK_POSITION_MODE] &= !mask;
    }

    pub fn set_state_bits(&mut self, value: u8)
        requires
            LINK_STATE_BITS < old(self).ram().len(),
        ensures
            final(self).ram() == old(self).ram().update(LINK_STATE_BITS as int, value),
            final(final(self).ram)@ == final(old(self).ram)@,
    {
        self.ram[LINK_STATE_BITS] = value;
    }

    pub fn clear_state_bits(&mut self)
        requires
            LINK_STATE_BITS < old(self).ram().len(),
        ensures
            final(self).ram() == old(self).ram().update(LINK_STATE_BITS as int, 0u8),
            final(final(self).ram)@ == final(old(self).ram)@,
    {
        self.ram[LINK_STATE_BITS] = 0;
    }

    pub fn clear_lifting_or_carrying_state(&mut self)
        requires
            LINK_STATE_BITS < old(self).ram().len(),
        ensures
            final(self).ram() == old(self).ram().update(
                LINK_STATE_BITS as int,
                old(self).ram()[LINK_STATE_BITS as int] & (!0x80),
            ),
            final(final(self).ram)@ == final(old(self).ram)@,
    {
        self.ram[LINK_STATE_BITS] &= !0x80;
    }

    pub fn keep_only_lifting_or_carrying_state(&mut self)
        requires
            LINK_STATE_BITS < old(self).ram().len(),
        ensures
            final(self).ram() == old(self).ram().update(
                LINK_STATE_BITS as int,
                old(self).ram()[LINK_STATE_BITS as int] & 0x80,
            ),
            final(final(self).ram)@ == final(old(self).ram)@,
    {
        self.ram[LINK_STATE_BITS] &= 0x80;
    }

    pub fn enter_item_hold_pose(&mut self)
        requires
            LINK_STATE_BITS < old(self).ram().len(),
            LINK_PICKING_THROW_STATE < old(self).ram().len(),
            LINK_FACING < old(self).ram().len(),
            LINK_ANIMATION_STEPS < old(self).ram().len(),
        ensures
            final(self).ram() == old(self).ram()
                .update(LINK_STATE_BITS as int, 0x80u8)
                .update(LINK_PICKING_THROW_STATE as int, 0u8)
                .update(LINK_FACING as int, 0u8)
                .update(LINK_ANIMATION_STEPS as int, 0u8),
            final(final(self).ram)@ == final(old(self).ram)@,
    {
        self.ram[LINK_STATE_BITS] = 0x80;
        self.ram[LINK_PICKING_THROW_STATE] = 0;
        self.ram[LINK_FACING] = 0;
        self.ram[LINK_ANIMATION_STEPS] = 0;
    }

    pub fn clear_state_item_and_grab_flags(&mut self)
        requires
            LINK_STATE_BITS < old(self).ram().len(),
            LINK_PICKING_THROW_STATE < old(self).ram().len(),
            LINK_GRABBING_WALL < old(self).ram().len(),
        ensures
            final(self).ram() == old(self).ram()
                .update(LINK_STATE_BITS as int, 0u8)
                .update(LINK_PICKING_THROW_STATE as int, 0u8)
                .update(LINK_GRABBING_WALL as int, 0u8),
            final(final(self).ram)@ == final(old(self).ram)@,
    {
        self.ram[LINK_STATE_BITS] = 0;
        self.ram[LINK_PICKING_THROW_STATE] = 0;
        self.ram[LINK_GRABBING_WALL] = 0;
    }

    pub fn clear_picking_throw_state(&mut self)
        requires
            LINK_PICKING_THROW_STATE < old(self).ram().len(),
        ensures
            final(self).ram() == old(self).ram().update(LINK_PICKING_THROW_STATE as int, 0u8),
            final(final(self).ram)@ == final(old(self).ram)@,
    {
        self.ram[LINK_PICKING_THROW_STATE] = 0;
    }

    pub fn set_picking_throw_state(&mut self, value: u8)
        requires
            LINK_PICKING_THROW_STATE < old(self).ram().len(),
        ensures
            final(self).ram() == old(self).ram().update(LINK_PICKING_THROW_STATE as int, value),
            final(final(self).ram)@ == final(old(self).ram)@,
    {
        self.ram[LINK_PICKING_THROW_STATE] = value;
    }

    pub fn clear_grabbing_wall(&mut self)
        requires
            LINK_GRABBING_WALL < old(self).ram().len(),
        ensures
            final(self).ram() == old(self).ram().update(LINK_GRABBING_WALL as int, 0u8),
            final(final(self).ram)@ == final(old(self).ram)@,
    {
        self.ram[LINK_GRABBING_WALL] = 0;
    }

    pub fn set_grabbing_wall(&mut self, value: u8)
        requires
            LINK_GRABBING_WALL < old(self).ram().len(),
        ensures
            final(self).ram() == old(self).ram().update(LINK_GRABBING_WALL as int, value),
            final(final(self).ram)@ == final(old(self).ram)@,
    {
        self.ram[LINK_GRABBING_WALL] = value;
    }

    pub fn start_lift_throw_state(&mut self)
        requires
            LINK_PICKING_THROW_STATE < old(self).ram().len(),
            LINK_STATE_BITS < old(self).ram().len(),
        ensures
            final(self).ram() == old(self).ram()
                .update(LINK_PICKING_THROW_STATE as int, 1u8)
                .update(LINK_STATE_BITS as int, 0x80u8),
            final(final(self).ram)@ == final(old(self).ram)@,
    {
        self.ram[LINK_PICKING_THROW_STATE] = 1;
        self.ram[LINK_STATE_BITS] = 0x80;
    }

    pub fn set_cape_transform_timer(&mut self, value: u8)
        requires
            LINK_BUNNY_TRANSFORM_TIMER < old(self).ram().len(),
        ensures
            final(self).ram() == old(self).ram().update(LINK_BUNNY_TRANSFORM_TIMER as int, value),
            final(final(self).ram)@ == final(old(self).ram)@,
    {
        self.ram[LINK_BUNNY_TRANSFORM_TIMER] = value;
    }

    pub fn decrement_push_fatigue_timer(&mut self) -> (result: u8)
        requires
            LINK_TIMER_PUSH_GET_TIRED < old(self).ram().len(),
        ensures
            result == old(self).ram()[LINK_TIMER_PUSH_GET_TIRED as int].wrapping_sub(1),
            final(self).ram() == old(self).ram().update(
                LINK_TIMER_PUSH_GET_TIRED as int,
                old(self).ram()[LINK_TIMER_PUSH_GET_TIRED as int].wrapping_sub(1),
            ),
            final(final(self).ram)@ == final(old(self).ram)@,
    {
        self.ram[LINK_TIMER_PUSH_GET_TIRED] = self.ram[LINK_TIMER_PUSH_GET_TIRED].wrapping_sub(1);
        self.ram[LINK_TIMER_PUSH_GET_TIRED]
    }

    pub fn set_push_fatigue_timer(&mut self, value: u8)
        requires
            LINK_TIMER_PUSH_GET_TIRED < old(self).ram().len(),
        ensures
            final(self).ram() == old(self).ram().update(LINK_TIMER_PUSH_GET_TIRED as int, value),
            final(final(self).ram)@ == final(old(self).ram)@,
    {
        self.ram[LINK_TIMER_PUSH_GET_TIRED] = value;
    }

    pub fn reset_push_fatigue_timer(&mut self)
        requires
            LINK_TIMER_PUSH_GET_TIRED < old(self).ram().len(),
        ensures
            final(self).ram() == old(self).ram().update(LINK_TIMER_PUSH_GET_TIRED as int, 32u8),
            final(final(self).ram)@ == final(old(self).ram)@,
    {
        self.ram[LINK_TIMER_PUSH_GET_TIRED] = 32;
    }

    pub fn tick_cape_transform_timer(&mut self) -> (result: u8)
        requires
            LINK_BUNNY_TRANSFORM_TIMER < old(self).ram().len(),
        ensures
            result == old(self).ram()[LINK_BUNNY_TRANSFORM_TIMER as int].wrapping_sub(1),
            final(self).ram() == old(self).ram().update(
                LINK_BUNNY_TRANSFORM_TIMER as int,
                old(self).ram()[LINK_BUNNY_TRANSFORM_TIMER as int].wrapping_sub(1),
            ),
            final(final(self).ram)@ == final(old(self).ram)@,
    {
        self.ram[LINK_BUNNY_TRANSFORM_TIMER] = self.ram[LINK_BUNNY_TRANSFORM_TIMER].wrapping_sub(1);
        self.ram[LINK_BUNNY_TRANSFORM_TIMER]
    }

    pub fn clear_cape_transform_timer(&mut self)
        requires
            LINK_BUNNY_TRANSFORM_TIMER < old(self).ram().len(),
        ensures
            final(self).ram() == old(self).ram().update(LINK_BUNNY_TRANSFORM_TIMER as int, 0u8),
            final(final(self).ram)@ == final(old(self).ram)@,
    {
        self.ram[LINK_BUNNY_TRANSFORM_TIMER] = 0;
    }

    pub fn set_current_item_y(&mut self, value: u8)
        requires
            LINK_CURRENT_ITEM_Y < old(self).ram().len(),
        ensures
            final(self).ram() == old(self).ram().update(LINK_CURRENT_ITEM_Y as int, value),
            final(final(self).ram)@ == final(old(self).ram)@,
    {
        self.ram[LINK_CURRENT_ITEM_Y] = value;
    }

    pub fn increment_sleep_in_bed_state(&mut self)
        requires
            PLAYER_SLEEP_IN_BED_STATE < old(self).ram().len(),
        ensures
            final(self).ram() == old(self).ram().update(
                PLAYER_SLEEP_IN_BED_STATE as int,
                old(self).ram()[PLAYER_SLEEP_IN_BED_STATE as int].wrapping_add(1),
            ),
            final(final(self).ram)@ == final(old(self).ram)@,
    {
        self.ram[PLAYER_SLEEP_IN_BED_STATE] = self.ram[PLAYER_SLEEP_IN_BED_STATE].wrapping_add(1);
    }

    pub fn set_bit9_of_xcoord_word(&mut self, value: u16)
        requires
            BIT9_OF_XCOORD + 1 < old(self).ram().len(),
        ensures
            final(self).ram() == types::with_u16(old(self).ram(), BIT9_OF_XCOORD as int, value),
            final(final(self).ram)@ == final(old(self).ram)@,
    {
        write_le_u16(self.ram, BIT9_OF_XCOORD, value);
    }

    /// Stashes the selected Link body sprite table index in the shared
    /// scratch word at 0x74 for the player OAM routines.
    pub fn set_link_sprite_index_scratch(&mut self, value: u16)
        requires
            SCRATCH_1 + 1 < old(self).ram().len(),
        ensures
            final(self).ram() == types::with_u16(old(self).ram(), SCRATCH_1 as int, value),
            final(final(self).ram)@ == final(old(self).ram)@,
    {
        write_le_u16(self.ram, SCRATCH_1, value);
    }

    pub fn set_primary_water_grass_timer(&mut self, value: u8)
        requires
            PRIMARY_WATER_GRASS_TIMER < old(self).ram().len(),
        ensures
            final(self).ram() == old(self).ram().update(PRIMARY_WATER_GRASS_TIMER as int, value),
            final(final(self).ram)@ == final(old(self).ram)@,
    {
        self.ram[PRIMARY_WATER_GRASS_TIMER] = value;
    }

    pub fn set_secondary_water_grass_timer(&mut self, value: u8)
        requires
            SECONDARY_WATER_GRASS_TIMER < old(self).ram().len(),
        ensures
            final(self).ram() == old(self).ram().update(SECONDARY_WATER_GRASS_TIMER as int, value),
            final(final(self).ram)@ == final(old(self).ram)@,
    {
        self.ram[SECONDARY_WATER_GRASS_TIMER] = value;
    }

    pub fn clear_item_debug_value_1(&mut self)
        requires
            LINK_DEBUG_VALUE_1 < old(self).ram().len(),
        ensures
            final(self).ram() == old(self).ram().update(LINK_DEBUG_VALUE_1 as int, 0u8),
            final(final(self).ram)@ == final(old(self).ram)@,
    {
        self.ram[LINK_DEBUG_VALUE_1] = 0;
    }

    pub fn clear_action_scratch_state(&mut self)
        requires
            LINK_DEBUG_VALUE_1 < old(self).ram().len(),
            LINK_DEBUG_VALUE_2 < old(self).ram().len(),
            LINK_ITEM_ACTION_STEP_SCRATCH < old(self).ram().len(),
            LINK_THROW_OAM_STATE_INDEX < old(self).ram().len(),
        ensures
            final(self).ram() == old(self).ram()
                .update(LINK_DEBUG_VALUE_1 as int, 0u8)
                .update(LINK_DEBUG_VALUE_2 as int, 0u8)
                .update(LINK_ITEM_ACTION_STEP_SCRATCH as int, 0u8)
                .update(LINK_THROW_OAM_STATE_INDEX as int, 0u8),
            final(final(self).ram)@ == final(old(self).ram)@,
    {
        self.ram[LINK_DEBUG_VALUE_1] = 0;
        self.ram[LINK_DEBUG_VALUE_2] = 0;
        self.ram[LINK_ITEM_ACTION_STEP_SCRATCH] = 0;
        self.ram[LINK_THROW_OAM_STATE_INDEX] = 0;
    }

    pub fn clear_lift_throw_scratch_state(&mut self)
        requires
            LINK_ITEM_ACTION_STEP_SCRATCH < old(self).ram().len(),
            LINK_THROW_OAM_STATE_INDEX < old(self).ram().len(),
        ensures
            final(self).ram() == old(self).ram()
                .update(LINK_ITEM_ACTION_STEP_SCRATCH as int, 0u8)
                .update(LINK_THROW_OAM_STATE_INDEX as int, 0u8),
            final(final(self).ram)@ == final(old(self).ram)@,
    {
        self.ram[LINK_ITEM_ACTION_STEP_SCRATCH] = 0;
        self.ram[LINK_THROW_OAM_STATE_INDEX] = 0;
    }

    pub fn spend_magic(&mut self, cost: u8) -> (result: bool)
        requires
            LINK_MAGIC_POWER < old(self).ram().len(),
        ensures
            result == ((old(self).ram()[LINK_MAGIC_POWER as int] != 0)
                 && (old(self).ram()[LINK_MAGIC_POWER as int].wrapping_sub(cost) < 0x80)),
            final(self).ram() == (if (old(self).ram()[LINK_MAGIC_POWER as int] != 0) && (old(self).ram()[LINK_MAGIC_POWER as int].wrapping_sub(cost) < 0x80) {
                old(self).ram()
                    .update(
                        LINK_MAGIC_POWER as int,
                        old(self).ram()[LINK_MAGIC_POWER as int].wrapping_sub(cost),
                    )
            } else {
                old(self).ram()
            }),
            final(final(self).ram)@ == final(old(self).ram)@,
    {
        let new_magic = self.ram[LINK_MAGIC_POWER].wrapping_sub(cost);
        if self.ram[LINK_MAGIC_POWER] != 0 && new_magic < 0x80 {
            self.ram[LINK_MAGIC_POWER] = new_magic;
            true
        } else {
            false
        }
    }

    pub fn refund_magic(&mut self, cost: u8, clamp_full: bool)
        requires
            LINK_MAGIC_POWER < old(self).ram().len(),
        ensures
            final(self).ram() == (if clamp_full && ((((old(self).ram()[LINK_MAGIC_POWER as int] as u16) + (cost as u16)) as u16) >= 128) {
                old(self).ram().update(LINK_MAGIC_POWER as int, 128 as u8)
            } else {
                old(self).ram()
                    .update(
                        LINK_MAGIC_POWER as int,
                        (((old(self).ram()[LINK_MAGIC_POWER as int] as u16) + (cost as u16)) as u16) as u8,
                    )
            }),
            final(final(self).ram)@ == final(old(self).ram)@,
    {
        let mut new_magic = self.ram[LINK_MAGIC_POWER] as u16 + cost as u16;
        if clamp_full && new_magic >= 128 {
            new_magic = 128;
        }
        self.ram[LINK_MAGIC_POWER] = new_magic as u8;
    }

    pub fn decrement_magic_power(&mut self) -> (result: u8)
        requires
            LINK_MAGIC_POWER < old(self).ram().len(),
        ensures
            result == old(self).ram()[LINK_MAGIC_POWER as int].wrapping_sub(1),
            final(self).ram() == old(self).ram().update(
                LINK_MAGIC_POWER as int,
                old(self).ram()[LINK_MAGIC_POWER as int].wrapping_sub(1),
            ),
            final(final(self).ram)@ == final(old(self).ram)@,
    {
        self.ram[LINK_MAGIC_POWER] = self.ram[LINK_MAGIC_POWER].wrapping_sub(1);
        self.ram[LINK_MAGIC_POWER]
    }

    pub fn advance_animation_step(&mut self, wrap_at: u8, wrap_to: u8)
        requires
            LINK_ANIMATION_STEPS < old(self).ram().len(),
        ensures
            final(self).ram() == (if old(self).ram()[LINK_ANIMATION_STEPS as int].wrapping_add(1) == wrap_at {
                old(self).ram()
                    .update(
                        LINK_ANIMATION_STEPS as int,
                        old(self).ram()[LINK_ANIMATION_STEPS as int].wrapping_add(1),
                    )
                    .update(LINK_ANIMATION_STEPS as int, wrap_to)
            } else {
                old(self).ram()
                    .update(
                        LINK_ANIMATION_STEPS as int,
                        old(self).ram()[LINK_ANIMATION_STEPS as int].wrapping_add(1),
                    )
            }),
            final(final(self).ram)@ == final(old(self).ram)@,
    {
        self.ram[LINK_ANIMATION_STEPS] = self.ram[LINK_ANIMATION_STEPS].wrapping_add(1);
        if self.ram[LINK_ANIMATION_STEPS] == wrap_at {
            self.ram[LINK_ANIMATION_STEPS] = wrap_to;
        }
    }

    pub fn advance_animation_step_at_least(&mut self, wrap_at: u8, wrap_to: u8)
        requires
            LINK_ANIMATION_STEPS < old(self).ram().len(),
        ensures
            final(self).ram() == (if old(self).ram()[LINK_ANIMATION_STEPS as int].wrapping_add(1) >= wrap_at {
                old(self).ram()
                    .update(
                        LINK_ANIMATION_STEPS as int,
                        old(self).ram()[LINK_ANIMATION_STEPS as int].wrapping_add(1),
                    )
                    .update(LINK_ANIMATION_STEPS as int, wrap_to)
            } else {
                old(self).ram()
                    .update(
                        LINK_ANIMATION_STEPS as int,
                        old(self).ram()[LINK_ANIMATION_STEPS as int].wrapping_add(1),
                    )
            }),
            final(final(self).ram)@ == final(old(self).ram)@,
    {
        self.ram[LINK_ANIMATION_STEPS] = self.ram[LINK_ANIMATION_STEPS].wrapping_add(1);
        if self.ram[LINK_ANIMATION_STEPS] >= wrap_at {
            self.ram[LINK_ANIMATION_STEPS] = wrap_to;
        }
    }

    pub fn initialize_link_action_state(&mut self)
        requires
            LINK_FACING < old(self).ram().len(),
            LINK_LAST_DIRECTION < old(self).ram().len(),
            LINK_ITEM_IN_HAND < old(self).ram().len(),
            LINK_POSITION_MODE < old(self).ram().len(),
            LINK_DEBUG_VALUE_1 < old(self).ram().len(),
            LINK_DEBUG_VALUE_2 < old(self).ram().len(),
            LINK_ITEM_ACTION_STEP_SCRATCH < old(self).ram().len(),
            LINK_THROW_OAM_STATE_INDEX < old(self).ram().len(),
            Y_BUTTON_ACTION_STEP < old(self).ram().len(),
            LINK_IS_TRANSFORMING < old(self).ram().len(),
            Y_BUTTON_ACTION_FLAGS < old(self).ram().len(),
            BUTTON_MASK_B_Y < old(self).ram().len(),
            LINK_STATE_BITS < old(self).ram().len(),
            LINK_PICKING_THROW_STATE < old(self).ram().len(),
            LINK_GRABBING_WALL < old(self).ram().len(),
        ensures
            final(self).ram() == old(self).ram()
                .update(LINK_FACING as int, 2u8)
                .update(LINK_LAST_DIRECTION as int, 0u8)
                .update(LINK_ITEM_IN_HAND as int, 0u8)
                .update(LINK_POSITION_MODE as int, 0u8)
                .update(LINK_DEBUG_VALUE_1 as int, 0u8)
                .update(LINK_DEBUG_VALUE_2 as int, 0u8)
                .update(LINK_ITEM_ACTION_STEP_SCRATCH as int, 0u8)
                .update(LINK_THROW_OAM_STATE_INDEX as int, 0u8)
                .update(Y_BUTTON_ACTION_STEP as int, 0u8)
                .update(LINK_IS_TRANSFORMING as int, 0u8)
                .update(Y_BUTTON_ACTION_FLAGS as int, 0u8)
                .update(BUTTON_MASK_B_Y as int, old(self).ram()[BUTTON_MASK_B_Y as int] & (!0x40))
                .update(LINK_STATE_BITS as int, 0u8)
                .update(LINK_PICKING_THROW_STATE as int, 0u8)
                .update(LINK_GRABBING_WALL as int, 0u8),
            final(final(self).ram)@ == final(old(self).ram)@,
    {
        self.ram[LINK_FACING] = 2;
        self.ram[LINK_LAST_DIRECTION] = 0;
        self.ram[LINK_ITEM_IN_HAND] = 0;
        self.ram[LINK_POSITION_MODE] = 0;
        self.ram[LINK_DEBUG_VALUE_1] = 0;
        self.ram[LINK_DEBUG_VALUE_2] = 0;
        self.ram[LINK_ITEM_ACTION_STEP_SCRATCH] = 0;
        self.ram[LINK_THROW_OAM_STATE_INDEX] = 0;
        self.ram[Y_BUTTON_ACTION_STEP] = 0;
        self.ram[LINK_IS_TRANSFORMING] = 0;
        self.ram[Y_BUTTON_ACTION_FLAGS] = 0;
        self.ram[BUTTON_MASK_B_Y] &= !0x40;
        self.ram[LINK_STATE_BITS] = 0;
        self.ram[LINK_PICKING_THROW_STATE] = 0;
        self.ram[LINK_GRABBING_WALL] = 0;
    }

    pub fn finish_link_action_state_initialization(&mut self)
        requires
            LINK_CANT_CHANGE_DIRECTION < old(self).ram().len(),
            LINK_Z_COORD + 1 < old(self).ram().len(),
            LINK_AUXILIARY_STATE < old(self).ram().len(),
            LINK_INCAPACITATED_TIMER < old(self).ram().len(),
            COUNTDOWN_FOR_BLINK < old(self).ram().len(),
            LINK_ELECTROCUTE_ON_TOUCH < old(self).ram().len(),
            LINK_POSE_FOR_ITEM < old(self).ram().len(),
            LINK_CAPE_MODE < old(self).ram().len(),
            LINK_DISABLE_SPRITE_DAMAGE < old(self).ram().len(),
            PLAYER_HANDLER_TIMER < old(self).ram().len(),
            LINK_DIRECTION < old(self).ram().len(),
            PLAYER_ON_SOMARIA_PLATFORM < old(self).ram().len(),
            LINK_SPIN_ATTACK_STEP_COUNTER < old(self).ram().len(),
        ensures
            final(self).ram() == old(self).ram()
                .update(
                    LINK_CANT_CHANGE_DIRECTION as int,
                    old(self).ram()[LINK_CANT_CHANGE_DIRECTION as int] & (!1),
                )
                .update(LINK_Z_COORD + 1, 0u8)
                .update(LINK_AUXILIARY_STATE as int, 0u8)
                .update(LINK_INCAPACITATED_TIMER as int, 0u8)
                .update(COUNTDOWN_FOR_BLINK as int, 0u8)
                .update(LINK_ELECTROCUTE_ON_TOUCH as int, 0u8)
                .update(LINK_POSE_FOR_ITEM as int, 0u8)
                .update(LINK_CAPE_MODE as int, 0u8)
                .update(LINK_DISABLE_SPRITE_DAMAGE as int, 0u8)
                .update(PLAYER_HANDLER_TIMER as int, 0u8)
                .update(LINK_DIRECTION as int, old(self).ram()[LINK_DIRECTION as int] & (!0x0f))
                .update(PLAYER_ON_SOMARIA_PLATFORM as int, 0u8)
                .update(LINK_SPIN_ATTACK_STEP_COUNTER as int, 0u8),
            final(final(self).ram)@ == final(old(self).ram)@,
    {
        self.ram[LINK_CANT_CHANGE_DIRECTION] &= !1;
        self.clear_z_high();
        self.ram[LINK_AUXILIARY_STATE] = 0;
        self.ram[LINK_INCAPACITATED_TIMER] = 0;
        self.ram[COUNTDOWN_FOR_BLINK] = 0;
        self.ram[LINK_ELECTROCUTE_ON_TOUCH] = 0;
        self.ram[LINK_POSE_FOR_ITEM] = 0;
        self.ram[LINK_CAPE_MODE] = 0;
        self.ram[LINK_DISABLE_SPRITE_DAMAGE] = 0;
        self.ram[PLAYER_HANDLER_TIMER] = 0;
        self.ram[LINK_DIRECTION] &= !0x0f;
        self.ram[PLAYER_ON_SOMARIA_PLATFORM] = 0;
        self.ram[LINK_SPIN_ATTACK_STEP_COUNTER] = 0;
    }

    pub fn clear_misc_bugfix_movement_state(&mut self)
        requires
            ABOUT_TO_JUMP_OFF_LEDGE < old(self).ram().len(),
            LINK_IS_NEAR_MOVEABLE_STATUE < old(self).ram().len(),
            LINK_ON_CONVEYOR_BELT < old(self).ram().len(),
            LINK_FLAG_MOVING < old(self).ram().len(),
        ensures
            final(self).ram() == old(self).ram()
                .update(ABOUT_TO_JUMP_OFF_LEDGE as int, 0u8)
                .update(LINK_IS_NEAR_MOVEABLE_STATUE as int, 0u8)
                .update(LINK_ON_CONVEYOR_BELT as int, 0u8)
                .update(LINK_FLAG_MOVING as int, 0u8),
            final(final(self).ram)@ == final(old(self).ram)@,
    {
        self.ram[ABOUT_TO_JUMP_OFF_LEDGE] = 0;
        self.ram[LINK_IS_NEAR_MOVEABLE_STATUE] = 0;
        self.ram[LINK_ON_CONVEYOR_BELT] = 0;
        self.ram[LINK_FLAG_MOVING] = 0;
    }

    pub fn become_bunny_handler(&mut self)
        requires
            LINK_HANDLER_STATE < old(self).ram().len(),
            LINK_IS_BUNNY < old(self).ram().len(),
            LINK_IS_BUNNY_MIRROR < old(self).ram().len(),
        ensures
            final(self).ram() == old(self).ram()
                .update(LINK_HANDLER_STATE as int, 23u8)
                .update(LINK_IS_BUNNY as int, 1u8)
                .update(LINK_IS_BUNNY_MIRROR as int, 1u8),
            final(final(self).ram)@ == final(old(self).ram)@,
    {
        self.ram[LINK_HANDLER_STATE] = 23;
        self.ram[LINK_IS_BUNNY] = 1;
        self.ram[LINK_IS_BUNNY_MIRROR] = 1;
    }

    pub fn reset_properties_a_fields(&mut self)
        requires
            LINK_LAST_DIRECTION < old(self).ram().len(),
            LINK_DIRECTION < old(self).ram().len(),
            LINK_FLAG_MOVING < old(self).ram().len(),
            LINK_IS_TRANSFORMING < old(self).ram().len(),
            COUNTDOWN_FOR_BLINK < old(self).ram().len(),
            PLAYER_RESET_ANCILLA_WORK_BYTE_24 < old(self).ram().len(),
            LINK_IS_BUNNY < old(self).ram().len(),
            LINK_IS_BUNNY_MIRROR < old(self).ram().len(),
            LINK_TIMER_TEMPBUNNY < old(self).ram().len(),
            LINK_NEED_FOR_POOF_FOR_TRANSFORM < old(self).ram().len(),
            IS_ARCHER_OR_SHOVEL_GAME < old(self).ram().len(),
            LINK_NEED_FOR_PULLFORRUPEES_SPRITE < old(self).ram().len(),
            BIT9_OF_XCOORD < old(self).ram().len(),
            LINK_SOMETHING_WITH_HOOKSHOT < old(self).ram().len(),
            LINK_GIVE_DAMAGE < old(self).ram().len(),
            LINK_SPIN_OFFSETS < old(self).ram().len(),
            TAGALONG_EVENT_FLAGS < old(self).ram().len(),
            LINK_WANT_MAKE_NOISE_WHEN_DASHED < old(self).ram().len(),
            TILEDETECT_TILE_TYPE < old(self).ram().len(),
            ITEM_RECEIPT_METHOD < old(self).ram().len(),
            LINK_TRIGGERED_BY_WHIRLPOOL_SPRITE < old(self).ram().len(),
        ensures
            final(self).ram() == old(self).ram()
                .update(LINK_LAST_DIRECTION as int, 0u8)
                .update(LINK_DIRECTION as int, 0u8)
                .update(LINK_FLAG_MOVING as int, 0u8)
                .update(LINK_IS_TRANSFORMING as int, 0u8)
                .update(COUNTDOWN_FOR_BLINK as int, 0u8)
                .update(PLAYER_RESET_ANCILLA_WORK_BYTE_24 as int, 0u8)
                .update(LINK_IS_BUNNY as int, 0u8)
                .update(LINK_IS_BUNNY_MIRROR as int, 0u8)
                .update(LINK_TIMER_TEMPBUNNY as int, 0u8)
                .update(LINK_NEED_FOR_POOF_FOR_TRANSFORM as int, 0u8)
                .update(IS_ARCHER_OR_SHOVEL_GAME as int, 0u8)
                .update(LINK_NEED_FOR_PULLFORRUPEES_SPRITE as int, 0u8)
                .update(BIT9_OF_XCOORD as int, 0u8)
                .update(LINK_SOMETHING_WITH_HOOKSHOT as int, 0u8)
                .update(LINK_GIVE_DAMAGE as int, 0u8)
                .update(LINK_SPIN_OFFSETS as int, 0u8)
                .update(TAGALONG_EVENT_FLAGS as int, 0u8)
                .update(LINK_WANT_MAKE_NOISE_WHEN_DASHED as int, 0u8)
                .update(TILEDETECT_TILE_TYPE as int, 0u8)
                .update(ITEM_RECEIPT_METHOD as int, 0u8)
                .update(LINK_TRIGGERED_BY_WHIRLPOOL_SPRITE as int, 0u8),
            final(final(self).ram)@ == final(old(self).ram)@,
    {
        self.ram[LINK_LAST_DIRECTION] = 0;
        self.ram[LINK_DIRECTION] = 0;
        self.ram[LINK_FLAG_MOVING] = 0;
        self.ram[LINK_IS_TRANSFORMING] = 0;
        self.ram[COUNTDOWN_FOR_BLINK] = 0;
        self.ram[PLAYER_RESET_ANCILLA_WORK_BYTE_24] = 0;
        self.ram[LINK_IS_BUNNY] = 0;
        self.ram[LINK_IS_BUNNY_MIRROR] = 0;
        self.ram[LINK_TIMER_TEMPBUNNY] = 0;
        self.ram[LINK_NEED_FOR_POOF_FOR_TRANSFORM] = 0;
        self.ram[IS_ARCHER_OR_SHOVEL_GAME] = 0;
        self.ram[LINK_NEED_FOR_PULLFORRUPEES_SPRITE] = 0;
        self.ram[BIT9_OF_XCOORD] = 0;
        self.ram[LINK_SOMETHING_WITH_HOOKSHOT] = 0;
        self.ram[LINK_GIVE_DAMAGE] = 0;
        self.ram[LINK_SPIN_OFFSETS] = 0;
        self.ram[TAGALONG_EVENT_FLAGS] = 0;
        self.ram[LINK_WANT_MAKE_NOISE_WHEN_DASHED] = 0;
        self.ram[TILEDETECT_TILE_TYPE] = 0;
        self.ram[ITEM_RECEIPT_METHOD] = 0;
        self.ram[LINK_TRIGGERED_BY_WHIRLPOOL_SPRITE] = 0;
    }

    pub fn reset_properties_b_fields(&mut self)
        requires
            PLAYER_ON_SOMARIA_PLATFORM < old(self).ram().len(),
            LINK_SPIN_ATTACK_STEP_COUNTER < old(self).ram().len(),
            PIT_CORRECTION_ACTIVE_FLAG < old(self).ram().len(),
            FLAG_IS_SPRITE_TO_PICK_UP_CACHED < old(self).ram().len(),
            PLAYER_DEFENSE_FLAGS < old(self).ram().len(),
            PLAYER_PIT_DATA_INDEX < old(self).ram().len(),
            PLAYER_NEAR_PIT_STATE < old(self).ram().len(),
        ensures
            final(self).ram() == old(self).ram()
                .update(PLAYER_ON_SOMARIA_PLATFORM as int, 0u8)
                .update(LINK_SPIN_ATTACK_STEP_COUNTER as int, 0u8)
                .update(PIT_CORRECTION_ACTIVE_FLAG as int, 0u8)
                .update(FLAG_IS_SPRITE_TO_PICK_UP_CACHED as int, 0u8)
                .update(PLAYER_DEFENSE_FLAGS as int, 0u8)
                .update(PLAYER_PIT_DATA_INDEX as int, 0u8)
                .update(PLAYER_NEAR_PIT_STATE as int, 0u8),
            final(final(self).ram)@ == final(old(self).ram)@,
    {
        self.ram[PLAYER_ON_SOMARIA_PLATFORM] = 0;
        self.ram[LINK_SPIN_ATTACK_STEP_COUNTER] = 0;
        self.ram[PIT_CORRECTION_ACTIVE_FLAG] = 0;
        self.ram[FLAG_IS_SPRITE_TO_PICK_UP_CACHED] = 0;
        self.ram[PLAYER_DEFENSE_FLAGS] = 0;
        self.ram[PLAYER_PIT_DATA_INDEX] = 0;
        self.ram[PLAYER_NEAR_PIT_STATE] = 0;
    }

    pub fn clear_custom_spell_animation(&mut self)
        requires
            FLAG_CUSTOM_SPELL_ANIM_ACTIVE < old(self).ram().len(),
        ensures
            final(self).ram() == old(self).ram().update(FLAG_CUSTOM_SPELL_ANIM_ACTIVE as int, 0u8),
            final(final(self).ram)@ == final(old(self).ram)@,
    {
        self.ram[FLAG_CUSTOM_SPELL_ANIM_ACTIVE] = 0;
    }

    #[verifier::rlimit(40)]
    pub fn reset_properties_c_fields(&mut self)
        requires
            TILE_ACTION_INDEX < old(self).ram().len(),
            STATE_FOR_SPIN_ATTACK < old(self).ram().len(),
            STEP_COUNTER_FOR_SPIN_ATTACK < old(self).ram().len(),
            TILE_COLL_FLAG < old(self).ram().len(),
            LINK_FORCE_HOLD_SWORD_UP < old(self).ram().len(),
            LINK_SWORD_DELAY_TIMER < old(self).ram().len(),
            TILEDETECT_MISC_TILES + 1 < old(self).ram().len(),
            LINK_ITEM_IN_HAND < old(self).ram().len(),
            LINK_POSITION_MODE < old(self).ram().len(),
            LINK_DEBUG_VALUE_1 < old(self).ram().len(),
            LINK_DEBUG_VALUE_2 < old(self).ram().len(),
            LINK_ITEM_ACTION_STEP_SCRATCH < old(self).ram().len(),
            LINK_THROW_OAM_STATE_INDEX < old(self).ram().len(),
            Y_BUTTON_ACTION_STEP < old(self).ram().len(),
            Y_BUTTON_ACTION_FLAGS < old(self).ram().len(),
            BUTTON_MASK_B_Y < old(self).ram().len(),
            BUTTON_B_FRAMES < old(self).ram().len(),
            LINK_STATE_BITS < old(self).ram().len(),
            LINK_PICKING_THROW_STATE < old(self).ram().len(),
            LINK_GRABBING_WALL < old(self).ram().len(),
            LINK_CANT_CHANGE_DIRECTION < old(self).ram().len(),
            LINK_AUXILIARY_STATE < old(self).ram().len(),
            LINK_INCAPACITATED_TIMER < old(self).ram().len(),
            LINK_ELECTROCUTE_ON_TOUCH < old(self).ram().len(),
            LINK_POSE_FOR_ITEM < old(self).ram().len(),
            LINK_CAPE_MODE < old(self).ram().len(),
            LINK_DISABLE_SPRITE_DAMAGE < old(self).ram().len(),
            PLAYER_HANDLER_TIMER < old(self).ram().len(),
            RELATED_TO_HOOKSHOT < old(self).ram().len(),
            FLAG_IS_ANCILLA_TO_PICK_UP < old(self).ram().len(),
            FLAG_IS_SPRITE_TO_PICK_UP < old(self).ram().len(),
            LINK_NEED_FOR_PULLFORRUPEES_SPRITE < old(self).ram().len(),
            LINK_IS_NEAR_MOVEABLE_STATUE < old(self).ram().len(),
        ensures
            final(self).ram() == types::with_u16(old(self).ram().update(TILE_ACTION_INDEX as int, 0u8).update(STATE_FOR_SPIN_ATTACK as int, 0u8).update(STEP_COUNTER_FOR_SPIN_ATTACK as int, 0u8).update(TILE_COLL_FLAG as int, 0u8).update(LINK_FORCE_HOLD_SWORD_UP as int, 0u8).update(LINK_SWORD_DELAY_TIMER as int, 0u8), TILEDETECT_MISC_TILES as int, 0u16)
                .update(LINK_ITEM_IN_HAND as int, 0u8)
                .update(LINK_POSITION_MODE as int, 0u8)
                .update(LINK_DEBUG_VALUE_1 as int, 0u8)
                .update(LINK_DEBUG_VALUE_2 as int, 0u8)
                .update(LINK_ITEM_ACTION_STEP_SCRATCH as int, 0u8)
                .update(LINK_THROW_OAM_STATE_INDEX as int, 0u8)
                .update(Y_BUTTON_ACTION_STEP as int, 0u8)
                .update(Y_BUTTON_ACTION_FLAGS as int, 0u8)
                .update(BUTTON_MASK_B_Y as int, 0u8)
                .update(BUTTON_B_FRAMES as int, 0u8)
                .update(LINK_STATE_BITS as int, 0u8)
                .update(LINK_PICKING_THROW_STATE as int, 0u8)
                .update(LINK_GRABBING_WALL as int, 0u8)
                .update(LINK_CANT_CHANGE_DIRECTION as int, 0u8)
                .update(LINK_AUXILIARY_STATE as int, 0u8)
                .update(LINK_INCAPACITATED_TIMER as int, 0u8)
                .update(LINK_ELECTROCUTE_ON_TOUCH as int, 0u8)
                .update(LINK_POSE_FOR_ITEM as int, 0u8)
                .update(LINK_CAPE_MODE as int, 0u8)
                .update(LINK_DISABLE_SPRITE_DAMAGE as int, 0u8)
                .update(PLAYER_HANDLER_TIMER as int, 0u8)
                .update(RELATED_TO_HOOKSHOT as int, 0u8)
                .update(FLAG_IS_ANCILLA_TO_PICK_UP as int, 0u8)
                .update(FLAG_IS_SPRITE_TO_PICK_UP as int, 0u8)
                .update(LINK_NEED_FOR_PULLFORRUPEES_SPRITE as int, 0u8)
                .update(LINK_IS_NEAR_MOVEABLE_STATUE as int, 0u8),
            final(final(self).ram)@ == final(old(self).ram)@,
    {
        self.ram[TILE_ACTION_INDEX] = 0;
        self.ram[STATE_FOR_SPIN_ATTACK] = 0;
        self.ram[STEP_COUNTER_FOR_SPIN_ATTACK] = 0;
        self.ram[TILE_COLL_FLAG] = 0;
        self.ram[LINK_FORCE_HOLD_SWORD_UP] = 0;
        self.ram[LINK_SWORD_DELAY_TIMER] = 0;
        write_le_u16(self.ram, TILEDETECT_MISC_TILES, 0);
        self.ram[LINK_ITEM_IN_HAND] = 0;
        self.ram[LINK_POSITION_MODE] = 0;
        self.ram[LINK_DEBUG_VALUE_1] = 0;
        self.ram[LINK_DEBUG_VALUE_2] = 0;
        self.ram[LINK_ITEM_ACTION_STEP_SCRATCH] = 0;
        self.ram[LINK_THROW_OAM_STATE_INDEX] = 0;
        self.ram[Y_BUTTON_ACTION_STEP] = 0;
        self.ram[Y_BUTTON_ACTION_FLAGS] = 0;
        self.ram[BUTTON_MASK_B_Y] = 0;
        self.ram[BUTTON_B_FRAMES] = 0;
        self.ram[LINK_STATE_BITS] = 0;
        self.ram[LINK_PICKING_THROW_STATE] = 0;
        self.ram[LINK_GRABBING_WALL] = 0;
        self.ram[LINK_CANT_CHANGE_DIRECTION] = 0;
        self.ram[LINK_AUXILIARY_STATE] = 0;
        self.ram[LINK_INCAPACITATED_TIMER] = 0;
        self.ram[LINK_ELECTROCUTE_ON_TOUCH] = 0;
        self.ram[LINK_POSE_FOR_ITEM] = 0;
        self.ram[LINK_CAPE_MODE] = 0;
        self.ram[LINK_DISABLE_SPRITE_DAMAGE] = 0;
        self.ram[PLAYER_HANDLER_TIMER] = 0;
        self.ram[RELATED_TO_HOOKSHOT] = 0;
        self.ram[FLAG_IS_ANCILLA_TO_PICK_UP] = 0;
        self.ram[FLAG_IS_SPRITE_TO_PICK_UP] = 0;
        self.ram[LINK_NEED_FOR_PULLFORRUPEES_SPRITE] = 0;
        self.ram[LINK_IS_NEAR_MOVEABLE_STATUE] = 0;
    }

    pub fn setup_bed_pose(&mut self)
        requires
            LINK_HANDLER_STATE < old(self).ram().len(),
            PLAYER_SLEEP_IN_BED_STATE < old(self).ram().len(),
            LINK_POSE_DURING_OPENING < old(self).ram().len(),
            LINK_COUNTDOWN_FOR_DASH < old(self).ram().len(),
        ensures
            final(self).ram() == old(self).ram()
                .update(LINK_HANDLER_STATE as int, 0x16u8)
                .update(PLAYER_SLEEP_IN_BED_STATE as int, 0u8)
                .update(LINK_POSE_DURING_OPENING as int, 0u8)
                .update(LINK_COUNTDOWN_FOR_DASH as int, 3u8),
            final(final(self).ram)@ == final(old(self).ram)@,
    {
        self.ram[LINK_HANDLER_STATE] = 0x16;
        self.ram[PLAYER_SLEEP_IN_BED_STATE] = 0;
        self.ram[LINK_POSE_DURING_OPENING] = 0;
        self.ram[LINK_COUNTDOWN_FOR_DASH] = 3;
    }

    pub fn reset_swimming_state_fields(&mut self)
        requires
            SWIMMING_COUNTDOWN < old(self).ram().len(),
            LINK_SWIM_HARD_STROKE < old(self).ram().len(),
            LINK_MAYBE_SWIM_FASTER < old(self).ram().len(),
        ensures
            final(self).ram() == old(self).ram()
                .update(SWIMMING_COUNTDOWN as int, 0u8)
                .update(LINK_SWIM_HARD_STROKE as int, 0u8)
                .update(LINK_MAYBE_SWIM_FASTER as int, 0u8),
            final(final(self).ram)@ == final(old(self).ram)@,
    {
        self.ram[SWIMMING_COUNTDOWN] = 0;
        self.ram[LINK_SWIM_HARD_STROKE] = 0;
        self.ram[LINK_MAYBE_SWIM_FASTER] = 0;
    }

    pub fn reset_after_damaging_pit(&mut self)
        requires
            LINK_HANDLER_STATE < old(self).ram().len(),
            LINK_IS_BUNNY < old(self).ram().len(),
            LINK_ITEM_MOON_PEARL < old(self).ram().len(),
            LINK_LAST_DIRECTION < old(self).ram().len(),
            SWIM_PLAYER_DIRECTION_FLAGS < old(self).ram().len(),
            LINK_IS_IN_DEEP_WATER < old(self).ram().len(),
            LINK_DISABLE_SPRITE_DAMAGE < old(self).ram().len(),
            PLAYER_PIT_DATA_INDEX < old(self).ram().len(),
            PLAYER_NEAR_PIT_STATE < old(self).ram().len(),
        ensures
            final(self).ram() == old(self).ram()
                .update(
                    LINK_HANDLER_STATE as int,
                    if (old(self).ram()[LINK_IS_BUNNY as int] != 0u8) && (old(self).ram()[LINK_ITEM_MOON_PEARL as int] == 0u8) {
                        23u8
                    } else {
                        0u8
                    },
                )
                .update(
                    LINK_LAST_DIRECTION as int,
                    old(self).ram()[SWIM_PLAYER_DIRECTION_FLAGS as int],
                )
                .update(LINK_IS_IN_DEEP_WATER as int, 0u8)
                .update(LINK_DISABLE_SPRITE_DAMAGE as int, 0u8)
                .update(PLAYER_PIT_DATA_INDEX as int, 0u8)
                .update(PLAYER_NEAR_PIT_STATE as int, 0u8),
            final(final(self).ram)@ == final(old(self).ram)@,
    {
        self.ram[LINK_HANDLER_STATE] = if self.ram[LINK_IS_BUNNY] != 0 && self.ram[LINK_ITEM_MOON_PEARL] == 0 {
            23
        } else {
            0
        };
        self.ram[LINK_LAST_DIRECTION] = self.ram[SWIM_PLAYER_DIRECTION_FLAGS];
        self.ram[LINK_IS_IN_DEEP_WATER] = 0;
        self.ram[LINK_DISABLE_SPRITE_DAMAGE] = 0;
        self.ram[PLAYER_PIT_DATA_INDEX] = 0;
        self.ram[PLAYER_NEAR_PIT_STATE] = 0;
    }

    pub fn recache_bunny_state(&mut self)
        requires
            LINK_NEED_FOR_POOF_FOR_TRANSFORM < old(self).ram().len(),
            LINK_TIMER_TEMPBUNNY + 1 < old(self).ram().len(),
            LINK_ITEM_MOON_PEARL < old(self).ram().len(),
            old(self).ram()[LINK_ITEM_MOON_PEARL as int] != 0
                ==> LINK_IS_BUNNY < old(self).ram().len(),
            old(self).ram()[LINK_ITEM_MOON_PEARL as int] != 0
                ==> LINK_AUXILIARY_STATE < old(self).ram().len(),
            LINK_ANIMATION_STEPS < old(self).ram().len(),
            LINK_IS_TRANSFORMING < old(self).ram().len(),
            LINK_CANT_CHANGE_DIRECTION < old(self).ram().len(),
        ensures
            final(self).ram() == (if old(self).ram()[LINK_ITEM_MOON_PEARL as int] != 0 {
                types::with_u16(
                    old(self).ram()
                        .update(LINK_NEED_FOR_POOF_FOR_TRANSFORM as int, 0u8),
                    LINK_TIMER_TEMPBUNNY as int,
                    0u16,
                )
                    .update(LINK_IS_BUNNY as int, 0u8)
                    .update(LINK_AUXILIARY_STATE as int, 0u8)
                    .update(LINK_ANIMATION_STEPS as int, 0u8)
                    .update(LINK_IS_TRANSFORMING as int, 0u8)
                    .update(LINK_CANT_CHANGE_DIRECTION as int, 0u8)
            } else {
                types::with_u16(
                    old(self).ram()
                        .update(LINK_NEED_FOR_POOF_FOR_TRANSFORM as int, 0u8),
                    LINK_TIMER_TEMPBUNNY as int,
                    0u16,
                )
                    .update(LINK_ANIMATION_STEPS as int, 0u8)
                    .update(LINK_IS_TRANSFORMING as int, 0u8)
                    .update(LINK_CANT_CHANGE_DIRECTION as int, 0u8)
            }),
            final(final(self).ram)@ == final(old(self).ram)@,
    {
        self.ram[LINK_NEED_FOR_POOF_FOR_TRANSFORM] = 0;
        write_le_u16(self.ram, LINK_TIMER_TEMPBUNNY, 0);
        if self.ram[LINK_ITEM_MOON_PEARL] != 0 {
            self.ram[LINK_IS_BUNNY] = 0;
            self.ram[LINK_AUXILIARY_STATE] = 0;
        }
        self.ram[LINK_ANIMATION_STEPS] = 0;
        self.ram[LINK_IS_TRANSFORMING] = 0;
        self.ram[LINK_CANT_CHANGE_DIRECTION] = 0;
    }

    pub fn enter_deep_water(&mut self)
        requires
            LINK_IS_IN_DEEP_WATER < old(self).ram().len(),
            SWIM_PLAYER_DIRECTION_FLAGS < old(self).ram().len(),
            LINK_LAST_DIRECTION < old(self).ram().len(),
            LINK_GRABBING_WALL < old(self).ram().len(),
            LINK_SPEED_SETTING < old(self).ram().len(),
        ensures
            final(self).ram() == old(self).ram()
                .update(LINK_IS_IN_DEEP_WATER as int, 1u8)
                .update(
                    SWIM_PLAYER_DIRECTION_FLAGS as int,
                    old(self).ram()[LINK_LAST_DIRECTION as int],
                )
                .update(LINK_GRABBING_WALL as int, 0u8)
                .update(LINK_SPEED_SETTING as int, 0u8),
            final(final(self).ram)@ == final(old(self).ram)@,
    {
        self.ram[LINK_IS_IN_DEEP_WATER] = 1;
        self.ram[SWIM_PLAYER_DIRECTION_FLAGS] = self.ram[LINK_LAST_DIRECTION];
        self.ram[LINK_GRABBING_WALL] = 0;
        self.ram[LINK_SPEED_SETTING] = 0;
    }

    pub fn cache_safe_return_position_from_current(&mut self)
        requires
            LINK_X_COORD_SAFE_RETURN_LO < old(self).ram().len(),
            LINK_X_COORD < old(self).ram().len(),
            LINK_X_COORD_SAFE_RETURN_HI < old(self).ram().len(),
            LINK_X_COORD + 1 < old(self).ram().len(),
            LINK_Y_COORD_SAFE_RETURN_LO < old(self).ram().len(),
            LINK_Y_COORD < old(self).ram().len(),
            LINK_Y_COORD_SAFE_RETURN_HI < old(self).ram().len(),
            LINK_Y_COORD + 1 < old(self).ram().len(),
        ensures
            final(self).ram() == old(self).ram()
                .update(LINK_X_COORD_SAFE_RETURN_LO as int, old(self).ram()[LINK_X_COORD as int])
                .update(LINK_X_COORD_SAFE_RETURN_HI as int, old(self).ram()[LINK_X_COORD + 1])
                .update(LINK_Y_COORD_SAFE_RETURN_LO as int, old(self).ram()[LINK_Y_COORD as int])
                .update(LINK_Y_COORD_SAFE_RETURN_HI as int, old(self).ram()[LINK_Y_COORD + 1]),
            final(final(self).ram)@ == final(old(self).ram)@,
    {
        self.ram[LINK_X_COORD_SAFE_RETURN_LO] = self.ram[LINK_X_COORD];
        self.ram[LINK_X_COORD_SAFE_RETURN_HI] = self.ram[LINK_X_COORD + 1];
        self.ram[LINK_Y_COORD_SAFE_RETURN_LO] = self.ram[LINK_Y_COORD];
        self.ram[LINK_Y_COORD_SAFE_RETURN_HI] = self.ram[LINK_Y_COORD + 1];
    }

    pub fn clear_force_move_high_byte(&mut self)
        requires
            FORCE_MOVE_ANY_DIRECTION < old(self).ram().len(),
            FORCE_MOVE_ANY_DIRECTION + 1 < old(self).ram().len(),
        ensures
            final(self).ram() == types::with_u16(
                old(self).ram(),
                FORCE_MOVE_ANY_DIRECTION as int,
                old(self).ram()[FORCE_MOVE_ANY_DIRECTION as int] as u16,
            ),
            final(final(self).ram)@ == final(old(self).ram)@,
    {
        let lo = self.ram[FORCE_MOVE_ANY_DIRECTION];
        write_le_u16(self.ram, FORCE_MOVE_ANY_DIRECTION, lo as u16);
    }

    pub fn set_sprite_pickup_flag(&mut self, value: u8)
        requires
            FLAG_IS_SPRITE_TO_PICK_UP < old(self).ram().len(),
        ensures
            final(self).ram() == old(self).ram().update(FLAG_IS_SPRITE_TO_PICK_UP as int, value),
            final(final(self).ram)@ == final(old(self).ram)@,
    {
        self.ram[FLAG_IS_SPRITE_TO_PICK_UP] = value;
    }

    pub fn clear_sprite_pickup_flag(&mut self)
        requires
            FLAG_IS_SPRITE_TO_PICK_UP < old(self).ram().len(),
        ensures
            final(self).ram() == old(self).ram().update(FLAG_IS_SPRITE_TO_PICK_UP as int, 0u8),
            final(final(self).ram)@ == final(old(self).ram)@,
    {
        self.ram[FLAG_IS_SPRITE_TO_PICK_UP] = 0;
    }

    pub fn set_drag_player_x(&mut self, value: u16)
        requires
            DRAG_PLAYER_X + 1 < old(self).ram().len(),
        ensures
            final(self).ram() == types::with_u16(old(self).ram(), DRAG_PLAYER_X as int, value),
            final(final(self).ram)@ == final(old(self).ram)@,
    {
        write_le_u16(self.ram, DRAG_PLAYER_X, value);
    }

    pub fn set_drag_player_y(&mut self, value: u16)
        requires
            DRAG_PLAYER_Y + 1 < old(self).ram().len(),
        ensures
            final(self).ram() == types::with_u16(old(self).ram(), DRAG_PLAYER_Y as int, value),
            final(final(self).ram)@ == final(old(self).ram)@,
    {
        write_le_u16(self.ram, DRAG_PLAYER_Y, value);
    }

    pub fn add_drag_player_x(&mut self, delta: u16)
        requires
            DRAG_PLAYER_X + 1 < old(self).ram().len(),
        ensures
            final(self).ram() == types::with_u16(
                old(self).ram(),
                DRAG_PLAYER_X as int,
                access::word_at(old(self).ram(), DRAG_PLAYER_X as int)
                    .wrapping_add(delta),
            ),
            final(final(self).ram)@ == final(old(self).ram)@,
    {
        let cur = word(self.ram, DRAG_PLAYER_X);
        write_le_u16(self.ram, DRAG_PLAYER_X, cur.wrapping_add(delta));
    }

    pub fn add_drag_player_y(&mut self, delta: u16)
        requires
            DRAG_PLAYER_Y + 1 < old(self).ram().len(),
        ensures
            final(self).ram() == types::with_u16(
                old(self).ram(),
                DRAG_PLAYER_Y as int,
                access::word_at(old(self).ram(), DRAG_PLAYER_Y as int)
                    .wrapping_add(delta),
            ),
            final(final(self).ram)@ == final(old(self).ram)@,
    {
        let cur = word(self.ram, DRAG_PLAYER_Y);
        write_le_u16(self.ram, DRAG_PLAYER_Y, cur.wrapping_add(delta));
    }

    pub fn clear_somaria_block_bg_check_flag(&mut self)
        requires
            SOMARIA_BLOCK_BG_CHECK_FLAG < old(self).ram().len(),
        ensures
            final(self).ram() == old(self).ram().update(SOMARIA_BLOCK_BG_CHECK_FLAG as int, 0u8),
            final(final(self).ram)@ == final(old(self).ram)@,
    {
        self.ram[SOMARIA_BLOCK_BG_CHECK_FLAG] = 0;
    }

    pub fn clear_player_pose_draw_counter(&mut self)
        requires
            PLAYER_POSE_DRAW_COUNTER < old(self).ram().len(),
        ensures
            final(self).ram() == old(self).ram().update(PLAYER_POSE_DRAW_COUNTER as int, 0u8),
            final(final(self).ram)@ == final(old(self).ram)@,
    {
        self.ram[PLAYER_POSE_DRAW_COUNTER] = 0;
    }

    pub fn increment_player_pose_draw_counter(&mut self)
        requires
            PLAYER_POSE_DRAW_COUNTER < old(self).ram().len(),
        ensures
            final(self).ram() == old(self).ram().update(
                PLAYER_POSE_DRAW_COUNTER as int,
                old(self).ram()[PLAYER_POSE_DRAW_COUNTER as int].wrapping_add(1),
            ),
            final(final(self).ram)@ == final(old(self).ram)@,
    {
        self.ram[PLAYER_POSE_DRAW_COUNTER] = self.ram[PLAYER_POSE_DRAW_COUNTER].wrapping_add(1);
    }

    pub fn clear_player_special_draw_flag(&mut self)
        requires
            PLAYER_SPECIAL_DRAW_FLAG < old(self).ram().len(),
        ensures
            final(self).ram() == old(self).ram().update(PLAYER_SPECIAL_DRAW_FLAG as int, 0u8),
            final(final(self).ram)@ == final(old(self).ram)@,
    {
        self.ram[PLAYER_SPECIAL_DRAW_FLAG] = 0;
    }
}

} // verus!
