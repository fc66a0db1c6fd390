use vstd::prelude::*;
use super::access;
use super::access::{byte, word, fill_bytes};
use super::addresses::{
    ATTRACT_ANIM_STEP_COUNTER, ATTRACT_BG2_VOFS_BACKUP, ATTRACT_FADE_IN_COMPLETE_FLAG,
    ATTRACT_FADE_IN_DONE_FLAG, ATTRACT_LEGEND_CTR, ATTRACT_LEGEND_FLAG, ATTRACT_MAIDEN_WARP_STEP,
    ATTRACT_MAIDEN_WARP_TIMER_A, ATTRACT_MAIDEN_WARP_TIMER_B, ATTRACT_NEXT_LEGEND_GFX,
    ATTRACT_OAM_IDX, ATTRACT_PRISON_SOLDIER_X_LO, ATTRACT_PRISON_ZELDA_Y_BASE,
    ATTRACT_SCENE_DONE_FLAG, ATTRACT_SCENE_FRAME_COUNTER, ATTRACT_SCENE_SUBSTEP,
    ATTRACT_SCENE_TIMER, ATTRACT_SEQUENCE, ATTRACT_SOLDIER_ANIM_STEP, ATTRACT_STATE,
    ATTRACT_STORY_TEXT_POINTER, ATTRACT_SUBSTEP_DELAY_COUNTER, ATTRACT_THRONE_FADE_TIMER,
    ATTRACT_VRAM_DST, ATTRACT_X_BASE, ATTRACT_X_BASE_HI, ATTRACT_Y_BASE, INTRO_DID_RUN_STEP,
    INTRO_FRAME_CTR, INTRO_STEP_INDEX, INTRO_STEP_TIMER, INTRO_TIMES_PAL_FLASH,
    TIMER_FOR_MODE7_ZOOM,
};
use crate::types;
use crate::types::{read_le_u16, write_le_u16};

verus! {

pub struct AttractStateView<'a> {
    ram: &'a [u8],
}

impl<'a> AttractStateView<'a> {
    /// The bytes of RAM this view reads and writes.
    pub closed spec fn ram(&self) -> Seq<u8> {
        self.ram@
    }

    pub fn new(ram: &'a [u8]) -> (view: Self)
        ensures
            view.ram() == ram@,
    {
        Self { ram }
    }

    pub fn state(&self) -> (result: u8)
        ensures
            result == access::byte_at(self.ram(), ATTRACT_STATE as int),
    {
        byte(self.ram, ATTRACT_STATE)
    }

    pub fn state_word(&self) -> (result: u16)
        ensures
            result == access::word_at(self.ram(), ATTRACT_STATE as int),
    {
        word(self.ram, ATTRACT_STATE)
    }

    pub fn sequence(&self) -> (result: u8)
        ensures
            result == access::byte_at(self.ram(), ATTRACT_SEQUENCE as int),
    {
        byte(self.ram, ATTRACT_SEQUENCE)
    }

    pub fn scene_timer(&self) -> (result: u8)
        ensures
            result == access::byte_at(self.ram(), ATTRACT_SCENE_TIMER as int),
    {
        byte(self.ram, ATTRACT_SCENE_TIMER)
    }

    pub fn scene_substep(&self) -> (result: u8)
        ensures
            result == access::byte_at(self.ram(), ATTRACT_SCENE_SUBSTEP as int),
    {
        byte(self.ram, ATTRACT_SCENE_SUBSTEP)
    }

    pub fn x_base(&self) -> (result: u8)
        ensures
            result == access::byte_at(self.ram(), ATTRACT_X_BASE as int),
    {
        byte(self.ram, ATTRACT_X_BASE)
    }

    pub fn x_base_word(&self) -> (result: u16)
        ensures
            result == access::word_at(self.ram(), ATTRACT_X_BASE as int),
    {
        word(self.ram, ATTRACT_X_BASE)
    }

    pub fn x_base_high(&self) -> (result: u8)
        ensures
            result == access::byte_at(self.ram(), ATTRACT_X_BASE_HI as int),
    {
        byte(self.ram, ATTRACT_X_BASE_HI)
    }

    pub fn y_base(&self) -> (result: u8)
        ensures
            result == access::byte_at(self.ram(), ATTRACT_Y_BASE as int),
    {
        byte(self.ram, ATTRACT_Y_BASE)
    }

    pub fn oam_index(&self) -> (result: u8)
        ensures
            result == access::byte_at(self.ram(), ATTRACT_OAM_IDX as int),
    {
        byte(self.ram, ATTRACT_OAM_IDX)
    }

    pub fn maiden_warp_step(&self) -> (result: u8)
        ensures
            result == access::byte_at(self.ram(), ATTRACT_MAIDEN_WARP_STEP as int),
    {
        byte(self.ram, ATTRACT_MAIDEN_WARP_STEP)
    }

    pub fn intro_step_index(&self) -> (result: u8)
        ensures
            result == access::byte_at(self.ram(), INTRO_STEP_INDEX as int),
    {
        byte(self.ram, INTRO_STEP_INDEX)
    }

    pub fn intro_step_timer(&self) -> (result: u8)
        ensures
            result == access::byte_at(self.ram(), INTRO_STEP_TIMER as int),
    {
        byte(self.ram, INTRO_STEP_TIMER)
    }

    pub fn intro_frame_counter(&self) -> (result: u8)
        ensures
            result == access::byte_at(self.ram(), INTRO_FRAME_CTR as int),
    {
        byte(self.ram, INTRO_FRAME_CTR)
    }

    pub fn intro_did_run_step(&self) -> (result: u8)
        ensures
            result == access::byte_at(self.ram(), INTRO_DID_RUN_STEP as int),
    {
        byte(self.ram, INTRO_DID_RUN_STEP)
    }

    pub fn intro_palette_flash_count(&self) -> (result: u8)
        ensures
            result == access::byte_at(self.ram(), INTRO_TIMES_PAL_FLASH as int),
    {
        byte(self.ram, INTRO_TIMES_PAL_FLASH)
    }

    pub fn legend_flag(&self) -> (result: u8)
        ensures
            result == access::byte_at(self.ram(), ATTRACT_LEGEND_FLAG as int),
    {
        byte(self.ram, ATTRACT_LEGEND_FLAG)
    }

    pub fn next_legend_gfx(&self) -> (result: u8)
        ensures
            result == access::byte_at(self.ram(), ATTRACT_NEXT_LEGEND_GFX as int),
    {
        byte(self.ram, ATTRACT_NEXT_LEGEND_GFX)
    }

    pub fn next_legend_image(&self) -> (result: u8)
        ensures
            result == (access::byte_at(self.ram(), ATTRACT_NEXT_LEGEND_GFX as int) >> 1),
    {
        byte(self.ram, ATTRACT_NEXT_LEGEND_GFX) >> 1
    }

    pub fn bg2_vofs_backup(&self) -> (result: u16)
        ensures
            result == access::word_at(self.ram(), ATTRACT_BG2_VOFS_BACKUP as int),
    {
        word(self.ram, ATTRACT_BG2_VOFS_BACKUP)
    }

    pub fn throne_fade_timer(&self) -> (result: u8)
        ensures
            result == access::byte_at(self.ram(), ATTRACT_THRONE_FADE_TIMER as int),
    {
        byte(self.ram, ATTRACT_THRONE_FADE_TIMER)
    }

    pub fn prison_zelda_y_base(&self) -> (result: u8)
        ensures
            result == access::byte_at(self.ram(), ATTRACT_PRISON_ZELDA_Y_BASE as int),
    {
        byte(self.ram, ATTRACT_PRISON_ZELDA_Y_BASE)
    }

    pub fn anim_step_counter(&self) -> (result: u8)
        ensures
            result == access::byte_at(self.ram(), ATTRACT_ANIM_STEP_COUNTER as int),
    {
        byte(self.ram, ATTRACT_ANIM_STEP_COUNTER)
    }

    pub fn soldier_anim_step(&self) -> (result: u8)
        ensures
            result == access::byte_at(self.ram(), ATTRACT_SOLDIER_ANIM_STEP as int),
    {
        byte(self.ram, ATTRACT_SOLDIER_ANIM_STEP)
    }

    pub fn prison_soldier_x_lo(&self) -> (result: u8)
        ensures
            result == access::byte_at(self.ram(), ATTRACT_PRISON_SOLDIER_X_LO as int),
    {
        byte(self.ram, ATTRACT_PRISON_SOLDIER_X_LO)
    }

    pub fn scene_frame_counter(&self) -> (result: u8)
        ensures
            result == access::byte_at(self.ram(), ATTRACT_SCENE_FRAME_COUNTER as int),
    {
        byte(self.ram, ATTRACT_SCENE_FRAME_COUNTER)
    }

    pub fn scene_done_flag(&self) -> (result: u8)
        ensures
            result == access::byte_at(self.ram(), ATTRACT_SCENE_DONE_FLAG as int),
    {
        byte(self.ram, ATTRACT_SCENE_DONE_FLAG)
    }

    pub fn legend_ctr(&self) -> (result: u16)
        ensures
            result == access::word_at(self.ram(), ATTRACT_LEGEND_CTR as int),
    {
        word(self.ram, ATTRACT_LEGEND_CTR)
    }

    pub fn fade_in_complete_flag(&self) -> (result: u8)
        ensures
            result == access::byte_at(self.ram(), ATTRACT_FADE_IN_COMPLETE_FLAG as int),
    {
        byte(self.ram, ATTRACT_FADE_IN_COMPLETE_FLAG)
    }

    pub fn fade_in_done_flag(&self) -> (result: u8)
        ensures
            result == access::byte_at(self.ram(), ATTRACT_FADE_IN_DONE_FLAG as int),
    {
        byte(self.ram, ATTRACT_FADE_IN_DONE_FLAG)
    }

    pub fn substep_delay_counter(&self) -> (result: u8)
        ensures
            result == access::byte_at(self.ram(), ATTRACT_SUBSTEP_DELAY_COUNTER as int),
    {
        byte(self.ram, ATTRACT_SUBSTEP_DELAY_COUNTER)
    }

    pub fn maiden_warp_timer_a(&self) -> (result: u8)
        ensures
            result == access::byte_at(self.ram(), ATTRACT_MAIDEN_WARP_TIMER_A as int),
    {
        byte(self.ram, ATTRACT_MAIDEN_WARP_TIMER_A)
    }

    pub fn maiden_warp_timer_b(&self) -> (result: u8)
        ensures
            result == access::byte_at(self.ram(), ATTRACT_MAIDEN_WARP_TIMER_B as int),
    {
        byte(self.ram, ATTRACT_MAIDEN_WARP_TIMER_B)
    }

    pub fn vram_dst_byte(&self) -> (result: u8)
        ensures
            result == access::byte_at(self.ram(), ATTRACT_VRAM_DST as int),
    {
        byte(self.ram, ATTRACT_VRAM_DST)
    }

    pub fn vram_dst_word(&self) -> (result: u16)
        ensures
            result == access::word_at(self.ram(), ATTRACT_VRAM_DST as int),
    {
        word(self.ram, ATTRACT_VRAM_DST)
    }

    pub fn mode7_zoom_timer(&self) -> (result: u8)
        ensures
            result == access::byte_at(self.ram(), TIMER_FOR_MODE7_ZOOM as int),
    {
        byte(self.ram, TIMER_FOR_MODE7_ZOOM)
    }
}

pub struct AttractStateViewMut<'a> {
    pub ram: &'a mut [u8],
}

impl<'a> AttractStateViewMut<'a> {
    /// The bytes of RAM this view reads and writes.
    pub open spec fn ram(&self) -> Seq<u8> {
        self.ram@
    }

    pub fn new(ram: &'a mut [u8]) -> (view: Self)
        ensures
            view.ram() == old(ram)@,
            final(view.ram)@ == final(ram)@,
    {
        Self { ram }
    }

    pub fn set_state(&mut self, value: u8)
        requires
            ATTRACT_STATE < old(self).ram().len(),
        ensures
            final(self).ram() == old(self).ram().update(ATTRACT_STATE as int, value),
            final(final(self).ram)@ == final(old(self).ram)@,
    {
        self.ram[ATTRACT_STATE] = value;
    }

    pub fn set_state_word(&mut self, value: u16)
        requires
            ATTRACT_STATE + 1 < old(self).ram().len(),
        ensures
            final(self).ram() == types::with_u16(old(self).ram(), ATTRACT_STATE as int, value),
            final(final(self).ram)@ == final(old(self).ram)@,
    {
        write_le_u16(self.ram, ATTRACT_STATE, value);
    }

    pub fn increment_state(&mut self) -> (result: u8)
        requires
            ATTRACT_STATE < old(self).ram().len(),
        ensures
            result == old(self).ram()[ATTRACT_STATE as int].wrapping_add(1),
            final(self).ram() == old(self).ram().update(
                ATTRACT_STATE as int,
                old(self).ram()[ATTRACT_STATE as int].wrapping_add(1),
            ),
            final(final(self).ram)@ == final(old(self).ram)@,
    {
        self.ram[ATTRACT_STATE] = self.ram[ATTRACT_STATE].wrapping_add(1);
        self.ram[ATTRACT_STATE]
    }

    pub fn add_state(&mut self, value: u8) -> (result: u8)
        requires
            ATTRACT_STATE < old(self).ram().len(),
        ensures
            result == old(self).ram()[ATTRACT_STATE as int].wrapping_add(value),
            final(self).ram() == old(self).ram().update(
                ATTRACT_STATE as int,
                old(self).ram()[ATTRACT_STATE as int].wrapping_add(value),
            ),
            final(final(self).ram)@ == final(old(self).ram)@,
    {
        self.ram[ATTRACT_STATE] = self.ram[ATTRACT_STATE].wrapping_add(value);
        self.ram[ATTRACT_STATE]
    }

    pub fn subtract_state(&mut self, value: u8) -> (result: u8)
        requires
            ATTRACT_STATE < old(self).ram().len(),
        ensures
            result == old(self).ram()[ATTRACT_STATE as int].wrapping_sub(value),
            final(self).ram() == old(self).ram().update(
                ATTRACT_STATE as int,
                old(self).ram()[ATTRACT_STATE as int].wrapping_sub(value),
            ),
            final(final(self).ram)@ == final(old(self).ram)@,
    {
        self.ram[ATTRACT_STATE] = self.ram[ATTRACT_STATE].wrapping_sub(value);
        self.ram[ATTRACT_STATE]
    }

    pub fn set_sequence(&mut self, value: u8)
        requires
            ATTRACT_SEQUENCE < old(self).ram().len(),
        ensures
            final(self).ram() == old(self).ram().update(ATTRACT_SEQUENCE as int, value),
            final(final(self).ram)@ == final(old(self).ram)@,
    {
        self.ram[ATTRACT_SEQUENCE] = value;
    }

    pub fn increment_sequence(&mut self) -> (result: u8)
        requires
            ATTRACT_SEQUENCE < old(self).ram().len(),
        ensures
            result == old(self).ram()[ATTRACT_SEQUENCE as int].wrapping_add(1),
            final(self).ram() == old(self).ram().update(
                ATTRACT_SEQUENCE as int,
                old(self).ram()[ATTRACT_SEQUENCE as int].wrapping_add(1),
            ),
            final(final(self).ram)@ == final(old(self).ram)@,
    {
        self.ram[ATTRACT_SEQUENCE] = self.ram[ATTRACT_SEQUENCE].wrapping_add(1);
        self.ram[ATTRACT_SEQUENCE]
    }

    pub fn set_scene_timer(&mut self, value: u8)
        requires
            ATTRACT_SCENE_TIMER < old(self).ram().len(),
        ensures
            final(self).ram() == old(self).ram().update(ATTRACT_SCENE_TIMER as int, value),
            final(final(self).ram)@ == final(old(self).ram)@,
    {
        self.ram[ATTRACT_SCENE_TIMER] = value;
    }

    pub fn decrement_scene_timer(&mut self) -> (result: u8)
        requires
            ATTRACT_SCENE_TIMER < old(self).ram().len(),
        ensures
            result == old(self).ram()[ATTRACT_SCENE_TIMER as int].wrapping_sub(1),
            final(self).ram() == old(self).ram().update(
                ATTRACT_SCENE_TIMER as int,
                old(self).ram()[ATTRACT_SCENE_TIMER as int].wrapping_sub(1),
            ),
            final(final(self).ram)@ == final(old(self).ram)@,
    {
        self.ram[ATTRACT_SCENE_TIMER] = self.ram[ATTRACT_SCENE_TIMER].wrapping_sub(1);
        self.ram[ATTRACT_SCENE_TIMER]
    }

    pub fn set_scene_substep(&mut self, value: u8)
        requires
            ATTRACT_SCENE_SUBSTEP < old(self).ram().len(),
        ensures
            final(self).ram() == old(self).ram().update(ATTRACT_SCENE_SUBSTEP as int, value),
            final(final(self).ram)@ == final(old(self).ram)@,
    {
        self.ram[ATTRACT_SCENE_SUBSTEP] = value;
    }

    pub fn increment_scene_substep(&mut self) -> (result: u8)
        requires
            ATTRACT_SCENE_SUBSTEP < old(self).ram().len(),
        ensures
            result == old(self).ram()[ATTRACT_SCENE_SUBSTEP as int].wrapping_add(1),
            final(self).ram() == old(self).ram().update(
                ATTRACT_SCENE_SUBSTEP as int,
                old(self).ram()[ATTRACT_SCENE_SUBSTEP as int].wrapping_add(1),
            ),
            final(final(self).ram)@ == final(old(self).ram)@,
    {
        self.ram[ATTRACT_SCENE_SUBSTEP] = self.ram[ATTRACT_SCENE_SUBSTEP].wrapping_add(1);
        self.ram[ATTRACT_SCENE_SUBSTEP]
    }

    pub fn set_x_base(&mut self, value: u8)
        requires
            ATTRACT_X_BASE < old(self).ram().len(),
        ensures
            final(self).ram() == old(self).ram().update(ATTRACT_X_BASE as int, value),
            final(final(self).ram)@ == final(old(self).ram)@,
    {
        self.ram[ATTRACT_X_BASE] = value;
    }

    pub fn set_x_base_high(&mut self, value: u8)
        requires
            ATTRACT_X_BASE_HI < old(self).ram().len(),
        ensures
            final(self).ram() == old(self).ram().update(ATTRACT_X_BASE_HI as int, value),
            final(final(self).ram)@ == final(old(self).ram)@,
    {
        self.ram[ATTRACT_X_BASE_HI] = value;
    }

    pub fn set_y_base(&mut self, value: u8)
        requires
            ATTRACT_Y_BASE < old(self).ram().len(),
        ensures
            final(self).ram() == old(self).ram().update(ATTRACT_Y_BASE as int, value),
            final(final(self).ram)@ == final(old(self).ram)@,
    {
        self.ram[ATTRACT_Y_BASE] = value;
    }

    pub fn set_story_text_pointer(&mut self, value: u16)
        requires
            ATTRACT_STORY_TEXT_POINTER + 1 < old(self).ram().len(),
        ensures
            final(self).ram() == types::with_u16(
                old(self).ram(),
                ATTRACT_STORY_TEXT_POINTER as int,
                value,
            ),
            final(final(self).ram)@ == final(old(self).ram)@,
    {
        write_le_u16(self.ram, ATTRACT_STORY_TEXT_POINTER, value);
    }

    pub fn set_oam_index(&mut self, value: u8)
        requires
            ATTRACT_OAM_IDX < old(self).ram().len(),
        ensures
            final(self).ram() == old(self).ram().update(ATTRACT_OAM_IDX as int, value),
            final(final(self).ram)@ == final(old(self).ram)@,
    {
        self.ram[ATTRACT_OAM_IDX] = value;
    }

    pub fn advance_oam_index_by(&mut self, value: u8) -> (result: u8)
        requires
            ATTRACT_OAM_IDX < old(self).ram().len(),
        ensures
            result == old(self).ram()[ATTRACT_OAM_IDX as int].wrapping_add(value),
            final(self).ram() == old(self).ram().update(
                ATTRACT_OAM_IDX as int,
                old(self).ram()[ATTRACT_OAM_IDX as int].wrapping_add(value),
            ),
            final(final(self).ram)@ == final(old(self).ram)@,
    {
        self.ram[ATTRACT_OAM_IDX] = self.ram[ATTRACT_OAM_IDX].wrapping_add(value);
        self.ram[ATTRACT_OAM_IDX]
    }

    pub fn set_maiden_warp_step(&mut self, value: u8)
        requires
            ATTRACT_MAIDEN_WARP_STEP < old(self).ram().len(),
        ensures
            final(self).ram() == old(self).ram().update(ATTRACT_MAIDEN_WARP_STEP as int, value),
            final(final(self).ram)@ == final(old(self).ram)@,
    {
        self.ram[ATTRACT_MAIDEN_WARP_STEP] = value;
    }

    pub fn increment_maiden_warp_step(&mut self) -> (result: u8)
        requires
            ATTRACT_MAIDEN_WARP_STEP < old(self).ram().len(),
        ensures
            result == old(self).ram()[ATTRACT_MAIDEN_WARP_STEP as int].wrapping_add(1),
            final(self).ram() == old(self).ram().update(
                ATTRACT_MAIDEN_WARP_STEP as int,
                old(self).ram()[ATTRACT_MAIDEN_WARP_STEP as int].wrapping_add(1),
            ),
            final(final(self).ram)@ == final(old(self).ram)@,
    {
        self.ram[ATTRACT_MAIDEN_WARP_STEP] = self.ram[ATTRACT_MAIDEN_WARP_STEP].wrapping_add(1);
        self.ram[ATTRACT_MAIDEN_WARP_STEP]
    }

    pub fn decrement_maiden_warp_step(&mut self) -> (result: u8)
        requires
            ATTRACT_MAIDEN_WARP_STEP < old(self).ram().len(),
        ensures
            result == old(self).ram()[ATTRACT_MAIDEN_WARP_STEP as int].wrapping_sub(1),
            final(self).ram() == old(self).ram().update(
                ATTRACT_MAIDEN_WARP_STEP as int,
                old(self).ram()[ATTRACT_MAIDEN_WARP_STEP as int].wrapping_sub(1),
            ),
            final(final(self).ram)@ == final(old(self).ram)@,
    {
        self.ram[ATTRACT_MAIDEN_WARP_STEP] = self.ram[ATTRACT_MAIDEN_WARP_STEP].wrapping_sub(1);
        self.ram[ATTRACT_MAIDEN_WARP_STEP]
    }

    pub fn set_intro_step_index(&mut self, value: u8)
        requires
            INTRO_STEP_INDEX < old(self).ram().len(),
        ensures
            final(self).ram() == old(self).ram().update(INTRO_STEP_INDEX as int, value),
            final(final(self).ram)@ == final(old(self).ram)@,
    {
        self.ram[INTRO_STEP_INDEX] = value;
    }

    pub fn clear_intro_step_state_block(&mut self)
        requires
            INTRO_STEP_INDEX + (7 * 16) <= old(self).ram().len(),
        ensures
            final(self).ram() == access::filled(
                old(self).ram(),
                INTRO_STEP_INDEX as int,
                INTRO_STEP_INDEX + (7 * 16),
                0u8,
            ),
            final(final(self).ram)@ == final(old(self).ram)@,
    {
        fill_bytes(self.ram, INTRO_STEP_INDEX, INTRO_STEP_INDEX + 7 * 16, 0);
    }

    pub fn increment_intro_step_index(&mut self) -> (result: u8)
        requires
            INTRO_STEP_INDEX < old(self).ram().len(),
        ensures
            result == old(self).ram()[INTRO_STEP_INDEX as int].wrapping_add(1),
            final(self).ram() == old(self).ram().update(
                INTRO_STEP_INDEX as int,
                old(self).ram()[INTRO_STEP_INDEX as int].wrapping_add(1),
            ),
            final(final(self).ram)@ == final(old(self).ram)@,
    {
        self.ram[INTRO_STEP_INDEX] = self.ram[INTRO_STEP_INDEX].wrapping_add(1);
        self.ram[INTRO_STEP_INDEX]
    }

    pub fn set_intro_step_timer(&mut self, value: u8)
        requires
            INTRO_STEP_TIMER < old(self).ram().len(),
        ensures
            final(self).ram() == old(self).ram().update(INTRO_STEP_TIMER as int, value),
            final(final(self).ram)@ == final(old(self).ram)@,
    {
        self.ram[INTRO_STEP_TIMER] = value;
    }

    pub fn increment_intro_step_timer(&mut self) -> (result: u8)
        requires
            INTRO_STEP_TIMER < old(self).ram().len(),
        ensures
            result == old(self).ram()[INTRO_STEP_TIMER as int].wrapping_add(1),
            final(self).ram() == old(self).ram().update(
                INTRO_STEP_TIMER as int,
                old(self).ram()[INTRO_STEP_TIMER as int].wrapping_add(1),
            ),
            final(final(self).ram)@ == final(old(self).ram)@,
    {
        self.ram[INTRO_STEP_TIMER] = self.ram[INTRO_STEP_TIMER].wrapping_add(1);
        self.ram[INTRO_STEP_TIMER]
    }

    pub fn decrement_intro_step_timer(&mut self) -> (result: u8)
        requires
            INTRO_STEP_TIMER < old(self).ram().len(),
        ensures
            result == old(self).ram()[INTRO_STEP_TIMER as int].wrapping_sub(1),
            final(self).ram() == old(self).ram().update(
                INTRO_STEP_TIMER as int,
                old(self).ram()[INTRO_STEP_TIMER as int].wrapping_sub(1),
            ),
            final(final(self).ram)@ == final(old(self).ram)@,
    {
        self.ram[INTRO_STEP_TIMER] = self.ram[INTRO_STEP_TIMER].wrapping_sub(1);
        self.ram[INTRO_STEP_TIMER]
    }

    pub fn increment_intro_frame_counter(&mut self) -> (result: u8)
        requires
            INTRO_FRAME_CTR < old(self).ram().len(),
        ensures
            result == old(self).ram()[INTRO_FRAME_CTR as int].wrapping_add(1),
            final(self).ram() == old(self).ram().update(
                INTRO_FRAME_CTR as int,
                old(self).ram()[INTRO_FRAME_CTR as int].wrapping_add(1),
            ),
            final(final(self).ram)@ == final(old(self).ram)@,
    {
        self.ram[INTRO_FRAME_CTR] = self.ram[INTRO_FRAME_CTR].wrapping_add(1);
        self.ram[INTRO_FRAME_CTR]
    }

    pub fn set_intro_did_run_step(&mut self, value: u8)
        requires
            INTRO_DID_RUN_STEP < old(self).ram().len(),
        ensures
            final(self).ram() == old(self).ram().update(INTRO_DID_RUN_STEP as int, value),
            final(final(self).ram)@ == final(old(self).ram)@,
    {
        self.ram[INTRO_DID_RUN_STEP] = value;
    }

    pub fn clear_intro_did_run_step(&mut self)
        requires
            INTRO_DID_RUN_STEP < old(self).ram().len(),
        ensures
            final(self).ram() == old(self).ram().update(INTRO_DID_RUN_STEP as int, 0u8),
            final(final(self).ram)@ == final(old(self).ram)@,
    {
        self.ram[INTRO_DID_RUN_STEP] = 0;
    }

    pub fn mark_intro_did_run_step(&mut self)
        requires
            INTRO_DID_RUN_STEP < old(self).ram().len(),
        ensures
            final(self).ram() == old(self).ram().update(INTRO_DID_RUN_STEP as int, 1u8),
            final(final(self).ram)@ == final(old(self).ram)@,
    {
        self.ram[INTRO_DID_RUN_STEP] = 1;
    }

    pub fn set_intro_palette_flash_count(&mut self, value: u8)
        requires
            INTRO_TIMES_PAL_FLASH < old(self).ram().len(),
        ensures
            final(self).ram() == old(self).ram().update(INTRO_TIMES_PAL_FLASH as int, value),
            final(final(self).ram)@ == final(old(self).ram)@,
    {
        self.ram[INTRO_TIMES_PAL_FLASH] = value;
    }

    pub fn clear_intro_palette_flash_count(&mut self)
        requires
            INTRO_TIMES_PAL_FLASH < old(self).ram().len(),
        ensures
            final(self).ram() == old(self).ram().update(INTRO_TIMES_PAL_FLASH as int, 0u8),
            final(final(self).ram)@ == final(old(self).ram)@,
    {
        self.ram[INTRO_TIMES_PAL_FLASH] = 0;
    }

    pub fn decrement_intro_palette_flash_count(&mut self) -> (result: u8)
        requires
            INTRO_TIMES_PAL_FLASH < old(self).ram().len(),
        ensures
            result == old(self).ram()[INTRO_TIMES_PAL_FLASH as int].wrapping_sub(1),
            final(self).ram() == old(self).ram().update(
                INTRO_TIMES_PAL_FLASH as int,
                old(self).ram()[INTRO_TIMES_PAL_FLASH as int].wrapping_sub(1),
            ),
            final(final(self).ram)@ == final(old(self).ram)@,
    {
        self.ram[INTRO_TIMES_PAL_FLASH] = self.ram[INTRO_TIMES_PAL_FLASH].wrapping_sub(1);
        self.ram[INTRO_TIMES_PAL_FLASH]
    }

    pub fn increment_legend_flag(&mut self)
        requires
            ATTRACT_LEGEND_FLAG < old(self).ram().len(),
        ensures
            final(self).ram() == old(self).ram().update(
                ATTRACT_LEGEND_FLAG as int,
                old(self).ram()[ATTRACT_LEGEND_FLAG as int].wrapping_add(1),
            ),
            final(final(self).ram)@ == final(old(self).ram)@,
    {
        self.ram[ATTRACT_LEGEND_FLAG] = self.ram[ATTRACT_LEGEND_FLAG].wrapping_add(1);
    }

    pub fn clear_legend_flag(&mut self)
        requires
            ATTRACT_LEGEND_FLAG < old(self).ram().len(),
        ensures
            final(self).ram() == old(self).ram().update(ATTRACT_LEGEND_FLAG as int, 0u8),
            final(final(self).ram)@ == final(old(self).ram)@,
    {
        self.ram[ATTRACT_LEGEND_FLAG] = 0;
    }

    pub fn clear_next_legend_gfx(&mut self)
        requires
            ATTRACT_NEXT_LEGEND_GFX < old(self).ram().len(),
        ensures
            final(self).ram() == old(self).ram().update(ATTRACT_NEXT_LEGEND_GFX as int, 0u8),
            final(final(self).ram)@ == final(old(self).ram)@,
    {
        self.ram[ATTRACT_NEXT_LEGEND_GFX] = 0;
    }

    pub fn advance_next_legend_gfx(&mut self)
        requires
            ATTRACT_NEXT_LEGEND_GFX < old(self).ram().len(),
        ensures
            final(self).ram() == old(self).ram().update(
                ATTRACT_NEXT_LEGEND_GFX as int,
                old(self).ram()[ATTRACT_NEXT_LEGEND_GFX as int].wrapping_add(2),
            ),
            final(final(self).ram)@ == final(old(self).ram)@,
    {
        self.ram[ATTRACT_NEXT_LEGEND_GFX] = self.ram[ATTRACT_NEXT_LEGEND_GFX].wrapping_add(2);
    }

    pub fn set_bg2_vofs_backup(&mut self, value: u16)
        requires
            ATTRACT_BG2_VOFS_BACKUP + 1 < old(self).ram().len(),
        ensures
            final(self).ram() == types::with_u16(
                old(self).ram(),
                ATTRACT_BG2_VOFS_BACKUP as int,
                value,
            ),
            final(final(self).ram)@ == final(old(self).ram)@,
    {
        write_le_u16(self.ram, ATTRACT_BG2_VOFS_BACKUP, value);
    }

    pub fn set_throne_fade_timer(&mut self, value: u8)
        requires
            ATTRACT_THRONE_FADE_TIMER < old(self).ram().len(),
        ensures
            final(self).ram() == old(self).ram().update(ATTRACT_THRONE_FADE_TIMER as int, value),
            final(final(self).ram)@ == final(old(self).ram)@,
    {
        self.ram[ATTRACT_THRONE_FADE_TIMER] = value;
    }

    pub fn decrement_throne_fade_timer(&mut self) -> (result: u8)
        requires
            ATTRACT_THRONE_FADE_TIMER < old(self).ram().len(),
        ensures
            result == old(self).ram()[ATTRACT_THRONE_FADE_TIMER as int].wrapping_sub(1),
            final(self).ram() == old(self).ram().update(
                ATTRACT_THRONE_FADE_TIMER as int,
                old(self).ram()[ATTRACT_THRONE_FADE_TIMER as int].wrapping_sub(1),
            ),
            final(final(self).ram)@ == final(old(self).ram)@,
    {
        self.ram[ATTRACT_THRONE_FADE_TIMER] = self.ram[ATTRACT_THRONE_FADE_TIMER].wrapping_sub(1);
        self.ram[ATTRACT_THRONE_FADE_TIMER]
    }

    pub fn set_prison_zelda_y_base(&mut self, value: u8)
        requires
            ATTRACT_PRISON_ZELDA_Y_BASE < old(self).ram().len(),
        ensures
            final(self).ram() == old(self).ram().update(ATTRACT_PRISON_ZELDA_Y_BASE as int, value),
            final(final(self).ram)@ == final(old(self).ram)@,
    {
        self.ram[ATTRACT_PRISON_ZELDA_Y_BASE] = value;
    }

    pub fn decrement_prison_zelda_y_base(&mut self)
        requires
            ATTRACT_PRISON_ZELDA_Y_BASE < old(self).ram().len(),
        ensures
            final(self).ram() == old(self).ram().update(
                ATTRACT_PRISON_ZELDA_Y_BASE as int,
                old(self).ram()[ATTRACT_PRISON_ZELDA_Y_BASE as int].wrapping_sub(1),
            ),
            final(final(self).ram)@ == final(old(self).ram)@,
    {
        self.ram[ATTRACT_PRISON_ZELDA_Y_BASE] = self.ram[ATTRACT_PRISON_ZELDA_Y_BASE].wrapping_sub(1);
    }

    pub fn set_anim_step_counter(&mut self, value: u8)
        requires
            ATTRACT_ANIM_STEP_COUNTER < old(self).ram().len(),
        ensures
            final(self).ram() == old(self).ram().update(ATTRACT_ANIM_STEP_COUNTER as int, value),
            final(final(self).ram)@ == final(old(self).ram)@,
    {
        self.ram[ATTRACT_ANIM_STEP_COUNTER] = value;
    }

    pub fn decrement_anim_step_counter(&mut self) -> (result: u8)
        requires
            ATTRACT_ANIM_STEP_COUNTER < old(self).ram().len(),
        ensures
            result == old(self).ram()[ATTRACT_ANIM_STEP_COUNTER as int].wrapping_sub(1),
            final(self).ram() == old(self).ram().update(
                ATTRACT_ANIM_STEP_COUNTER as int,
                old(self).ram()[ATTRACT_ANIM_STEP_COUNTER as int].wrapping_sub(1),
            ),
            final(final(self).ram)@ == final(old(self).ram)@,
    {
        self.ram[ATTRACT_ANIM_STEP_COUNTER] = self.ram[ATTRACT_ANIM_STEP_COUNTER].wrapping_sub(1);
        self.ram[ATTRACT_ANIM_STEP_COUNTER]
    }

    pub fn increment_anim_step_counter(&mut self) -> (result: u8)
        requires
            ATTRACT_ANIM_STEP_COUNTER < old(self).ram().len(),
        ensures
            result == old(self).ram()[ATTRACT_ANIM_STEP_COUNTER as int].wrapping_add(1),
            final(self).ram() == old(self).ram().update(
                ATTRACT_ANIM_STEP_COUNTER as int,
                old(self).ram()[ATTRACT_ANIM_STEP_COUNTER as int].wrapping_add(1),
            ),
            final(final(self).ram)@ == final(old(self).ram)@,
    {
        self.ram[ATTRACT_ANIM_STEP_COUNTER] = self.ram[ATTRACT_ANIM_STEP_COUNTER].wrapping_add(1);
        self.ram[ATTRACT_ANIM_STEP_COUNTER]
    }

    pub fn set_soldier_anim_step(&mut self, value: u8)
        requires
            ATTRACT_SOLDIER_ANIM_STEP < old(self).ram().len(),
        ensures
            final(self).ram() == old(self).ram().update(ATTRACT_SOLDIER_ANIM_STEP as int, value),
            final(final(self).ram)@ == final(old(self).ram)@,
    {
        self.ram[ATTRACT_SOLDIER_ANIM_STEP] = value;
    }

    pub fn increment_soldier_anim_step(&mut self)
        requires
            ATTRACT_SOLDIER_ANIM_STEP < old(self).ram().len(),
        ensures
            final(self).ram() == old(self).ram().update(
                ATTRACT_SOLDIER_ANIM_STEP as int,
                old(self).ram()[ATTRACT_SOLDIER_ANIM_STEP as int].wrapping_add(1),
            ),
            final(final(self).ram)@ == final(old(self).ram)@,
    {
        self.ram[ATTRACT_SOLDIER_ANIM_STEP] = self.ram[ATTRACT_SOLDIER_ANIM_STEP].wrapping_add(1);
    }

    pub fn set_prison_soldier_x_lo(&mut self, value: u8)
        requires
            ATTRACT_PRISON_SOLDIER_X_LO < old(self).ram().len(),
        ensures
            final(self).ram() == old(self).ram().update(ATTRACT_PRISON_SOLDIER_X_LO as int, value),
            final(final(self).ram)@ == final(old(self).ram)@,
    {
        self.ram[ATTRACT_PRISON_SOLDIER_X_LO] = value;
    }

    pub fn set_scene_frame_counter(&mut self, value: u8)
        requires
            ATTRACT_SCENE_FRAME_COUNTER < old(self).ram().len(),
        ensures
            final(self).ram() == old(self).ram().update(ATTRACT_SCENE_FRAME_COUNTER as int, value),
            final(final(self).ram)@ == final(old(self).ram)@,
    {
        self.ram[ATTRACT_SCENE_FRAME_COUNTER] = value;
    }

    pub fn increment_scene_frame_counter(&mut self) -> (result: u8)
        requires
            ATTRACT_SCENE_FRAME_COUNTER < old(self).ram().len(),
        ensures
            result == old(self).ram()[ATTRACT_SCENE_FRAME_COUNTER as int].wrapping_add(1),
            final(self).ram() == old(self).ram().update(
                ATTRACT_SCENE_FRAME_COUNTER as int,
                old(self).ram()[ATTRACT_SCENE_FRAME_COUNTER as int].wrapping_add(1),
            ),
            final(final(self).ram)@ == final(old(self).ram)@,
    {
        self.ram[ATTRACT_SCENE_FRAME_COUNTER] = self.ram[ATTRACT_SCENE_FRAME_COUNTER].wrapping_add(1);
        self.ram[ATTRACT_SCENE_FRAME_COUNTER]
    }

    pub fn decrement_scene_frame_counter(&mut self) -> (result: u8)
        requires
            ATTRACT_SCENE_FRAME_COUNTER < old(self).ram().len(),
        ensures
            result == old(self).ram()[ATTRACT_SCENE_FRAME_COUNTER as int].wrapping_sub(1),
            final(self).ram() == old(self).ram().update(
                ATTRACT_SCENE_FRAME_COUNTER as int,
                old(self).ram()[ATTRACT_SCENE_FRAME_COUNTER as int].wrapping_sub(1),
            ),
            final(final(self).ram)@ == final(old(self).ram)@,
    {
        self.ram[ATTRACT_SCENE_FRAME_COUNTER] = self.ram[ATTRACT_SCENE_FRAME_COUNTER].wrapping_sub(1);
        self.ram[ATTRACT_SCENE_FRAME_COUNTER]
    }

    pub fn increment_scene_done_flag(&mut self)
        requires
            ATTRACT_SCENE_DONE_FLAG < old(self).ram().len(),
        ensures
            final(self).ram() == old(self).ram().update(
                ATTRACT_SCENE_DONE_FLAG as int,
                old(self).ram()[ATTRACT_SCENE_DONE_FLAG as int].wrapping_add(1),
            ),
            final(final(self).ram)@ == final(old(self).ram)@,
    {
        self.ram[ATTRACT_SCENE_DONE_FLAG] = self.ram[ATTRACT_SCENE_DONE_FLAG].wrapping_add(1);
    }

    pub fn set_legend_ctr(&mut self, value: u16)
        requires
            ATTRACT_LEGEND_CTR + 1 < old(self).ram().len(),
        ensures
            final(self).ram() == types::with_u16(old(self).ram(), ATTRACT_LEGEND_CTR as int, value),
            final(final(self).ram)@ == final(old(self).ram)@,
    {
        write_le_u16(self.ram, ATTRACT_LEGEND_CTR, value);
    }

    pub fn decrement_legend_ctr(&mut self) -> (result: u16)
        requires
            ATTRACT_LEGEND_CTR + 1 < old(self).ram().len(),
        ensures
            result == types::u16_at(old(self).ram(), ATTRACT_LEGEND_CTR as int).wrapping_sub(1),
            final(self).ram() == types::with_u16(
                old(self).ram(),
                ATTRACT_LEGEND_CTR as int,
                types::u16_at(old(self).ram(), ATTRACT_LEGEND_CTR as int)
                    .wrapping_sub(1),
            ),
            final(final(self).ram)@ == final(old(self).ram)@,
    {
        let v = read_le_u16(self.ram, ATTRACT_LEGEND_CTR).wrapping_sub(1);
        write_le_u16(self.ram, ATTRACT_LEGEND_CTR, v);
        v
    }

    pub fn set_fade_in_complete_flag(&mut self, value: u8)
        requires
            ATTRACT_FADE_IN_COMPLETE_FLAG < old(self).ram().len(),
        ensures
            final(self).ram() == old(self).ram().update(
                ATTRACT_FADE_IN_COMPLETE_FLAG as int,
                value,
            ),
            final(final(self).ram)@ == final(old(self).ram)@,
    {
        self.ram[ATTRACT_FADE_IN_COMPLETE_FLAG] = value;
    }

    pub fn increment_fade_in_complete_flag(&mut self)
        requires
            ATTRACT_FADE_IN_COMPLETE_FLAG < old(self).ram().len(),
        ensures
            final(self).ram() == old(self).ram().update(
                ATTRACT_FADE_IN_COMPLETE_FLAG as int,
                old(self).ram()[ATTRACT_FADE_IN_COMPLETE_FLAG as int].wrapping_add(1),
            ),
            final(final(self).ram)@ == final(old(self).ram)@,
    {
        self.ram[ATTRACT_FADE_IN_COMPLETE_FLAG] = self.ram[ATTRACT_FADE_IN_COMPLETE_FLAG].wrapping_add(1);
    }

    pub fn clear_fade_in_done_flag(&mut self)
        requires
            ATTRACT_FADE_IN_DONE_FLAG < old(self).ram().len(),
        ensures
            final(self).ram() == old(self).ram().update(ATTRACT_FADE_IN_DONE_FLAG as int, 0u8),
            final(final(self).ram)@ == final(old(self).ram)@,
    {
        self.ram[ATTRACT_FADE_IN_DONE_FLAG] = 0;
    }

    pub fn increment_fade_in_done_flag(&mut self)
        requires
            ATTRACT_FADE_IN_DONE_FLAG < old(self).ram().len(),
        ensures
            final(self).ram() == old(self).ram().update(
                ATTRACT_FADE_IN_DONE_FLAG as int,
                old(self).ram()[ATTRACT_FADE_IN_DONE_FLAG as int].wrapping_add(1),
            ),
            final(final(self).ram)@ == final(old(self).ram)@,
    {
        self.ram[ATTRACT_FADE_IN_DONE_FLAG] = self.ram[ATTRACT_FADE_IN_DONE_FLAG].wrapping_add(1);
    }

    pub fn clear_substep_delay_counter(&mut self)
        requires
            ATTRACT_SUBSTEP_DELAY_COUNTER < old(self).ram().len(),
        ensures
            final(self).ram() == old(self).ram().update(ATTRACT_SUBSTEP_DELAY_COUNTER as int, 0u8),
            final(final(self).ram)@ == final(old(self).ram)@,
    {
        self.ram[ATTRACT_SUBSTEP_DELAY_COUNTER] = 0;
    }

    pub fn increment_substep_delay_counter(&mut self)
        requires
            ATTRACT_SUBSTEP_DELAY_COUNTER < old(self).ram().len(),
        ensures
            final(self).ram() == old(self).ram().update(
                ATTRACT_SUBSTEP_DELAY_COUNTER as int,
                old(self).ram()[ATTRACT_SUBSTEP_DELAY_COUNTER as int].wrapping_add(1),
            ),
            final(final(self).ram)@ == final(old(self).ram)@,
    {
        self.ram[ATTRACT_SUBSTEP_DELAY_COUNTER] = self.ram[ATTRACT_SUBSTEP_DELAY_COUNTER].wrapping_add(1);
    }

    pub fn set_maiden_warp_timer_a(&mut self, value: u8)
        requires
            ATTRACT_MAIDEN_WARP_TIMER_A < old(self).ram().len(),
        ensures
            final(self).ram() == old(self).ram().update(ATTRACT_MAIDEN_WARP_TIMER_A as int, value),
            final(final(self).ram)@ == final(old(self).ram)@,
    {
        self.ram[ATTRACT_MAIDEN_WARP_TIMER_A] = value;
    }

    pub fn decrement_maiden_warp_timer_a(&mut self) -> (result: u8)
        requires
            ATTRACT_MAIDEN_WARP_TIMER_A < old(self).ram().len(),
        ensures
            result == old(self).ram()[ATTRACT_MAIDEN_WARP_TIMER_A as int].wrapping_sub(1),
            final(self).ram() == old(self).ram().update(
                ATTRACT_MAIDEN_WARP_TIMER_A as int,
                old(self).ram()[ATTRACT_MAIDEN_WARP_TIMER_A as int].wrapping_sub(1),
            ),
            final(final(self).ram)@ == final(old(self).ram)@,
    {
        self.ram[ATTRACT_MAIDEN_WARP_TIMER_A] = self.ram[ATTRACT_MAIDEN_WARP_TIMER_A].wrapping_sub(1);
        self.ram[ATTRACT_MAIDEN_WARP_TIMER_A]
    }

    pub fn set_maiden_warp_timer_b(&mut self, value: u8)
        requires
            ATTRACT_MAIDEN_WARP_TIMER_B < old(self).ram().len(),
        ensures
            final(self).ram() == old(self).ram().update(ATTRACT_MAIDEN_WARP_TIMER_B as int, value),
            final(final(self).ram)@ == final(old(self).ram)@,
    {
        self.ram[ATTRACT_MAIDEN_WARP_TIMER_B] = value;
    }

    pub fn decrement_maiden_warp_timer_b(&mut self) -> (result: u8)
        requires
            ATTRACT_MAIDEN_WARP_TIMER_B < old(self).ram().len(),
        ensures
            result == old(self).ram()[ATTRACT_MAIDEN_WARP_TIMER_B as int].wrapping_sub(1),
            final(self).ram() == old(self).ram().update(
                ATTRACT_MAIDEN_WARP_TIMER_B as int,
                old(self).ram()[ATTRACT_MAIDEN_WARP_TIMER_B as int].wrapping_sub(1),
            ),
            final(final(self).ram)@ == final(old(self).ram)@,
    {
        self.ram[ATTRACT_MAIDEN_WARP_TIMER_B] = self.ram[ATTRACT_MAIDEN_WARP_TIMER_B].wrapping_sub(1);
        self.ram[ATTRACT_MAIDEN_WARP_TIMER_B]
    }

    pub fn set_vram_dst_byte(&mut self, value: u8)
        requires
            ATTRACT_VRAM_DST < old(self).ram().len(),
        ensures
            final(self).ram() == old(self).ram().update(ATTRACT_VRAM_DST as int, value),
            final(final(self).ram)@ == final(old(self).ram)@,
    {
        self.ram[ATTRACT_VRAM_DST] = value;
    }

    pub fn decrement_vram_dst_byte(&mut self)
        requires
            ATTRACT_VRAM_DST < old(self).ram().len(),
        ensures
            final(self).ram() == old(self).ram().update(
                ATTRACT_VRAM_DST as int,
                old(self).ram()[ATTRACT_VRAM_DST as int].wrapping_sub(1),
            ),
            final(final(self).ram)@ == final(old(self).ram)@,
    {
        self.ram[ATTRACT_VRAM_DST] = self.ram[ATTRACT_VRAM_DST].wrapping_sub(1);
    }

    pub fn set_vram_dst_word(&mut self, value: u16)
        requires
            ATTRACT_VRAM_DST + 1 < old(self).ram().len(),
        ensures
            final(self).ram() == types::with_u16(old(self).ram(), ATTRACT_VRAM_DST as int, value),
            final(final(self).ram)@ == final(old(self).ram)@,
    {
        write_le_u16(self.ram, ATTRACT_VRAM_DST, value);
    }

    pub fn decrement_vram_dst_word(&mut self) -> (result: u16)
        requires
            ATTRACT_VRAM_DST + 1 < old(self).ram().len(),
        ensures
            result == types::u16_at(old(self).ram(), ATTRACT_VRAM_DST as int).wrapping_sub(1),
            final(self).ram() == types::with_u16(
                old(self).ram(),
                ATTRACT_VRAM_DST as int,
                types::u16_at(old(self).ram(), ATTRACT_VRAM_DST as int)
                    .wrapping_sub(1),
            ),
            final(final(self).ram)@ == final(old(self).ram)@,
    {
        let v = read_le_u16(self.ram, ATTRACT_VRAM_DST).wrapping_sub(1);
        write_le_u16(self.ram, ATTRACT_VRAM_DST, v);
        v
    }

    pub fn set_mode7_zoom_timer(&mut self, value: u8)
        requires
            TIMER_FOR_MODE7_ZOOM < old(self).ram().len(),
        ensures
            final(self).ram() == old(self).ram().update(TIMER_FOR_MODE7_ZOOM as int, value),
            final(final(self).ram)@ == final(old(self).ram)@,
    {
        self.ram[TIMER_FOR_MODE7_ZOOM] = value;
    }

    pub fn decrement_mode7_zoom_timer(&mut self)
        requires
            TIMER_FOR_MODE7_ZOOM < old(self).ram().len(),
        ensures
            final(self).ram() == old(self).ram().update(
                TIMER_FOR_MODE7_ZOOM as int,
                old(self).ram()[TIMER_FOR_MODE7_ZOOM as int].wrapping_sub(1),
            ),
            final(final(self).ram)@ == final(old(self).ram)@,
    {
        self.ram[TIMER_FOR_MODE7_ZOOM] = self.ram[TIMER_FOR_MODE7_ZOOM].wrapping_sub(1);
    }
}

} // verus!
