use vstd::prelude::*;
use super::access;
use super::access::{byte, word};
use super::addresses::{
    MIRROR_WARP_ANIMATION_COUNTER, MIRROR_WARP_DISPLACEMENT, MIRROR_WARP_LOAD_STEP_COUNTER,
    MIRROR_WARP_RESERVED, MIRROR_WARP_SPACING_A, MIRROR_WARP_SPACING_B, MIRROR_WARP_SUBPIXEL,
    MIRROR_WARP_TARGET_INDEX, MIRROR_WARP_TARGET_OFFSETS, MIRROR_WARP_VELOCITY_DELTAS,
    MIRROR_WARP_WAVE_LENGTH, MIRROR_WARP_WAVE_OFFSET,
};
use crate::types;
use crate::types::{write_le_u16};

verus! {

pub struct MirrorWarpScratchView<'a> {
    ram: &'a [u8],
}

impl<'a> MirrorWarpScratchView<'a> {
    /// The bytes of RAM this view reads and writes.
    pub closed spec fn ram(&self) -> Seq<u8> {
        self.ram@
    }

    pub fn new(ram: &'a [u8]) -> (view: Self)
        ensures
            view.ram() == ram@,
    {
        Self { ram }
    }

    pub fn target_index(&self) -> (result: usize)
        ensures
            result == ((access::word_at(self.ram(), MIRROR_WARP_TARGET_INDEX as int) >> 1) as usize),
    {
        (word(self.ram, MIRROR_WARP_TARGET_INDEX) >> 1) as usize
    }

    pub fn target_offset(&self) -> (result: u16)
        requires
            ((access::word_at(self.ram(), MIRROR_WARP_TARGET_INDEX as int) >> 1) as usize) * 2 <= usize::MAX,
            (MIRROR_WARP_TARGET_OFFSETS + (((access::word_at(self.ram(), MIRROR_WARP_TARGET_INDEX as int) >> 1) as usize) * 2)) + 1 <= usize::MAX,
        ensures
            result == access::word_at(
                self.ram(),
                MIRROR_WARP_TARGET_OFFSETS + (((access::word_at(self.ram(), MIRROR_WARP_TARGET_INDEX as int) >> 1) as usize) * 2),
            ),
    {
        word(self.ram, MIRROR_WARP_TARGET_OFFSETS + self.target_index() * 2)
    }

    pub fn velocity_delta(&self) -> (result: u16)
        requires
            ((access::word_at(self.ram(), MIRROR_WARP_TARGET_INDEX as int) >> 1) as usize) * 2 <= usize::MAX,
            (MIRROR_WARP_VELOCITY_DELTAS + (((access::word_at(self.ram(), MIRROR_WARP_TARGET_INDEX as int) >> 1) as usize) * 2)) + 1 <= usize::MAX,
        ensures
            result == access::word_at(
                self.ram(),
                MIRROR_WARP_VELOCITY_DELTAS + (((access::word_at(self.ram(), MIRROR_WARP_TARGET_INDEX as int) >> 1) as usize) * 2),
            ),
    {
        word(self.ram, MIRROR_WARP_VELOCITY_DELTAS + self.target_index() * 2)
    }

    pub fn wave_offset(&self) -> (result: u16)
        ensures
            result == access::word_at(self.ram(), MIRROR_WARP_WAVE_OFFSET as int),
    {
        word(self.ram, MIRROR_WARP_WAVE_OFFSET)
    }

    pub fn displacement(&self) -> (result: u16)
        ensures
            result == access::word_at(self.ram(), MIRROR_WARP_DISPLACEMENT as int),
    {
        word(self.ram, MIRROR_WARP_DISPLACEMENT)
    }

    pub fn subpixel(&self) -> (result: u16)
        ensures
            result == access::word_at(self.ram(), MIRROR_WARP_SUBPIXEL as int),
    {
        word(self.ram, MIRROR_WARP_SUBPIXEL)
    }

    pub fn animation_counter(&self) -> (result: u8)
        ensures
            result == access::byte_at(self.ram(), MIRROR_WARP_ANIMATION_COUNTER as int),
    {
        byte(self.ram, MIRROR_WARP_ANIMATION_COUNTER)
    }
}

pub struct MirrorWarpScratchViewMut<'a> {
    pub ram: &'a mut [u8],
}

impl<'a> MirrorWarpScratchViewMut<'a> {
    /// The bytes of RAM this view reads and writes.
    pub open spec fn ram(&self) -> Seq<u8> {
        self.ram@
    }

    pub fn new(ram: &'a mut [u8]) -> (view: Self)
        ensures
            view.ram() == old(ram)@,
            final(view.ram)@ == final(ram)@,
    {
        Self { ram }
    }

    pub fn initialize_hdma_wave_state(&mut self)
        requires
            MIRROR_WARP_TARGET_INDEX + 1 < old(self).ram().len(),
            MIRROR_WARP_WAVE_OFFSET + 1 < old(self).ram().len(),
            MIRROR_WARP_DISPLACEMENT + 1 < old(self).ram().len(),
            MIRROR_WARP_SUBPIXEL + 1 < old(self).ram().len(),
            MIRROR_WARP_RESERVED + 1 < old(self).ram().len(),
            MIRROR_WARP_SPACING_A + 1 < old(self).ram().len(),
            MIRROR_WARP_SPACING_B + 1 < old(self).ram().len(),
            MIRROR_WARP_WAVE_LENGTH + 1 < old(self).ram().len(),
            MIRROR_WARP_TARGET_OFFSETS + 1 < old(self).ram().len(),
            (MIRROR_WARP_TARGET_OFFSETS + 2) + 1 < old(self).ram().len(),
            MIRROR_WARP_VELOCITY_DELTAS + 1 < old(self).ram().len(),
            (MIRROR_WARP_VELOCITY_DELTAS + 2) + 1 < old(self).ram().len(),
        ensures
            final(self).ram() == types::with_u16(
                types::with_u16(
                    types::with_u16(
                        types::with_u16(
                            types::with_u16(
                                types::with_u16(
                                    types::with_u16(
                                        types::with_u16(
                                            types::with_u16(
                                                types::with_u16(
                                                    types::with_u16(
                                                        types::with_u16(
                                                            old(self).ram(),
                                                            MIRROR_WARP_TARGET_INDEX as int,
                                                            0u16,
                                                        ),
                                                        MIRROR_WARP_WAVE_OFFSET as int,
                                                        0u16,
                                                    ),
                                                    MIRROR_WARP_DISPLACEMENT as int,
                                                    0u16,
                                                ),
                                                MIRROR_WARP_SUBPIXEL as int,
                                                0u16,
                                            ),
                                            MIRROR_WARP_RESERVED as int,
                                            0u16,
                                        ),
                                        MIRROR_WARP_SPACING_A as int,
                                        8u16,
                                    ),
                                    MIRROR_WARP_SPACING_B as int,
                                    8u16,
                                ),
                                MIRROR_WARP_WAVE_LENGTH as int,
                                21u16,
                            ),
                            MIRROR_WARP_TARGET_OFFSETS as int,
                            0xfe00u16,
                        ),
                        MIRROR_WARP_TARGET_OFFSETS + 2,
                        0x0200u16,
                    ),
                    MIRROR_WARP_VELOCITY_DELTAS as int,
                    0xffc0u16,
                ),
                MIRROR_WARP_VELOCITY_DELTAS + 2,
                0x0040u16,
            ),
            final(final(self).ram)@ == final(old(self).ram)@,
    {
        write_le_u16(self.ram, MIRROR_WARP_TARGET_INDEX, 0);
        write_le_u16(self.ram, MIRROR_WARP_WAVE_OFFSET, 0);
        write_le_u16(self.ram, MIRROR_WARP_DISPLACEMENT, 0);
        write_le_u16(self.ram, MIRROR_WARP_SUBPIXEL, 0);
        write_le_u16(self.ram, MIRROR_WARP_RESERVED, 0);
        write_le_u16(self.ram, MIRROR_WARP_SPACING_A, 8);
        write_le_u16(self.ram, MIRROR_WARP_SPACING_B, 8);
        write_le_u16(self.ram, MIRROR_WARP_WAVE_LENGTH, 21);
        write_le_u16(self.ram, MIRROR_WARP_TARGET_OFFSETS, 0xfe00);
        write_le_u16(self.ram, MIRROR_WARP_TARGET_OFFSETS + 2, 0x0200);
        write_le_u16(self.ram, MIRROR_WARP_VELOCITY_DELTAS, 0xffc0);
        write_le_u16(self.ram, MIRROR_WARP_VELOCITY_DELTAS + 2, 0x0040);
    }

    pub fn reset_wave_and_subpixel(&mut self)
        requires
            MIRROR_WARP_WAVE_OFFSET + 1 < old(self).ram().len(),
            MIRROR_WARP_SUBPIXEL + 1 < old(self).ram().len(),
        ensures
            final(self).ram() == types::with_u16(
                types::with_u16(
                    old(self).ram(),
                    MIRROR_WARP_WAVE_OFFSET as int,
                    0u16,
                ),
                MIRROR_WARP_SUBPIXEL as int,
                0u16,
            ),
            final(final(self).ram)@ == final(old(self).ram)@,
    {
        write_le_u16(self.ram, MIRROR_WARP_WAVE_OFFSET, 0);
        write_le_u16(self.ram, MIRROR_WARP_SUBPIXEL, 0);
    }

    pub fn toggle_target_index(&mut self)
        requires
            MIRROR_WARP_TARGET_INDEX + 1 < old(self).ram().len(),
        ensures
            final(self).ram() == types::with_u16(
                old(self).ram(),
                MIRROR_WARP_TARGET_INDEX as int,
                access::word_at(
                    old(self).ram(),
                    MIRROR_WARP_TARGET_INDEX as int,
                ) ^ 2u16,
            ),
            final(final(self).ram)@ == final(old(self).ram)@,
    {
        let value = word(self.ram, MIRROR_WARP_TARGET_INDEX) ^ 2;
        write_le_u16(self.ram, MIRROR_WARP_TARGET_INDEX, value);
    }

    pub fn set_displacement(&mut self, value: u16)
        requires
            MIRROR_WARP_DISPLACEMENT + 1 < old(self).ram().len(),
        ensures
            final(self).ram() == types::with_u16(
                old(self).ram(),
                MIRROR_WARP_DISPLACEMENT as int,
                value,
            ),
            final(final(self).ram)@ == final(old(self).ram)@,
    {
        write_le_u16(self.ram, MIRROR_WARP_DISPLACEMENT, value);
    }

    pub fn set_subpixel_low_from(&mut self, value: u16)
        requires
            MIRROR_WARP_SUBPIXEL + 1 < old(self).ram().len(),
        ensures
            final(self).ram() == types::with_u16(
                old(self).ram(),
                MIRROR_WARP_SUBPIXEL as int,
                value & 0x00ffu16,
            ),
            final(final(self).ram)@ == final(old(self).ram)@,
    {
        write_le_u16(self.ram, MIRROR_WARP_SUBPIXEL, value & 0x00ff);
    }

    pub fn set_wave_offset(&mut self, value: u16)
        requires
            MIRROR_WARP_WAVE_OFFSET + 1 < old(self).ram().len(),
        ensures
            final(self).ram() == types::with_u16(
                old(self).ram(),
                MIRROR_WARP_WAVE_OFFSET as int,
                value,
            ),
            final(final(self).ram)@ == final(old(self).ram)@,
    {
        write_le_u16(self.ram, MIRROR_WARP_WAVE_OFFSET, value);
    }

    pub fn shrink_target_offsets_for_dewaving(&mut self)
        requires
            MIRROR_WARP_TARGET_OFFSETS + 1 < old(self).ram().len(),
            (MIRROR_WARP_TARGET_OFFSETS + 2) + 1 < old(self).ram().len(),
        ensures
            final(self).ram() == types::with_u16(
                types::with_u16(
                    old(self).ram(),
                    MIRROR_WARP_TARGET_OFFSETS as int,
                    0xff00u16,
                ),
                MIRROR_WARP_TARGET_OFFSETS + 2,
                0x0100u16,
            ),
            final(final(self).ram)@ == final(old(self).ram)@,
    {
        write_le_u16(self.ram, MIRROR_WARP_TARGET_OFFSETS, 0xff00);
        write_le_u16(self.ram, MIRROR_WARP_TARGET_OFFSETS + 2, 0x0100);
    }

    pub fn increment_load_step_counter(&mut self) -> (result: u8)
        requires
            MIRROR_WARP_LOAD_STEP_COUNTER < old(self).ram().len(),
        ensures
            result == old(self).ram()[MIRROR_WARP_LOAD_STEP_COUNTER as int].wrapping_add(1),
            final(self).ram() == old(self).ram().update(
                MIRROR_WARP_LOAD_STEP_COUNTER as int,
                old(self).ram()[MIRROR_WARP_LOAD_STEP_COUNTER as int].wrapping_add(1),
            ),
            final(final(self).ram)@ == final(old(self).ram)@,
    {
        self.ram[MIRROR_WARP_LOAD_STEP_COUNTER] = self.ram[MIRROR_WARP_LOAD_STEP_COUNTER].wrapping_add(1);
        self.ram[MIRROR_WARP_LOAD_STEP_COUNTER]
    }

    pub fn reset_load_step_counter(&mut self)
        requires
            MIRROR_WARP_LOAD_STEP_COUNTER < old(self).ram().len(),
        ensures
            final(self).ram() == old(self).ram().update(MIRROR_WARP_LOAD_STEP_COUNTER as int, 0u8),
            final(final(self).ram)@ == final(old(self).ram)@,
    {
        self.ram[MIRROR_WARP_LOAD_STEP_COUNTER] = 0;
    }

    pub fn set_animation_counter(&mut self, value: u8)
        requires
            MIRROR_WARP_ANIMATION_COUNTER < old(self).ram().len(),
        ensures
            final(self).ram() == old(self).ram().update(
                MIRROR_WARP_ANIMATION_COUNTER as int,
                value,
            ),
            final(final(self).ram)@ == final(old(self).ram)@,
    {
        self.ram[MIRROR_WARP_ANIMATION_COUNTER] = value;
    }

    pub fn decrement_animation_counter(&mut self) -> (result: u8)
        requires
            MIRROR_WARP_ANIMATION_COUNTER < old(self).ram().len(),
        ensures
            result == old(self).ram()[MIRROR_WARP_ANIMATION_COUNTER as int].wrapping_sub(1),
            final(self).ram() == old(self).ram().update(
                MIRROR_WARP_ANIMATION_COUNTER as int,
                old(self).ram()[MIRROR_WARP_ANIMATION_COUNTER as int].wrapping_sub(1),
            ),
            final(final(self).ram)@ == final(old(self).ram)@,
    {
        self.ram[MIRROR_WARP_ANIMATION_COUNTER] = self.ram[MIRROR_WARP_ANIMATION_COUNTER].wrapping_sub(1);
        self.ram[MIRROR_WARP_ANIMATION_COUNTER]
    }
}

} // verus!
