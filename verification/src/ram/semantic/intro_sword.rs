use vstd::prelude::*;
use super::access;
use super::access::{byte, word};
use super::addresses::{
    INTRO_SWORD_ANIM_STEP, INTRO_SWORD_FLASH_RGB_CHANNEL, INTRO_SWORD_SPARKLE_STEP,
    INTRO_SWORD_SPARKLE_TIMER, INTRO_SWORD_SPARKLE_Y_OFFSET, INTRO_SWORD_YPOS,
};
use crate::types;
use crate::types::{read_le_u16, write_le_u16};

verus! {

pub struct IntroSwordView<'a> {
    ram: &'a [u8],
}

impl<'a> IntroSwordView<'a> {
    /// The bytes of RAM this view reads and writes.
    pub closed spec fn ram(&self) -> Seq<u8> {
        self.ram@
    }

    pub fn new(ram: &'a [u8]) -> (view: Self)
        ensures
            view.ram() == ram@,
    {
        Self { ram }
    }

    pub fn ypos(&self) -> (result: u16)
        ensures
            result == access::word_at(self.ram(), INTRO_SWORD_YPOS as int),
    {
        word(self.ram, INTRO_SWORD_YPOS)
    }

    pub fn sparkle_timer(&self) -> (result: u8)
        ensures
            result == access::byte_at(self.ram(), INTRO_SWORD_SPARKLE_TIMER as int),
    {
        byte(self.ram, INTRO_SWORD_SPARKLE_TIMER)
    }

    pub fn sparkle_step(&self) -> (result: u8)
        ensures
            result == access::byte_at(self.ram(), INTRO_SWORD_SPARKLE_STEP as int),
    {
        byte(self.ram, INTRO_SWORD_SPARKLE_STEP)
    }

    pub fn anim_phase(&self) -> (result: u8)
        ensures
            result == (access::byte_at(self.ram(), INTRO_SWORD_ANIM_STEP as int) >> 1),
    {
        byte(self.ram, INTRO_SWORD_ANIM_STEP) >> 1
    }

    pub fn anim_step_raw(&self) -> (result: u8)
        ensures
            result == access::byte_at(self.ram(), INTRO_SWORD_ANIM_STEP as int),
    {
        byte(self.ram, INTRO_SWORD_ANIM_STEP)
    }

    pub fn sparkle_y_offset(&self) -> (result: u8)
        ensures
            result == access::byte_at(self.ram(), INTRO_SWORD_SPARKLE_Y_OFFSET as int),
    {
        byte(self.ram, INTRO_SWORD_SPARKLE_Y_OFFSET)
    }

    pub fn flash_rgb_channel(&self) -> (result: usize)
        ensures
            result == (access::byte_at(self.ram(), INTRO_SWORD_FLASH_RGB_CHANNEL as int) as usize),
    {
        byte(self.ram, INTRO_SWORD_FLASH_RGB_CHANNEL) as usize
    }
}

pub struct IntroSwordViewMut<'a> {
    pub ram: &'a mut [u8],
}

impl<'a> IntroSwordViewMut<'a> {
    /// The bytes of RAM this view reads and writes.
    pub open spec fn ram(&self) -> Seq<u8> {
        self.ram@
    }

    pub fn new(ram: &'a mut [u8]) -> (view: Self)
        ensures
            view.ram() == old(ram)@,
            final(view.ram)@ == final(ram)@,
    {
        Self { ram }
    }

    pub fn reset_sword_state(&mut self)
        requires
            INTRO_SWORD_SPARKLE_STEP < old(self).ram().len(),
            INTRO_SWORD_ANIM_STEP < old(self).ram().len(),
            INTRO_SWORD_SPARKLE_Y_OFFSET < old(self).ram().len(),
            INTRO_SWORD_YPOS + 1 < old(self).ram().len(),
        ensures
            final(self).ram() == types::with_u16(
                old(self).ram().update(INTRO_SWORD_SPARKLE_STEP as int, 7u8).update(
                    INTRO_SWORD_ANIM_STEP as int,
                    0u8,
                ).update(INTRO_SWORD_SPARKLE_Y_OFFSET as int, 0u8),
                INTRO_SWORD_YPOS as int,
                0xff7e,
            ),
            final(final(self).ram)@ == final(old(self).ram)@,
    {
        self.ram[INTRO_SWORD_SPARKLE_STEP] = 7;
        self.ram[INTRO_SWORD_ANIM_STEP] = 0;
        self.ram[INTRO_SWORD_SPARKLE_Y_OFFSET] = 0;
        assert((-130i16) as u16 == 0xff7eu16) by (bit_vector);
        write_le_u16(self.ram, INTRO_SWORD_YPOS, (-130i16) as u16);
    }

    pub fn set_ypos(&mut self, value: u16)
        requires
            INTRO_SWORD_YPOS + 1 < old(self).ram().len(),
        ensures
            final(self).ram() == types::with_u16(old(self).ram(), INTRO_SWORD_YPOS as int, value),
            final(final(self).ram)@ == final(old(self).ram)@,
    {
        write_le_u16(self.ram, INTRO_SWORD_YPOS, value);
    }

    pub fn advance_ypos(&mut self)
        requires
            INTRO_SWORD_YPOS + 1 < old(self).ram().len(),
        ensures
            final(self).ram() == types::with_u16(
                old(self).ram(),
                INTRO_SWORD_YPOS as int,
                types::u16_at(old(self).ram(), INTRO_SWORD_YPOS as int)
                    .wrapping_add(16),
            ),
            final(final(self).ram)@ == final(old(self).ram)@,
    {
        let y = read_le_u16(self.ram, INTRO_SWORD_YPOS).wrapping_add(16);
        write_le_u16(self.ram, INTRO_SWORD_YPOS, y);
    }

    pub fn decrement_sparkle_timer(&mut self)
        requires
            INTRO_SWORD_SPARKLE_TIMER < old(self).ram().len(),
        ensures
            final(self).ram() == old(self).ram().update(
                INTRO_SWORD_SPARKLE_TIMER as int,
                old(self).ram()[INTRO_SWORD_SPARKLE_TIMER as int].wrapping_sub(1),
            ),
            final(final(self).ram)@ == final(old(self).ram)@,
    {
        self.ram[INTRO_SWORD_SPARKLE_TIMER] = self.ram[INTRO_SWORD_SPARKLE_TIMER].wrapping_sub(1);
    }

    pub fn set_sparkle_timer(&mut self, value: u8)
        requires
            INTRO_SWORD_SPARKLE_TIMER < old(self).ram().len(),
        ensures
            final(self).ram() == old(self).ram().update(INTRO_SWORD_SPARKLE_TIMER as int, value),
            final(final(self).ram)@ == final(old(self).ram)@,
    {
        self.ram[INTRO_SWORD_SPARKLE_TIMER] = value;
    }

    pub fn set_sparkle_step(&mut self, value: u8)
        requires
            INTRO_SWORD_SPARKLE_STEP < old(self).ram().len(),
        ensures
            final(self).ram() == old(self).ram().update(INTRO_SWORD_SPARKLE_STEP as int, value),
            final(final(self).ram)@ == final(old(self).ram)@,
    {
        self.ram[INTRO_SWORD_SPARKLE_STEP] = value;
    }

    pub fn decrement_sparkle_step_check_negative(&mut self) -> (result: bool)
        requires
            INTRO_SWORD_SPARKLE_STEP < old(self).ram().len(),
        ensures
            result == ((old(self).ram()[INTRO_SWORD_SPARKLE_STEP as int].wrapping_sub(1) as i8) < 0),
            final(self).ram() == old(self).ram().update(
                INTRO_SWORD_SPARKLE_STEP as int,
                old(self).ram()[INTRO_SWORD_SPARKLE_STEP as int].wrapping_sub(1),
            ),
            final(final(self).ram)@ == final(old(self).ram)@,
    {
        self.ram[INTRO_SWORD_SPARKLE_STEP] = self.ram[INTRO_SWORD_SPARKLE_STEP].wrapping_sub(1);
        (self.ram[INTRO_SWORD_SPARKLE_STEP] as i8) < 0
    }

    pub fn advance_anim_step(&mut self)
        requires
            INTRO_SWORD_ANIM_STEP < old(self).ram().len(),
        ensures
            final(self).ram() == old(self).ram().update(
                INTRO_SWORD_ANIM_STEP as int,
                old(self).ram()[INTRO_SWORD_ANIM_STEP as int].wrapping_add(2),
            ),
            final(final(self).ram)@ == final(old(self).ram)@,
    {
        self.ram[INTRO_SWORD_ANIM_STEP] = self.ram[INTRO_SWORD_ANIM_STEP].wrapping_add(2);
    }

    pub fn set_sparkle_y_offset(&mut self, value: u8)
        requires
            INTRO_SWORD_SPARKLE_Y_OFFSET < old(self).ram().len(),
        ensures
            final(self).ram() == old(self).ram().update(INTRO_SWORD_SPARKLE_Y_OFFSET as int, value),
            final(final(self).ram)@ == final(old(self).ram)@,
    {
        self.ram[INTRO_SWORD_SPARKLE_Y_OFFSET] = value;
    }

    pub fn advance_sparkle_y_offset(&mut self)
        requires
            INTRO_SWORD_SPARKLE_Y_OFFSET < old(self).ram().len(),
        ensures
            final(self).ram() == old(self).ram().update(
                INTRO_SWORD_SPARKLE_Y_OFFSET as int,
                old(self).ram()[INTRO_SWORD_SPARKLE_Y_OFFSET as int].wrapping_add(4),
            ),
            final(final(self).ram)@ == final(old(self).ram)@,
    {
        self.ram[INTRO_SWORD_SPARKLE_Y_OFFSET] = self.ram[INTRO_SWORD_SPARKLE_Y_OFFSET].wrapping_add(4);
    }

    pub fn set_flash_rgb_channel_word(&mut self, value: u16)
        requires
            INTRO_SWORD_FLASH_RGB_CHANNEL + 1 < old(self).ram().len(),
        ensures
            final(self).ram() == types::with_u16(
                old(self).ram(),
                INTRO_SWORD_FLASH_RGB_CHANNEL as int,
                value,
            ),
            final(final(self).ram)@ == final(old(self).ram)@,
    {
        write_le_u16(self.ram, INTRO_SWORD_FLASH_RGB_CHANNEL, value);
    }

    pub fn cycle_flash_rgb_channel(&mut self)
        requires
            INTRO_SWORD_FLASH_RGB_CHANNEL < old(self).ram().len(),
        ensures
            final(self).ram() == old(self).ram().update(
                INTRO_SWORD_FLASH_RGB_CHANNEL as int,
                if old(self).ram()[INTRO_SWORD_FLASH_RGB_CHANNEL as int] == 2 {
                    0u8
                } else {
                    old(self).ram()[INTRO_SWORD_FLASH_RGB_CHANNEL as int].wrapping_add(1)
                },
            ),
            final(final(self).ram)@ == final(old(self).ram)@,
    {
        self.ram[INTRO_SWORD_FLASH_RGB_CHANNEL] = if self.ram[INTRO_SWORD_FLASH_RGB_CHANNEL] == 2 {
            0
        } else {
            self.ram[INTRO_SWORD_FLASH_RGB_CHANNEL].wrapping_add(1)
        };
    }
}

} // verus!
