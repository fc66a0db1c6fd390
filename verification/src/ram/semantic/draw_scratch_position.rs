use vstd::prelude::*;
use super::access;
use super::access::{byte, word};
use super::addresses::{DRAW_SCRATCH_FLAGS_HI, DRAW_SCRATCH_POSITION_X, DRAW_SCRATCH_POSITION_Y};
use crate::types;
use crate::types::{write_le_u16};

verus! {

pub struct DrawScratchPositionView<'a> {
    ram: &'a [u8],
}

impl<'a> DrawScratchPositionView<'a> {
    /// The bytes of RAM this view reads and writes.
    pub closed spec fn ram(&self) -> Seq<u8> {
        self.ram@
    }

    pub fn new(ram: &'a [u8]) -> (view: Self)
        ensures
            view.ram() == ram@,
    {
        Self { ram }
    }

    pub fn x_low(&self) -> (result: u8)
        ensures
            result == access::byte_at(self.ram(), DRAW_SCRATCH_POSITION_X as int),
    {
        byte(self.ram, DRAW_SCRATCH_POSITION_X)
    }

    pub fn y_low(&self) -> (result: u8)
        ensures
            result == access::byte_at(self.ram(), DRAW_SCRATCH_POSITION_Y as int),
    {
        byte(self.ram, DRAW_SCRATCH_POSITION_Y)
    }

    pub fn low_position_word(&self) -> (result: u16)
        ensures
            result == access::word_at(self.ram(), DRAW_SCRATCH_POSITION_X as int),
    {
        word(self.ram, DRAW_SCRATCH_POSITION_X)
    }
}

pub struct DrawScratchPositionViewMut<'a> {
    pub ram: &'a mut [u8],
}

impl<'a> DrawScratchPositionViewMut<'a> {
    /// The bytes of RAM this view reads and writes.
    pub open spec fn ram(&self) -> Seq<u8> {
        self.ram@
    }

    pub fn new(ram: &'a mut [u8]) -> (view: Self)
        ensures
            view.ram() == old(ram)@,
            final(view.ram)@ == final(ram)@,
    {
        Self { ram }
    }

    pub fn set_low_position(&mut self, x: u8, y: u8)
        requires
            DRAW_SCRATCH_POSITION_X < old(self).ram().len(),
            DRAW_SCRATCH_POSITION_Y < old(self).ram().len(),
        ensures
            final(self).ram() == old(self).ram()
                .update(DRAW_SCRATCH_POSITION_X as int, x)
                .update(DRAW_SCRATCH_POSITION_Y as int, y),
            final(final(self).ram)@ == final(old(self).ram)@,
    {
        self.ram[DRAW_SCRATCH_POSITION_X] = x;
        self.ram[DRAW_SCRATCH_POSITION_Y] = y;
    }

    pub fn set_low_position_word(&mut self, value: u16)
        requires
            DRAW_SCRATCH_POSITION_X + 1 < old(self).ram().len(),
        ensures
            final(self).ram() == types::with_u16(
                old(self).ram(),
                DRAW_SCRATCH_POSITION_X as int,
                value,
            ),
            final(final(self).ram)@ == final(old(self).ram)@,
    {
        write_le_u16(self.ram, DRAW_SCRATCH_POSITION_X, value);
    }

    pub fn set_word_bytes(&mut self, low: u8, high: u8)
        requires
            DRAW_SCRATCH_POSITION_X < old(self).ram().len(),
            DRAW_SCRATCH_POSITION_Y < old(self).ram().len(),
        ensures
            final(self).ram() == old(self).ram()
                .update(DRAW_SCRATCH_POSITION_X as int, low)
                .update(DRAW_SCRATCH_POSITION_Y as int, high),
            final(final(self).ram)@ == final(old(self).ram)@,
    {
        self.ram[DRAW_SCRATCH_POSITION_X] = low;
        self.ram[DRAW_SCRATCH_POSITION_Y] = high;
    }

    pub fn offset_low_position(&mut self, dx: u8, dy: u8) -> (result: (u8, u8))
        requires
            DRAW_SCRATCH_POSITION_X < old(self).ram().len(),
            DRAW_SCRATCH_POSITION_Y < old(self).ram().len(),
        ensures
            result == (
                old(self).ram()[DRAW_SCRATCH_POSITION_X as int].wrapping_add(dx),
                old(self).ram()[DRAW_SCRATCH_POSITION_Y as int].wrapping_add(dy),
            ),
            final(self).ram() == old(self).ram()
                .update(
                    DRAW_SCRATCH_POSITION_X as int,
                    old(self).ram()[DRAW_SCRATCH_POSITION_X as int].wrapping_add(dx),
                )
                .update(
                    DRAW_SCRATCH_POSITION_Y as int,
                    old(self).ram()[DRAW_SCRATCH_POSITION_Y as int].wrapping_add(dy),
                ),
            final(final(self).ram)@ == final(old(self).ram)@,
    {
        let x = self.ram[DRAW_SCRATCH_POSITION_X].wrapping_add(dx);
        let y = self.ram[DRAW_SCRATCH_POSITION_Y].wrapping_add(dy);
        self.set_low_position(x, y);
        (x, y)
    }

    pub fn set_flags_high(&mut self, value: u8)
        requires
            DRAW_SCRATCH_FLAGS_HI < old(self).ram().len(),
        ensures
            final(self).ram() == old(self).ram().update(DRAW_SCRATCH_FLAGS_HI as int, value),
            final(final(self).ram)@ == final(old(self).ram)@,
    {
        self.ram[DRAW_SCRATCH_FLAGS_HI] = value;
    }
}

} // verus!
