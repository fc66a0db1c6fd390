use vstd::prelude::*;
use super::access;
use super::access::{byte};
use super::addresses::{HITBOX_SCRATCH_X_OFFSET, HITBOX_SCRATCH_Y_OFFSET};

verus! {

pub struct HitboxScratchOffsetView<'a> {
    ram: &'a [u8],
}

impl<'a> HitboxScratchOffsetView<'a> {
    /// The bytes of RAM this view reads and writes.
    pub closed spec fn ram(&self) -> Seq<u8> {
        self.ram@
    }

    pub fn new(ram: &'a [u8]) -> (view: Self)
        ensures
            view.ram() == ram@,
    {
        Self { ram }
    }

    pub fn x_high_offset(&self) -> (result: u8)
        ensures
            result == access::byte_at(self.ram(), HITBOX_SCRATCH_X_OFFSET as int),
    {
        byte(self.ram, HITBOX_SCRATCH_X_OFFSET)
    }

    pub fn y_low_offset(&self) -> (result: u8)
        ensures
            result == access::byte_at(self.ram(), HITBOX_SCRATCH_Y_OFFSET as int),
    {
        byte(self.ram, HITBOX_SCRATCH_Y_OFFSET)
    }
}

pub struct HitboxScratchOffsetViewMut<'a> {
    pub ram: &'a mut [u8],
}

impl<'a> HitboxScratchOffsetViewMut<'a> {
    /// The bytes of RAM this view reads and writes.
    pub open spec fn ram(&self) -> Seq<u8> {
        self.ram@
    }

    pub fn new(ram: &'a mut [u8]) -> (view: Self)
        ensures
            view.ram() == old(ram)@,
            final(view.ram)@ == final(ram)@,
    {
        Self { ram }
    }

    pub fn set_x_high_offset(&mut self, value: u8)
        requires
            HITBOX_SCRATCH_X_OFFSET < old(self).ram().len(),
        ensures
            final(self).ram() == old(self).ram().update(HITBOX_SCRATCH_X_OFFSET as int, value),
            final(final(self).ram)@ == final(old(self).ram)@,
    {
        self.ram[HITBOX_SCRATCH_X_OFFSET] = value;
    }

    pub fn set_y_low_offset(&mut self, value: u8)
        requires
            HITBOX_SCRATCH_Y_OFFSET < old(self).ram().len(),
        ensures
            final(self).ram() == old(self).ram().update(HITBOX_SCRATCH_Y_OFFSET as int, value),
            final(final(self).ram)@ == final(old(self).ram)@,
    {
        self.ram[HITBOX_SCRATCH_Y_OFFSET] = value;
    }

    pub fn set_offsets(&mut self, y_low: u8, x_high: u8)
        requires
            HITBOX_SCRATCH_Y_OFFSET < old(self).ram().len(),
            HITBOX_SCRATCH_X_OFFSET < old(self).ram().len(),
        ensures
            final(self).ram() == old(self).ram()
                .update(HITBOX_SCRATCH_Y_OFFSET as int, y_low)
                .update(HITBOX_SCRATCH_X_OFFSET as int, x_high),
            final(final(self).ram)@ == final(old(self).ram)@,
    {
        self.ram[HITBOX_SCRATCH_Y_OFFSET] = y_low;
        self.ram[HITBOX_SCRATCH_X_OFFSET] = x_high;
    }
}

} // verus!
