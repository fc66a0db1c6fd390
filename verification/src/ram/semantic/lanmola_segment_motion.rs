use vstd::prelude::*;
use super::access;
use super::access::{byte};
use super::addresses::{BEAMOS_LASER_HISTORY_X_HI, BEAMOS_LASER_HISTORY_Y_HI};

verus! {

pub struct LanmolaSegmentMotionView<'a> {
    ram: &'a [u8],
    slot: usize,
}

impl<'a> LanmolaSegmentMotionView<'a> {
    /// The bytes of RAM this view reads and writes.
    pub closed spec fn ram(&self) -> Seq<u8> {
        self.ram@
    }

    /// The slot whose fields this view addresses.
    pub closed spec fn slot_index(&self) -> usize {
        self.slot
    }

    pub fn new(ram: &'a [u8], slot: usize) -> (view: Self)
        ensures
            view.ram() == ram@,
            view.slot_index() == slot,
    {
        Self { ram, slot }
    }

    pub fn z_offset(&self) -> (result: u8)
        requires
            BEAMOS_LASER_HISTORY_X_HI + self.slot_index() <= usize::MAX,
        ensures
            result == access::byte_at(self.ram(), BEAMOS_LASER_HISTORY_X_HI + self.slot_index()),
    {
        byte(self.ram, BEAMOS_LASER_HISTORY_X_HI + self.slot)
    }

    pub fn direction(&self) -> (result: u8)
        requires
            BEAMOS_LASER_HISTORY_Y_HI + self.slot_index() <= usize::MAX,
        ensures
            result == access::byte_at(self.ram(), BEAMOS_LASER_HISTORY_Y_HI + self.slot_index()),
    {
        byte(self.ram, BEAMOS_LASER_HISTORY_Y_HI + self.slot)
    }
}

pub struct LanmolaSegmentMotionViewMut<'a> {
    pub ram: &'a mut [u8],
    pub slot: usize,
}

impl<'a> LanmolaSegmentMotionViewMut<'a> {
    /// The bytes of RAM this view reads and writes.
    pub open spec fn ram(&self) -> Seq<u8> {
        self.ram@
    }

    /// The slot whose fields this view addresses.
    pub open spec fn slot_index(&self) -> usize {
        self.slot
    }

    pub fn new(ram: &'a mut [u8], slot: usize) -> (view: Self)
        ensures
            view.ram() == old(ram)@,
            view.slot_index() == slot,
            final(view.ram)@ == final(ram)@,
    {
        Self { ram, slot }
    }

    pub fn set_z_offset(&mut self, value: u8)
        requires
            BEAMOS_LASER_HISTORY_X_HI + old(self).slot_index() < old(self).ram().len(),
        ensures
            final(self).ram() == old(self).ram().update(
                BEAMOS_LASER_HISTORY_X_HI + old(self).slot_index(),
                value,
            ),
            final(self).slot_index() == old(self).slot_index(),
            final(final(self).ram)@ == final(old(self).ram)@,
    {
        proof {
            assert(self.ram@.len() == self.ram.len());
        }
        self.ram[BEAMOS_LASER_HISTORY_X_HI + self.slot] = value;
    }

    pub fn set_direction(&mut self, value: u8)
        requires
            BEAMOS_LASER_HISTORY_Y_HI + old(self).slot_index() < old(self).ram().len(),
        ensures
            final(self).ram() == old(self).ram().update(
                BEAMOS_LASER_HISTORY_Y_HI + old(self).slot_index(),
                value,
            ),
            final(self).slot_index() == old(self).slot_index(),
            final(final(self).ram)@ == final(old(self).ram)@,
    {
        proof {
            assert(self.ram@.len() == self.ram.len());
        }
        self.ram[BEAMOS_LASER_HISTORY_Y_HI + self.slot] = value;
    }
}

} // verus!
