use vstd::prelude::*;
use super::access;
use super::access::{byte, word};
use super::addresses::{DOOR_DEBRIS_DIRECTION, DOOR_DEBRIS_X, DOOR_DEBRIS_Y};

verus! {

pub struct DoorDebrisView<'a> {
    ram: &'a [u8],
}

impl<'a> DoorDebrisView<'a> {
    /// The bytes of RAM this view reads and writes.
    pub closed spec fn ram(&self) -> Seq<u8> {
        self.ram@
    }

    pub fn new(ram: &'a [u8]) -> (view: Self)
        ensures
            view.ram() == ram@,
    {
        Self { ram }
    }

    pub fn x(&self, slot: usize) -> (result: u8)
        requires
            DOOR_DEBRIS_X + slot <= usize::MAX,
        ensures
            result == access::byte_at(self.ram(), DOOR_DEBRIS_X + slot),
    {
        byte(self.ram, DOOR_DEBRIS_X + slot)
    }

    pub fn y(&self, slot: usize) -> (result: u8)
        requires
            DOOR_DEBRIS_Y + slot <= usize::MAX,
        ensures
            result == access::byte_at(self.ram(), DOOR_DEBRIS_Y + slot),
    {
        byte(self.ram, DOOR_DEBRIS_Y + slot)
    }

    pub fn direction(&self, slot: usize) -> (result: u8)
        requires
            DOOR_DEBRIS_DIRECTION + slot <= usize::MAX,
        ensures
            result == access::byte_at(self.ram(), DOOR_DEBRIS_DIRECTION + slot),
    {
        byte(self.ram, DOOR_DEBRIS_DIRECTION + slot)
    }

    pub fn x_word(&self, slot: usize) -> (result: u16)
        requires
            (DOOR_DEBRIS_X + (slot * 2)) + 1 <= usize::MAX,
        ensures
            result == access::word_at(self.ram(), DOOR_DEBRIS_X + (slot * 2)),
    {
        word(self.ram, DOOR_DEBRIS_X + slot * 2)
    }

    pub fn y_word(&self, slot: usize) -> (result: u16)
        requires
            (DOOR_DEBRIS_Y + (slot * 2)) + 1 <= usize::MAX,
        ensures
            result == access::word_at(self.ram(), DOOR_DEBRIS_Y + (slot * 2)),
    {
        word(self.ram, DOOR_DEBRIS_Y + slot * 2)
    }
}

pub struct DoorDebrisViewMut<'a> {
    pub ram: &'a mut [u8],
}

impl<'a> DoorDebrisViewMut<'a> {
    /// The bytes of RAM this view reads and writes.
    pub open spec fn ram(&self) -> Seq<u8> {
        self.ram@
    }

    pub fn new(ram: &'a mut [u8]) -> (view: Self)
        ensures
            view.ram() == old(ram)@,
            final(view.ram)@ == final(ram)@,
    {
        Self { ram }
    }

    pub fn set_direction(&mut self, slot: usize, value: u8)
        requires
            DOOR_DEBRIS_DIRECTION + slot < old(self).ram().len(),
        ensures
            final(self).ram() == old(self).ram().update(DOOR_DEBRIS_DIRECTION + slot, value),
            final(final(self).ram)@ == final(old(self).ram)@,
    {
        proof {
            assert(self.ram@.len() == self.ram.len());
        }
        self.ram[DOOR_DEBRIS_DIRECTION + slot] = value;
    }

    pub fn set_y_low_and_x_low_from_word(&mut self, slot: usize, value: u16)
        requires
            DOOR_DEBRIS_Y + slot < old(self).ram().len(),
            DOOR_DEBRIS_X + slot < old(self).ram().len(),
        ensures
            final(self).ram() == old(self).ram()
                .update(DOOR_DEBRIS_Y + slot, value as u8)
                .update(DOOR_DEBRIS_X + slot, (value >> 8) as u8),
            final(final(self).ram)@ == final(old(self).ram)@,
    {
        proof {
            assert(self.ram@.len() == self.ram.len());
        }
        self.ram[DOOR_DEBRIS_Y + slot] = value as u8;
        self.ram[DOOR_DEBRIS_X + slot] = (value >> 8) as u8;
    }
}

} // verus!
