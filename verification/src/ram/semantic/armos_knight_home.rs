use vstd::prelude::*;
use super::access;
use super::access::{byte, packed_position, write_position};
use super::addresses::{OVERLORD_FLOOR, OVERLORD_GEN2, OVERLORD_X_HI, OVERLORD_Y_HI};
use crate::types;

verus! {

pub struct ArmosKnightHomeView<'a> {
    ram: &'a [u8],
    slot: usize,
}

impl<'a> ArmosKnightHomeView<'a> {
    /// The bytes of RAM this view reads and writes.
    pub closed spec fn ram(&self) -> Seq<u8> {
        self.ram@
    }

    /// The slot whose fields this view addresses.
    pub closed spec fn slot_index(&self) -> usize {
        self.slot
    }

    pub fn new(ram: &'a [u8], slot: usize) -> (view: Self)
        ensures
            view.ram() == ram@,
            view.slot_index() == slot,
    {
        Self { ram, slot }
    }

    pub fn x(&self) -> (result: u16)
        requires
            OVERLORD_X_HI + self.slot_index() <= usize::MAX,
            OVERLORD_Y_HI + self.slot_index() <= usize::MAX,
        ensures
            result == types::le_word(
                access::byte_at(self.ram(), OVERLORD_X_HI + self.slot_index()),
                access::byte_at(self.ram(), OVERLORD_Y_HI + self.slot_index()),
            ),
    {
        packed_position(self.ram, OVERLORD_X_HI + self.slot, OVERLORD_Y_HI + self.slot)
    }

    pub fn y(&self) -> (result: u16)
        requires
            OVERLORD_GEN2 + self.slot_index() <= usize::MAX,
            OVERLORD_FLOOR + self.slot_index() <= usize::MAX,
        ensures
            result == types::le_word(
                access::byte_at(self.ram(), OVERLORD_GEN2 + self.slot_index()),
                access::byte_at(self.ram(), OVERLORD_FLOOR + self.slot_index()),
            ),
    {
        packed_position(self.ram, OVERLORD_GEN2 + self.slot, OVERLORD_FLOOR + self.slot)
    }

    pub fn x_low(&self) -> (result: u8)
        requires
            OVERLORD_X_HI + self.slot_index() <= usize::MAX,
        ensures
            result == access::byte_at(self.ram(), OVERLORD_X_HI + self.slot_index()),
    {
        byte(self.ram, OVERLORD_X_HI + self.slot)
    }

    pub fn x_high(&self) -> (result: u8)
        requires
            OVERLORD_Y_HI + self.slot_index() <= usize::MAX,
        ensures
            result == access::byte_at(self.ram(), OVERLORD_Y_HI + self.slot_index()),
    {
        byte(self.ram, OVERLORD_Y_HI + self.slot)
    }

    pub fn y_low(&self) -> (result: u8)
        requires
            OVERLORD_GEN2 + self.slot_index() <= usize::MAX,
        ensures
            result == access::byte_at(self.ram(), OVERLORD_GEN2 + self.slot_index()),
    {
        byte(self.ram, OVERLORD_GEN2 + self.slot)
    }

    pub fn y_high(&self) -> (result: u8)
        requires
            OVERLORD_FLOOR + self.slot_index() <= usize::MAX,
        ensures
            result == access::byte_at(self.ram(), OVERLORD_FLOOR + self.slot_index()),
    {
        byte(self.ram, OVERLORD_FLOOR + self.slot)
    }
}

pub struct ArmosKnightHomeViewMut<'a> {
    pub ram: &'a mut [u8],
    pub slot: usize,
}

impl<'a> ArmosKnightHomeViewMut<'a> {
    /// The bytes of RAM this view reads and writes.
    pub open spec fn ram(&self) -> Seq<u8> {
        self.ram@
    }

    /// The slot whose fields this view addresses.
    pub open spec fn slot_index(&self) -> usize {
        self.slot
    }

    pub fn new(ram: &'a mut [u8], slot: usize) -> (view: Self)
        ensures
            view.ram() == old(ram)@,
            view.slot_index() == slot,
            final(view.ram)@ == final(ram)@,
    {
        Self { ram, slot }
    }

    pub fn set_position(&mut self, x: u16, y: u16)
        requires
            OVERLORD_X_HI + old(self).slot_index() < old(self).ram().len(),
            OVERLORD_Y_HI + old(self).slot_index() < old(self).ram().len(),
            OVERLORD_GEN2 + old(self).slot_index() < old(self).ram().len(),
            OVERLORD_FLOOR + old(self).slot_index() < old(self).ram().len(),
        ensures
            final(self).ram() == old(self).ram()
                .update(OVERLORD_X_HI + old(self).slot_index(), types::low_byte(x))
                .update(OVERLORD_Y_HI + old(self).slot_index(), types::high_byte(x))
                .update(OVERLORD_GEN2 + old(self).slot_index(), types::low_byte(y))
                .update(OVERLORD_FLOOR + old(self).slot_index(), types::high_byte(y)),
            final(self).slot_index() == old(self).slot_index(),
            final(final(self).ram)@ == final(old(self).ram)@,
    {
        proof {
            assert(self.ram@.len() == self.ram.len());
        }
        write_position(self.ram, OVERLORD_X_HI + self.slot, OVERLORD_Y_HI + self.slot, x);
        write_position(self.ram, OVERLORD_GEN2 + self.slot, OVERLORD_FLOOR + self.slot, y);
    }
}

} // verus!
