use vstd::prelude::*;
use super::access;
use super::access::{byte, packed_position, write_position};
use super::addresses::{
    TAGALONG_LAYERBITS, TAGALONG_X_HI, TAGALONG_X_LO, TAGALONG_Y_HI, TAGALONG_Y_LO, TAGALONG_Z,
};
use crate::types;

verus! {

pub struct TagalongSlotView<'a> {
    ram: &'a [u8],
    slot: usize,
}

impl<'a> TagalongSlotView<'a> {
    /// The bytes of RAM this view reads and writes.
    pub closed spec fn ram(&self) -> Seq<u8> {
        self.ram@
    }

    /// The slot whose fields this view addresses.
    pub closed spec fn slot_index(&self) -> usize {
        self.slot
    }

    pub fn new(ram: &'a [u8], slot: usize) -> (view: Self)
        ensures
            view.ram() == ram@,
            view.slot_index() == slot,
    {
        Self { ram, slot }
    }

    pub fn x(&self) -> (result: u16)
        requires
            TAGALONG_X_LO + self.slot_index() <= usize::MAX,
            TAGALONG_X_HI + self.slot_index() <= usize::MAX,
        ensures
            result == types::le_word(
                access::byte_at(self.ram(), TAGALONG_X_LO + self.slot_index()),
                access::byte_at(self.ram(), TAGALONG_X_HI + self.slot_index()),
            ),
    {
        packed_position(self.ram, TAGALONG_X_LO + self.slot, TAGALONG_X_HI + self.slot)
    }

    pub fn y(&self) -> (result: u16)
        requires
            TAGALONG_Y_LO + self.slot_index() <= usize::MAX,
            TAGALONG_Y_HI + self.slot_index() <= usize::MAX,
        ensures
            result == types::le_word(
                access::byte_at(self.ram(), TAGALONG_Y_LO + self.slot_index()),
                access::byte_at(self.ram(), TAGALONG_Y_HI + self.slot_index()),
            ),
    {
        packed_position(self.ram, TAGALONG_Y_LO + self.slot, TAGALONG_Y_HI + self.slot)
    }

    pub fn z(&self) -> (result: u8)
        requires
            TAGALONG_Z + self.slot_index() <= usize::MAX,
        ensures
            result == access::byte_at(self.ram(), TAGALONG_Z + self.slot_index()),
    {
        byte(self.ram, TAGALONG_Z + self.slot)
    }

    pub fn z_signed(&self) -> (result: i8)
        requires
            TAGALONG_Z + self.slot_index() <= usize::MAX,
        ensures
            result == (access::byte_at(self.ram(), TAGALONG_Z + self.slot_index()) as i8),
    {
        self.z() as i8
    }

    pub fn is_above_ground(&self) -> (result: bool)
        requires
            TAGALONG_Z + self.slot_index() <= usize::MAX,
        ensures
            result == ((access::byte_at(self.ram(), TAGALONG_Z + self.slot_index()) as i8) > 0),
    {
        self.z_signed() > 0
    }

    pub fn layer_bits(&self) -> (result: u8)
        requires
            TAGALONG_LAYERBITS + self.slot_index() <= usize::MAX,
        ensures
            result == access::byte_at(self.ram(), TAGALONG_LAYERBITS + self.slot_index()),
    {
        byte(self.ram, TAGALONG_LAYERBITS + self.slot)
    }

    pub fn direction(&self) -> (result: u8)
        requires
            TAGALONG_LAYERBITS + self.slot_index() <= usize::MAX,
        ensures
            result == (access::byte_at(self.ram(), TAGALONG_LAYERBITS + self.slot_index()) & 3u8),
    {
        self.layer_bits() & 3
    }
}

pub struct TagalongSlotViewMut<'a> {
    pub ram: &'a mut [u8],
    pub slot: usize,
}

impl<'a> TagalongSlotViewMut<'a> {
    /// The bytes of RAM this view reads and writes.
    pub open spec fn ram(&self) -> Seq<u8> {
        self.ram@
    }

    /// The slot whose fields this view addresses.
    pub open spec fn slot_index(&self) -> usize {
        self.slot
    }

    pub fn new(ram: &'a mut [u8], slot: usize) -> (view: Self)
        ensures
            view.ram() == old(ram)@,
            view.slot_index() == slot,
            final(view.ram)@ == final(ram)@,
    {
        Self { ram, slot }
    }

    pub fn set_x(&mut self, value: u16)
        requires
            TAGALONG_X_LO + old(self).slot_index() < old(self).ram().len(),
            TAGALONG_X_HI + old(self).slot_index() < old(self).ram().len(),
        ensures
            final(self).ram() == old(self).ram()
                .update(TAGALONG_X_LO + old(self).slot_index(), types::low_byte(value))
                .update(TAGALONG_X_HI + old(self).slot_index(), types::high_byte(value)),
            final(self).slot_index() == old(self).slot_index(),
            final(final(self).ram)@ == final(old(self).ram)@,
    {
        proof {
            assert(self.ram@.len() == self.ram.len());
        }
        write_position(self.ram, TAGALONG_X_LO + self.slot, TAGALONG_X_HI + self.slot, value);
    }

    pub fn set_y(&mut self, value: u16)
        requires
            TAGALONG_Y_LO + old(self).slot_index() < old(self).ram().len(),
            TAGALONG_Y_HI + old(self).slot_index() < old(self).ram().len(),
        ensures
            final(self).ram() == old(self).ram()
                .update(TAGALONG_Y_LO + old(self).slot_index(), types::low_byte(value))
                .update(TAGALONG_Y_HI + old(self).slot_index(), types::high_byte(value)),
            final(self).slot_index() == old(self).slot_index(),
            final(final(self).ram)@ == final(old(self).ram)@,
    {
        proof {
            assert(self.ram@.len() == self.ram.len());
        }
        write_position(self.ram, TAGALONG_Y_LO + self.slot, TAGALONG_Y_HI + self.slot, value);
    }

    pub fn set_y_high(&mut self, value: u8)
        requires
            TAGALONG_Y_HI + old(self).slot_index() < old(self).ram().len(),
        ensures
            final(self).ram() == old(self).ram().update(
                TAGALONG_Y_HI + old(self).slot_index(),
                value,
            ),
            final(self).slot_index() == old(self).slot_index(),
            final(final(self).ram)@ == final(old(self).ram)@,
    {
        proof {
            assert(self.ram@.len() == self.ram.len());
        }
        self.ram[TAGALONG_Y_HI + self.slot] = value;
    }

    pub fn set_position(&mut self, x: u16, y: u16)
        requires
            TAGALONG_X_LO + old(self).slot_index() < old(self).ram().len(),
            TAGALONG_X_HI + old(self).slot_index() < old(self).ram().len(),
            TAGALONG_Y_LO + old(self).slot_index() < old(self).ram().len(),
            TAGALONG_Y_HI + old(self).slot_index() < old(self).ram().len(),
        ensures
            final(self).ram() == old(self).ram()
                .update(TAGALONG_X_LO + old(self).slot_index(), types::low_byte(x))
                .update(TAGALONG_X_HI + old(self).slot_index(), types::high_byte(x))
                .update(TAGALONG_Y_LO + old(self).slot_index(), types::low_byte(y))
                .update(TAGALONG_Y_HI + old(self).slot_index(), types::high_byte(y)),
            final(self).slot_index() == old(self).slot_index(),
            final(final(self).ram)@ == final(old(self).ram)@,
    {
        proof {
            assert(self.ram@.len() == self.ram.len());
        }
        self.set_x(x);
        self.set_y(y);
    }

    pub fn set_z(&mut self, value: u8)
        requires
            TAGALONG_Z + old(self).slot_index() < old(self).ram().len(),
        ensures
            final(self).ram() == old(self).ram().update(TAGALONG_Z + old(self).slot_index(), value),
            final(self).slot_index() == old(self).slot_index(),
            final(final(self).ram)@ == final(old(self).ram)@,
    {
        proof {
            assert(self.ram@.len() == self.ram.len());
        }
        self.ram[TAGALONG_Z + self.slot] = value;
    }

    pub fn set_layer_bits(&mut self, value: u8)
        requires
            TAGALONG_LAYERBITS + old(self).slot_index() < old(self).ram().len(),
        ensures
            final(self).ram() == old(self).ram().update(
                TAGALONG_LAYERBITS + old(self).slot_index(),
                value,
            ),
            final(self).slot_index() == old(self).slot_index(),
            final(final(self).ram)@ == final(old(self).ram)@,
    {
        proof {
            assert(self.ram@.len() == self.ram.len());
        }
        self.ram[TAGALONG_LAYERBITS + self.slot] = value;
    }
}

} // verus!
