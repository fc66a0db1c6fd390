use vstd::prelude::*;
use super::access;
use super::access::{byte, packed_position};
use super::addresses::{OVERLORD_GEN1, OVERLORD_GEN3, OVERLORD_X_LO, OVERLORD_Y_LO};
use crate::types;

verus! {

pub struct ArrghusPuffHomeView<'a> {
    ram: &'a [u8],
    slot: usize,
}

impl<'a> ArrghusPuffHomeView<'a> {
    /// The bytes of RAM this view reads and writes.
    pub closed spec fn ram(&self) -> Seq<u8> {
        self.ram@
    }

    /// The slot whose fields this view addresses.
    pub closed spec fn slot_index(&self) -> usize {
        self.slot
    }

    pub fn new(ram: &'a [u8], puff_slot: usize) -> (view: Self)
        requires
            puff_slot + 7 <= usize::MAX,
        ensures
            view.ram() == ram@,
            view.slot_index() == puff_slot + 7,
    {
        Self { ram, slot: puff_slot + 7 }
    }

    pub fn x(&self) -> (result: u16)
        requires
            OVERLORD_X_LO + self.slot_index() <= usize::MAX,
            OVERLORD_Y_LO + self.slot_index() <= usize::MAX,
        ensures
            result == types::le_word(
                access::byte_at(self.ram(), OVERLORD_X_LO + self.slot_index()),
                access::byte_at(self.ram(), OVERLORD_Y_LO + self.slot_index()),
            ),
    {
        packed_position(self.ram, OVERLORD_X_LO + self.slot, OVERLORD_Y_LO + self.slot)
    }

    pub fn y(&self) -> (result: u16)
        requires
            OVERLORD_GEN1 + self.slot_index() <= usize::MAX,
            OVERLORD_GEN3 + self.slot_index() <= usize::MAX,
        ensures
            result == types::le_word(
                access::byte_at(self.ram(), OVERLORD_GEN1 + self.slot_index()),
                access::byte_at(self.ram(), OVERLORD_GEN3 + self.slot_index()),
            ),
    {
        packed_position(self.ram, OVERLORD_GEN1 + self.slot, OVERLORD_GEN3 + self.slot)
    }

    pub fn x_low(&self) -> (result: u8)
        requires
            OVERLORD_X_LO + self.slot_index() <= usize::MAX,
        ensures
            result == access::byte_at(self.ram(), OVERLORD_X_LO + self.slot_index()),
    {
        byte(self.ram, OVERLORD_X_LO + self.slot)
    }

    pub fn x_high(&self) -> (result: u8)
        requires
            OVERLORD_Y_LO + self.slot_index() <= usize::MAX,
        ensures
            result == access::byte_at(self.ram(), OVERLORD_Y_LO + self.slot_index()),
    {
        byte(self.ram, OVERLORD_Y_LO + self.slot)
    }

    pub fn y_low(&self) -> (result: u8)
        requires
            OVERLORD_GEN1 + self.slot_index() <= usize::MAX,
        ensures
            result == access::byte_at(self.ram(), OVERLORD_GEN1 + self.slot_index()),
    {
        byte(self.ram, OVERLORD_GEN1 + self.slot)
    }

    pub fn y_high(&self) -> (result: u8)
        requires
            OVERLORD_GEN3 + self.slot_index() <= usize::MAX,
        ensures
            result == access::byte_at(self.ram(), OVERLORD_GEN3 + self.slot_index()),
    {
        byte(self.ram, OVERLORD_GEN3 + self.slot)
    }
}

} // verus!
