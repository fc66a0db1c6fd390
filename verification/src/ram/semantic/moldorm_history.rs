use vstd::prelude::*;
use super::access;
use super::access::{byte, packed_position};
use super::addresses::{
    MOLDORM_HISTORY_X_HI, MOLDORM_HISTORY_X_LO, MOLDORM_HISTORY_Y_HI, MOLDORM_HISTORY_Y_LO,
};
use crate::types;

verus! {

pub struct MoldormHistoryView<'a> {
    ram: &'a [u8],
    slot: usize,
}

impl<'a> MoldormHistoryView<'a> {
    /// The bytes of RAM this view reads and writes.
    pub closed spec fn ram(&self) -> Seq<u8> {
        self.ram@
    }

    /// The slot whose fields this view addresses.
    pub closed spec fn slot_index(&self) -> usize {
        self.slot
    }

    pub fn new(ram: &'a [u8], slot: usize) -> (view: Self)
        ensures
            view.ram() == ram@,
            view.slot_index() == slot,
    {
        Self { ram, slot }
    }

    pub fn x(&self) -> (result: u16)
        requires
            MOLDORM_HISTORY_X_LO + self.slot_index() <= usize::MAX,
            MOLDORM_HISTORY_X_HI + self.slot_index() <= usize::MAX,
        ensures
            result == types::le_word(
                access::byte_at(self.ram(), MOLDORM_HISTORY_X_LO + self.slot_index()),
                access::byte_at(self.ram(), MOLDORM_HISTORY_X_HI + self.slot_index()),
            ),
    {
        packed_position(
            self.ram,
            MOLDORM_HISTORY_X_LO + self.slot,
            MOLDORM_HISTORY_X_HI + self.slot,
        )
    }

    pub fn y(&self) -> (result: u16)
        requires
            MOLDORM_HISTORY_Y_LO + self.slot_index() <= usize::MAX,
            MOLDORM_HISTORY_Y_HI + self.slot_index() <= usize::MAX,
        ensures
            result == types::le_word(
                access::byte_at(self.ram(), MOLDORM_HISTORY_Y_LO + self.slot_index()),
                access::byte_at(self.ram(), MOLDORM_HISTORY_Y_HI + self.slot_index()),
            ),
    {
        packed_position(
            self.ram,
            MOLDORM_HISTORY_Y_LO + self.slot,
            MOLDORM_HISTORY_Y_HI + self.slot,
        )
    }

    pub fn x_low(&self) -> (result: u8)
        requires
            MOLDORM_HISTORY_X_LO + self.slot_index() <= usize::MAX,
        ensures
            result == access::byte_at(self.ram(), MOLDORM_HISTORY_X_LO + self.slot_index()),
    {
        byte(self.ram, MOLDORM_HISTORY_X_LO + self.slot)
    }

    pub fn y_low(&self) -> (result: u8)
        requires
            MOLDORM_HISTORY_Y_LO + self.slot_index() <= usize::MAX,
        ensures
            result == access::byte_at(self.ram(), MOLDORM_HISTORY_Y_LO + self.slot_index()),
    {
        byte(self.ram, MOLDORM_HISTORY_Y_LO + self.slot)
    }
}

pub struct MoldormHistoryViewMut<'a> {
    pub ram: &'a mut [u8],
    pub slot: usize,
}

impl<'a> MoldormHistoryViewMut<'a> {
    /// The bytes of RAM this view reads and writes.
    pub open spec fn ram(&self) -> Seq<u8> {
        self.ram@
    }

    /// The slot whose fields this view addresses.
    pub open spec fn slot_index(&self) -> usize {
        self.slot
    }

    pub fn new(ram: &'a mut [u8], slot: usize) -> (view: Self)
        ensures
            view.ram() == old(ram)@,
            view.slot_index() == slot,
            final(view.ram)@ == final(ram)@,
    {
        Self { ram, slot }
    }

    pub fn set_position(&mut self, x: u16, y: u16)
        requires
            MOLDORM_HISTORY_X_LO + old(self).slot_index() < old(self).ram().len(),
            MOLDORM_HISTORY_X_HI + old(self).slot_index() < old(self).ram().len(),
            MOLDORM_HISTORY_Y_LO + old(self).slot_index() < old(self).ram().len(),
            MOLDORM_HISTORY_Y_HI + old(self).slot_index() < old(self).ram().len(),
        ensures
            final(self).ram() == old(self).ram()
                .update(MOLDORM_HISTORY_X_LO + old(self).slot_index(), x as u8)
                .update(MOLDORM_HISTORY_X_HI + old(self).slot_index(), (x >> 8) as u8)
                .update(MOLDORM_HISTORY_Y_LO + old(self).slot_index(), y as u8)
                .update(MOLDORM_HISTORY_Y_HI + old(self).slot_index(), (y >> 8) as u8),
            final(self).slot_index() == old(self).slot_index(),
            final(final(self).ram)@ == final(old(self).ram)@,
    {
        proof {
            assert(self.ram@.len() == self.ram.len());
        }
        self.ram[MOLDORM_HISTORY_X_LO + self.slot] = x as u8;
        self.ram[MOLDORM_HISTORY_X_HI + self.slot] = (x >> 8) as u8;
        self.ram[MOLDORM_HISTORY_Y_LO + self.slot] = y as u8;
        self.ram[MOLDORM_HISTORY_Y_HI + self.slot] = (y >> 8) as u8;
    }

    pub fn set_low_position(&mut self, x_low: u8, y_low: u8)
        requires
            MOLDORM_HISTORY_X_LO + old(self).slot_index() < old(self).ram().len(),
            MOLDORM_HISTORY_Y_LO + old(self).slot_index() < old(self).ram().len(),
        ensures
            final(self).ram() == old(self).ram()
                .update(MOLDORM_HISTORY_X_LO + old(self).slot_index(), x_low)
                .update(MOLDORM_HISTORY_Y_LO + old(self).slot_index(), y_low),
            final(self).slot_index() == old(self).slot_index(),
            final(final(self).ram)@ == final(old(self).ram)@,
    {
        proof {
            assert(self.ram@.len() == self.ram.len());
        }
        self.ram[MOLDORM_HISTORY_X_LO + self.slot] = x_low;
        self.ram[MOLDORM_HISTORY_Y_LO + self.slot] = y_low;
    }
}

} // verus!
