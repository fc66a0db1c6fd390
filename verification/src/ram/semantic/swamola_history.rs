use vstd::prelude::*;
use super::access;
use super::access::{packed_position};
use super::addresses::{
    SWAMOLA_HISTORY_X_HI, SWAMOLA_HISTORY_X_LO, SWAMOLA_HISTORY_Y_HI, SWAMOLA_HISTORY_Y_LO,
};
use crate::types;

verus! {

pub struct SwamolaHistoryView<'a> {
    ram: &'a [u8],
    slot: usize,
}

impl<'a> SwamolaHistoryView<'a> {
    /// The bytes of RAM this view reads and writes.
    pub closed spec fn ram(&self) -> Seq<u8> {
        self.ram@
    }

    /// The slot whose fields this view addresses.
    pub closed spec fn slot_index(&self) -> usize {
        self.slot
    }

    pub fn new(ram: &'a [u8], slot: usize) -> (view: Self)
        ensures
            view.ram() == ram@,
            view.slot_index() == slot,
    {
        Self { ram, slot }
    }

    pub fn x(&self) -> (result: u16)
        requires
            SWAMOLA_HISTORY_X_LO + self.slot_index() <= usize::MAX,
            SWAMOLA_HISTORY_X_HI + self.slot_index() <= usize::MAX,
        ensures
            result == types::le_word(
                access::byte_at(self.ram(), SWAMOLA_HISTORY_X_LO + self.slot_index()),
                access::byte_at(self.ram(), SWAMOLA_HISTORY_X_HI + self.slot_index()),
            ),
    {
        packed_position(
            self.ram,
            SWAMOLA_HISTORY_X_LO + self.slot,
            SWAMOLA_HISTORY_X_HI + self.slot,
        )
    }

    pub fn y(&self) -> (result: u16)
        requires
            SWAMOLA_HISTORY_Y_LO + self.slot_index() <= usize::MAX,
            SWAMOLA_HISTORY_Y_HI + self.slot_index() <= usize::MAX,
        ensures
            result == types::le_word(
                access::byte_at(self.ram(), SWAMOLA_HISTORY_Y_LO + self.slot_index()),
                access::byte_at(self.ram(), SWAMOLA_HISTORY_Y_HI + self.slot_index()),
            ),
    {
        packed_position(
            self.ram,
            SWAMOLA_HISTORY_Y_LO + self.slot,
            SWAMOLA_HISTORY_Y_HI + self.slot,
        )
    }
}

pub struct SwamolaHistoryViewMut<'a> {
    pub ram: &'a mut [u8],
    pub slot: usize,
}

impl<'a> SwamolaHistoryViewMut<'a> {
    /// The bytes of RAM this view reads and writes.
    pub open spec fn ram(&self) -> Seq<u8> {
        self.ram@
    }

    /// The slot whose fields this view addresses.
    pub open spec fn slot_index(&self) -> usize {
        self.slot
    }

    pub fn new(ram: &'a mut [u8], slot: usize) -> (view: Self)
        ensures
            view.ram() == old(ram)@,
            view.slot_index() == slot,
            final(view.ram)@ == final(ram)@,
    {
        Self { ram, slot }
    }

    pub fn set_position(&mut self, x: u16, y: u16)
        requires
            SWAMOLA_HISTORY_X_LO + old(self).slot_index() < old(self).ram().len(),
            SWAMOLA_HISTORY_X_HI + old(self).slot_index() < old(self).ram().len(),
            SWAMOLA_HISTORY_Y_LO + old(self).slot_index() < old(self).ram().len(),
            SWAMOLA_HISTORY_Y_HI + old(self).slot_index() < old(self).ram().len(),
        ensures
            final(self).ram() == old(self).ram()
                .update(SWAMOLA_HISTORY_X_LO + old(self).slot_index(), x as u8)
                .update(SWAMOLA_HISTORY_X_HI + old(self).slot_index(), (x >> 8) as u8)
                .update(SWAMOLA_HISTORY_Y_LO + old(self).slot_index(), y as u8)
                .update(SWAMOLA_HISTORY_Y_HI + old(self).slot_index(), (y >> 8) as u8),
            final(self).slot_index() == old(self).slot_index(),
            final(final(self).ram)@ == final(old(self).ram)@,
    {
        proof {
            assert(self.ram@.len() == self.ram.len());
        }
        self.ram[SWAMOLA_HISTORY_X_LO + self.slot] = x as u8;
        self.ram[SWAMOLA_HISTORY_X_HI + self.slot] = (x >> 8) as u8;
        self.ram[SWAMOLA_HISTORY_Y_LO + self.slot] = y as u8;
        self.ram[SWAMOLA_HISTORY_Y_HI + self.slot] = (y >> 8) as u8;
    }
}

} // verus!
