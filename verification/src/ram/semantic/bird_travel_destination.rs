use vstd::prelude::*;
use super::access;
use super::access::{packed_position};
use super::addresses::{BIRD_TRAVEL_X_HI, BIRD_TRAVEL_X_LO, BIRD_TRAVEL_Y_HI, BIRD_TRAVEL_Y_LO};
use crate::types;

verus! {

pub struct BirdTravelDestinationView<'a> {
    ram: &'a [u8],
    slot: usize,
}

impl<'a> BirdTravelDestinationView<'a> {
    /// The bytes of RAM this view reads and writes.
    pub closed spec fn ram(&self) -> Seq<u8> {
        self.ram@
    }

    /// The slot whose fields this view addresses.
    pub closed spec fn slot_index(&self) -> usize {
        self.slot
    }

    pub fn new(ram: &'a [u8], slot: usize) -> (view: Self)
        ensures
            view.ram() == ram@,
            view.slot_index() == slot,
    {
        Self { ram, slot }
    }

    pub fn x(&self) -> (result: u16)
        requires
            BIRD_TRAVEL_X_LO + self.slot_index() <= usize::MAX,
            BIRD_TRAVEL_X_HI + self.slot_index() <= usize::MAX,
        ensures
            result == types::le_word(
                access::byte_at(self.ram(), BIRD_TRAVEL_X_LO + self.slot_index()),
                access::byte_at(self.ram(), BIRD_TRAVEL_X_HI + self.slot_index()),
            ),
    {
        packed_position(self.ram, BIRD_TRAVEL_X_LO + self.slot, BIRD_TRAVEL_X_HI + self.slot)
    }

    pub fn y(&self) -> (result: u16)
        requires
            BIRD_TRAVEL_Y_LO + self.slot_index() <= usize::MAX,
            BIRD_TRAVEL_Y_HI + self.slot_index() <= usize::MAX,
        ensures
            result == types::le_word(
                access::byte_at(self.ram(), BIRD_TRAVEL_Y_LO + self.slot_index()),
                access::byte_at(self.ram(), BIRD_TRAVEL_Y_HI + self.slot_index()),
            ),
    {
        packed_position(self.ram, BIRD_TRAVEL_Y_LO + self.slot, BIRD_TRAVEL_Y_HI + self.slot)
    }

    pub fn is_empty(&self) -> (result: bool)
        requires
            BIRD_TRAVEL_X_LO + self.slot_index() < self.ram().len(),
            BIRD_TRAVEL_X_HI + self.slot_index() < self.ram().len(),
            BIRD_TRAVEL_Y_LO + self.slot_index() < self.ram().len(),
            BIRD_TRAVEL_Y_HI + self.slot_index() < self.ram().len(),
        ensures
            result == ((((self.ram()[BIRD_TRAVEL_X_LO + self.slot_index()]
                    | self.ram()[BIRD_TRAVEL_X_HI + self.slot_index()])
                   | self.ram()[BIRD_TRAVEL_Y_LO + self.slot_index()])
                  | self.ram()[BIRD_TRAVEL_Y_HI + self.slot_index()])
                 == 0),
    {
        proof {
            assert(self.ram@.len() == self.ram.len());
        }
        self.ram[BIRD_TRAVEL_X_LO + self.slot] | self.ram[BIRD_TRAVEL_X_HI + self.slot] | self.ram[BIRD_TRAVEL_Y_LO + self.slot] | self.ram[BIRD_TRAVEL_Y_HI + self.slot] == 0
    }
}

pub struct BirdTravelDestinationViewMut<'a> {
    pub ram: &'a mut [u8],
    pub slot: usize,
}

impl<'a> BirdTravelDestinationViewMut<'a> {
    /// The bytes of RAM this view reads and writes.
    pub open spec fn ram(&self) -> Seq<u8> {
        self.ram@
    }

    /// The slot whose fields this view addresses.
    pub open spec fn slot_index(&self) -> usize {
        self.slot
    }

    pub fn new(ram: &'a mut [u8], slot: usize) -> (view: Self)
        ensures
            view.ram() == old(ram)@,
            view.slot_index() == slot,
            final(view.ram)@ == final(ram)@,
    {
        Self { ram, slot }
    }

    pub fn set_position(&mut self, x: u16, y: u16)
        requires
            BIRD_TRAVEL_X_LO + old(self).slot_index() < old(self).ram().len(),
            BIRD_TRAVEL_X_HI + old(self).slot_index() < old(self).ram().len(),
            BIRD_TRAVEL_Y_LO + old(self).slot_index() < old(self).ram().len(),
            BIRD_TRAVEL_Y_HI + old(self).slot_index() < old(self).ram().len(),
        ensures
            final(self).ram() == old(self).ram()
                .update(BIRD_TRAVEL_X_LO + old(self).slot_index(), x as u8)
                .update(BIRD_TRAVEL_X_HI + old(self).slot_index(), (x >> 8) as u8)
                .update(BIRD_TRAVEL_Y_LO + old(self).slot_index(), y as u8)
                .update(BIRD_TRAVEL_Y_HI + old(self).slot_index(), (y >> 8) as u8),
            final(self).slot_index() == old(self).slot_index(),
            final(final(self).ram)@ == final(old(self).ram)@,
    {
        proof {
            assert(self.ram@.len() == self.ram.len());
        }
        self.ram[BIRD_TRAVEL_X_LO + self.slot] = x as u8;
        self.ram[BIRD_TRAVEL_X_HI + self.slot] = (x >> 8) as u8;
        self.ram[BIRD_TRAVEL_Y_LO + self.slot] = y as u8;
        self.ram[BIRD_TRAVEL_Y_HI + self.slot] = (y >> 8) as u8;
    }

    pub fn clear(&mut self)
        requires
            BIRD_TRAVEL_X_LO + old(self).slot_index() < old(self).ram().len(),
            BIRD_TRAVEL_X_HI + old(self).slot_index() < old(self).ram().len(),
            BIRD_TRAVEL_Y_LO + old(self).slot_index() < old(self).ram().len(),
            BIRD_TRAVEL_Y_HI + old(self).slot_index() < old(self).ram().len(),
        ensures
            final(self).ram() == old(self).ram()
                .update(BIRD_TRAVEL_X_LO + old(self).slot_index(), 0 as u8)
                .update(BIRD_TRAVEL_X_HI + old(self).slot_index(), (0 >> 8) as u8)
                .update(BIRD_TRAVEL_Y_LO + old(self).slot_index(), 0 as u8)
                .update(BIRD_TRAVEL_Y_HI + old(self).slot_index(), (0 >> 8) as u8),
            final(self).slot_index() == old(self).slot_index(),
            final(final(self).ram)@ == final(old(self).ram)@,
    {
        proof {
            assert(self.ram@.len() == self.ram.len());
        }
        self.set_position(0, 0);
    }
}

} // verus!
