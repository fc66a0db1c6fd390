use vstd::prelude::*;
use super::access;
use super::access::{byte};
use super::addresses::{DIALOGUE_NUMBER_HI, DIALOGUE_NUMBER_LO};

verus! {

pub struct DialogueNumberView<'a> {
    ram: &'a [u8],
}

impl<'a> DialogueNumberView<'a> {
    /// The bytes of RAM this view reads and writes.
    pub closed spec fn ram(&self) -> Seq<u8> {
        self.ram@
    }

    pub fn new(ram: &'a [u8]) -> (view: Self)
        ensures
            view.ram() == ram@,
    {
        Self { ram }
    }

    pub fn packed_digits(&self, pair_index: usize) -> (result: u8)
        requires
            DIALOGUE_NUMBER_LO + pair_index <= usize::MAX,
        ensures
            result == access::byte_at(self.ram(), DIALOGUE_NUMBER_LO + pair_index),
    {
        byte(self.ram, DIALOGUE_NUMBER_LO + pair_index)
    }
}

pub struct DialogueNumberViewMut<'a> {
    pub ram: &'a mut [u8],
}

impl<'a> DialogueNumberViewMut<'a> {
    /// The bytes of RAM this view reads and writes.
    pub open spec fn ram(&self) -> Seq<u8> {
        self.ram@
    }

    pub fn new(ram: &'a mut [u8]) -> (view: Self)
        ensures
            view.ram() == old(ram)@,
            final(view.ram)@ == final(ram)@,
    {
        Self { ram }
    }

    pub fn set_packed_digits(&mut self, low_pair: u8, high_pair: u8)
        requires
            DIALOGUE_NUMBER_LO < old(self).ram().len(),
            DIALOGUE_NUMBER_HI < old(self).ram().len(),
        ensures
            final(self).ram() == old(self).ram()
                .update(DIALOGUE_NUMBER_LO as int, low_pair)
                .update(DIALOGUE_NUMBER_HI as int, high_pair),
            final(final(self).ram)@ == final(old(self).ram)@,
    {
        self.ram[DIALOGUE_NUMBER_LO] = low_pair;
        self.ram[DIALOGUE_NUMBER_HI] = high_pair;
    }

    pub fn set_low_pair(&mut self, value: u8)
        requires
            DIALOGUE_NUMBER_LO < old(self).ram().len(),
        ensures
            final(self).ram() == old(self).ram().update(DIALOGUE_NUMBER_LO as int, value),
            final(final(self).ram)@ == final(old(self).ram)@,
    {
        self.ram[DIALOGUE_NUMBER_LO] = value;
    }

    pub fn set_high_pair(&mut self, value: u8)
        requires
            DIALOGUE_NUMBER_HI < old(self).ram().len(),
        ensures
            final(self).ram() == old(self).ram().update(DIALOGUE_NUMBER_HI as int, value),
            final(final(self).ram)@ == final(old(self).ram)@,
    {
        self.ram[DIALOGUE_NUMBER_HI] = value;
    }
}

} // verus!
