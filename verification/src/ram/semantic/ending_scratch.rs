use vstd::prelude::*;
use super::access;
use super::access::{byte, word};
use super::addresses::{ENDING_SCRATCH_PRIMARY, ENDING_SCRATCH_SECONDARY};
use crate::types;
use crate::types::{write_le_u16};

verus! {

pub struct EndingScratchView<'a> {
    ram: &'a [u8],
}

impl<'a> EndingScratchView<'a> {
    /// The bytes of RAM this view reads and writes.
    pub closed spec fn ram(&self) -> Seq<u8> {
        self.ram@
    }

    pub fn new(ram: &'a [u8]) -> (view: Self)
        ensures
            view.ram() == ram@,
    {
        Self { ram }
    }

    pub fn primary_word(&self) -> (result: u16)
        ensures
            result == access::word_at(self.ram(), ENDING_SCRATCH_PRIMARY as int),
    {
        word(self.ram, ENDING_SCRATCH_PRIMARY)
    }

    pub fn secondary_word(&self) -> (result: u16)
        ensures
            result == access::word_at(self.ram(), ENDING_SCRATCH_SECONDARY as int),
    {
        word(self.ram, ENDING_SCRATCH_SECONDARY)
    }

    pub fn primary_low(&self) -> (result: u8)
        ensures
            result == access::byte_at(self.ram(), ENDING_SCRATCH_PRIMARY as int),
    {
        byte(self.ram, ENDING_SCRATCH_PRIMARY)
    }

    pub fn secondary_low(&self) -> (result: u8)
        ensures
            result == access::byte_at(self.ram(), ENDING_SCRATCH_SECONDARY as int),
    {
        byte(self.ram, ENDING_SCRATCH_SECONDARY)
    }
}

pub struct EndingScratchViewMut<'a> {
    pub ram: &'a mut [u8],
}

impl<'a> EndingScratchViewMut<'a> {
    /// The bytes of RAM this view reads and writes.
    pub open spec fn ram(&self) -> Seq<u8> {
        self.ram@
    }

    pub fn new(ram: &'a mut [u8]) -> (view: Self)
        ensures
            view.ram() == old(ram)@,
            final(view.ram)@ == final(ram)@,
    {
        Self { ram }
    }

    pub fn set_primary_word(&mut self, value: u16)
        requires
            ENDING_SCRATCH_PRIMARY + 1 < old(self).ram().len(),
        ensures
            final(self).ram() == types::with_u16(
                old(self).ram(),
                ENDING_SCRATCH_PRIMARY as int,
                value,
            ),
            final(final(self).ram)@ == final(old(self).ram)@,
    {
        write_le_u16(self.ram, ENDING_SCRATCH_PRIMARY, value);
    }

    pub fn set_secondary_word(&mut self, value: u16)
        requires
            ENDING_SCRATCH_SECONDARY + 1 < old(self).ram().len(),
        ensures
            final(self).ram() == types::with_u16(
                old(self).ram(),
                ENDING_SCRATCH_SECONDARY as int,
                value,
            ),
            final(final(self).ram)@ == final(old(self).ram)@,
    {
        write_le_u16(self.ram, ENDING_SCRATCH_SECONDARY, value);
    }

    pub fn clear_primary_word(&mut self)
        requires
            ENDING_SCRATCH_PRIMARY + 1 < old(self).ram().len(),
        ensures
            final(self).ram() == types::with_u16(old(self).ram(), ENDING_SCRATCH_PRIMARY as int, 0),
            final(final(self).ram)@ == final(old(self).ram)@,
    {
        self.set_primary_word(0);
    }

    pub fn set_primary_low(&mut self, value: u8)
        requires
            ENDING_SCRATCH_PRIMARY < old(self).ram().len(),
        ensures
            final(self).ram() == old(self).ram().update(ENDING_SCRATCH_PRIMARY as int, value),
            final(final(self).ram)@ == final(old(self).ram)@,
    {
        self.ram[ENDING_SCRATCH_PRIMARY] = value;
    }

    pub fn decrement_primary_low(&mut self) -> (result: u8)
        requires
            ENDING_SCRATCH_PRIMARY < old(self).ram().len(),
        ensures
            result == old(self).ram()[ENDING_SCRATCH_PRIMARY as int].wrapping_sub(1),
            final(self).ram() == old(self).ram().update(
                ENDING_SCRATCH_PRIMARY as int,
                old(self).ram()[ENDING_SCRATCH_PRIMARY as int].wrapping_sub(1),
            ),
            final(final(self).ram)@ == final(old(self).ram)@,
    {
        self.ram[ENDING_SCRATCH_PRIMARY] = self.ram[ENDING_SCRATCH_PRIMARY].wrapping_sub(1);
        self.ram[ENDING_SCRATCH_PRIMARY]
    }

    pub fn increment_secondary_low(&mut self) -> (result: u8)
        requires
            ENDING_SCRATCH_SECONDARY < old(self).ram().len(),
        ensures
            result == old(self).ram()[ENDING_SCRATCH_SECONDARY as int].wrapping_add(1),
            final(self).ram() == old(self).ram().update(
                ENDING_SCRATCH_SECONDARY as int,
                old(self).ram()[ENDING_SCRATCH_SECONDARY as int].wrapping_add(1),
            ),
            final(final(self).ram)@ == final(old(self).ram)@,
    {
        self.ram[ENDING_SCRATCH_SECONDARY] = self.ram[ENDING_SCRATCH_SECONDARY].wrapping_add(1);
        self.ram[ENDING_SCRATCH_SECONDARY]
    }
}

} // verus!
