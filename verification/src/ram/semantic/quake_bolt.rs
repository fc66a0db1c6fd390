use vstd::prelude::*;
use super::access;
use super::access::{byte};
use super::addresses::{QUAKE_BOLT_PHASE, QUAKE_BOLT_TIMER};

verus! {

pub struct QuakeBoltView<'a> {
    ram: &'a [u8],
    slot: usize,
}

impl<'a> QuakeBoltView<'a> {
    /// The bytes of RAM this view reads and writes.
    pub closed spec fn ram(&self) -> Seq<u8> {
        self.ram@
    }

    /// The slot whose fields this view addresses.
    pub closed spec fn slot_index(&self) -> usize {
        self.slot
    }

    pub fn new(ram: &'a [u8], slot: usize) -> (view: Self)
        ensures
            view.ram() == ram@,
            view.slot_index() == slot,
    {
        Self { ram, slot }
    }

    pub fn timer(&self) -> (result: u8)
        requires
            QUAKE_BOLT_TIMER + self.slot_index() <= usize::MAX,
        ensures
            result == access::byte_at(self.ram(), QUAKE_BOLT_TIMER + self.slot_index()),
    {
        byte(self.ram, QUAKE_BOLT_TIMER + self.slot)
    }

    pub fn phase(&self) -> (result: u8)
        requires
            QUAKE_BOLT_PHASE + self.slot_index() <= usize::MAX,
        ensures
            result == access::byte_at(self.ram(), QUAKE_BOLT_PHASE + self.slot_index()),
    {
        byte(self.ram, QUAKE_BOLT_PHASE + self.slot)
    }
}

pub struct QuakeBoltViewMut<'a> {
    pub ram: &'a mut [u8],
    pub slot: usize,
}

impl<'a> QuakeBoltViewMut<'a> {
    /// The bytes of RAM this view reads and writes.
    pub open spec fn ram(&self) -> Seq<u8> {
        self.ram@
    }

    /// The slot whose fields this view addresses.
    pub open spec fn slot_index(&self) -> usize {
        self.slot
    }

    pub fn new(ram: &'a mut [u8], slot: usize) -> (view: Self)
        ensures
            view.ram() == old(ram)@,
            view.slot_index() == slot,
            final(view.ram)@ == final(ram)@,
    {
        Self { ram, slot }
    }

    pub fn set_timer(&mut self, value: u8)
        requires
            QUAKE_BOLT_TIMER + old(self).slot_index() < old(self).ram().len(),
        ensures
            final(self).ram() == old(self).ram().update(
                QUAKE_BOLT_TIMER + old(self).slot_index(),
                value,
            ),
            final(self).slot_index() == old(self).slot_index(),
            final(final(self).ram)@ == final(old(self).ram)@,
    {
        proof {
            assert(self.ram@.len() == self.ram.len());
        }
        self.ram[QUAKE_BOLT_TIMER + self.slot] = value;
    }

    pub fn tick_timer(&mut self) -> (result: u8)
        requires
            QUAKE_BOLT_TIMER + old(self).slot_index() < old(self).ram().len(),
        ensures
            result == old(self).ram()[QUAKE_BOLT_TIMER + old(self).slot_index()].wrapping_sub(1),
            final(self).ram() == old(self).ram().update(
                QUAKE_BOLT_TIMER + old(self).slot_index(),
                old(self).ram()[QUAKE_BOLT_TIMER + old(self).slot_index()].wrapping_sub(1),
            ),
            final(self).slot_index() == old(self).slot_index(),
            final(final(self).ram)@ == final(old(self).ram)@,
    {
        proof {
            assert(self.ram@.len() == self.ram.len());
        }
        let value = self.ram[QUAKE_BOLT_TIMER + self.slot].wrapping_sub(1);
        self.ram[QUAKE_BOLT_TIMER + self.slot] = value;
        value
    }

    pub fn set_phase(&mut self, value: u8)
        requires
            QUAKE_BOLT_PHASE + old(self).slot_index() < old(self).ram().len(),
        ensures
            final(self).ram() == old(self).ram().update(
                QUAKE_BOLT_PHASE + old(self).slot_index(),
                value,
            ),
            final(self).slot_index() == old(self).slot_index(),
            final(final(self).ram)@ == final(old(self).ram)@,
    {
        proof {
            assert(self.ram@.len() == self.ram.len());
        }
        self.ram[QUAKE_BOLT_PHASE + self.slot] = value;
    }

    pub fn advance_phase(&mut self) -> (result: u8)
        requires
            QUAKE_BOLT_PHASE + old(self).slot_index() < old(self).ram().len(),
        ensures
            result == old(self).ram()[QUAKE_BOLT_PHASE + old(self).slot_index()].wrapping_add(1),
            final(self).ram() == old(self).ram().update(
                QUAKE_BOLT_PHASE + old(self).slot_index(),
                old(self).ram()[QUAKE_BOLT_PHASE + old(self).slot_index()].wrapping_add(1),
            ),
            final(self).slot_index() == old(self).slot_index(),
            final(final(self).ram)@ == final(old(self).ram)@,
    {
        proof {
            assert(self.ram@.len() == self.ram.len());
        }
        let value = self.ram[QUAKE_BOLT_PHASE + self.slot].wrapping_add(1);
        self.ram[QUAKE_BOLT_PHASE + self.slot] = value;
        value
    }
}

} // verus!
