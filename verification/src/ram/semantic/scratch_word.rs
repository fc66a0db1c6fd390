use vstd::prelude::*;
use super::access;
use super::access::{byte, word};
use super::addresses::{SCRATCH_R16, SCRATCH_R18};
use crate::types;
use crate::types::{write_le_u16};

verus! {

pub struct ScratchWordView<'a> {
    ram: &'a [u8],
}

impl<'a> ScratchWordView<'a> {
    /// The bytes of RAM this view reads and writes.
    pub closed spec fn ram(&self) -> Seq<u8> {
        self.ram@
    }

    pub fn new(ram: &'a [u8]) -> (view: Self)
        ensures
            view.ram() == ram@,
    {
        Self { ram }
    }

    pub fn high(&self) -> (result: u8)
        ensures
            result == access::byte_at(self.ram(), SCRATCH_R16 + 1),
    {
        byte(self.ram, SCRATCH_R16 + 1)
    }

    pub fn word(&self) -> (result: u16)
        ensures
            result == access::word_at(self.ram(), SCRATCH_R16 as int),
    {
        word(self.ram, SCRATCH_R16)
    }

    pub fn minigame_previous_chest_choice(&self) -> (result: u8)
        ensures
            result == access::byte_at(self.ram(), SCRATCH_R16 as int),
    {
        byte(self.ram, SCRATCH_R16)
    }
}

pub struct ScratchWordViewMut<'a> {
    pub ram: &'a mut [u8],
}

impl<'a> ScratchWordViewMut<'a> {
    /// The bytes of RAM this view reads and writes.
    pub open spec fn ram(&self) -> Seq<u8> {
        self.ram@
    }

    pub fn new(ram: &'a mut [u8]) -> (view: Self)
        ensures
            view.ram() == old(ram)@,
            final(view.ram)@ == final(ram)@,
    {
        Self { ram }
    }

    pub fn decrement_high(&mut self) -> (result: u8)
        requires
            SCRATCH_R16 + 1 < old(self).ram().len(),
        ensures
            result == old(self).ram()[SCRATCH_R16 + 1].wrapping_sub(1),
            final(self).ram() == old(self).ram().update(
                SCRATCH_R16 + 1,
                old(self).ram()[SCRATCH_R16 + 1].wrapping_sub(1),
            ),
            final(final(self).ram)@ == final(old(self).ram)@,
    {
        let next = self.ram[SCRATCH_R16 + 1].wrapping_sub(1);
        self.ram[SCRATCH_R16 + 1] = next;
        next
    }

    pub fn set_word(&mut self, value: u16)
        requires
            SCRATCH_R16 + 1 < old(self).ram().len(),
        ensures
            final(self).ram() == types::with_u16(old(self).ram(), SCRATCH_R16 as int, value),
            final(final(self).ram)@ == final(old(self).ram)@,
    {
        write_le_u16(self.ram, SCRATCH_R16, value);
    }

    pub fn clear_word(&mut self)
        requires
            SCRATCH_R16 + 1 < old(self).ram().len(),
        ensures
            final(self).ram() == types::with_u16(old(self).ram(), SCRATCH_R16 as int, 0),
            final(final(self).ram)@ == final(old(self).ram)@,
    {
        self.set_word(0);
    }

    pub fn set_liftable_tile_probe_position(&mut self, y: u16, x: u16)
        requires
            SCRATCH_R16 + 1 < old(self).ram().len(),
            SCRATCH_R18 + 1 < old(self).ram().len(),
        ensures
            final(self).ram() == types::with_u16(
                types::with_u16(old(self).ram(), SCRATCH_R16 as int, y),
                SCRATCH_R18 as int,
                x,
            ),
            final(final(self).ram)@ == final(old(self).ram)@,
    {
        write_le_u16(self.ram, SCRATCH_R16, y);
        write_le_u16(self.ram, SCRATCH_R18, x);
    }

    pub fn set_ganon_door_bounce_countdown(&mut self, value: u16)
        requires
            SCRATCH_R16 + 1 < old(self).ram().len(),
        ensures
            final(self).ram() == types::with_u16(old(self).ram(), SCRATCH_R16 as int, value),
            final(final(self).ram)@ == final(old(self).ram)@,
    {
        self.set_word(value);
    }

    pub fn decrement_ganon_door_bounce_low(&mut self) -> (result: u8)
        requires
            SCRATCH_R16 < old(self).ram().len(),
        ensures
            result == old(self).ram()[SCRATCH_R16 as int].wrapping_sub(1),
            final(self).ram() == old(self).ram().update(
                SCRATCH_R16 as int,
                old(self).ram()[SCRATCH_R16 as int].wrapping_sub(1),
            ),
            final(final(self).ram)@ == final(old(self).ram)@,
    {
        let next = self.ram[SCRATCH_R16].wrapping_sub(1);
        self.ram[SCRATCH_R16] = next;
        next
    }

    pub fn clear_module_transition_counter(&mut self)
        requires
            SCRATCH_R16 < old(self).ram().len(),
        ensures
            final(self).ram() == old(self).ram().update(SCRATCH_R16 as int, 0u8),
            final(final(self).ram)@ == final(old(self).ram)@,
    {
        self.ram[SCRATCH_R16] = 0;
    }

    pub fn set_minigame_previous_chest_choice(&mut self, value: u8)
        requires
            SCRATCH_R16 < old(self).ram().len(),
        ensures
            final(self).ram() == old(self).ram().update(SCRATCH_R16 as int, value),
            final(final(self).ram)@ == final(old(self).ram)@,
    {
        self.ram[SCRATCH_R16] = value;
    }
}

} // verus!
