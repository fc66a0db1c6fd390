use vstd::prelude::*;
use super::access;
use super::access::{byte, word};
use super::addresses::{OVERWORLD_SCROLL_DELTA};
use crate::types;
use crate::types::{write_le_u16};

verus! {

pub struct OverworldScrollDeltaView<'a> {
    ram: &'a [u8],
}

impl<'a> OverworldScrollDeltaView<'a> {
    /// The bytes of RAM this view reads and writes.
    pub closed spec fn ram(&self) -> Seq<u8> {
        self.ram@
    }

    pub fn new(ram: &'a [u8]) -> (view: Self)
        ensures
            view.ram() == ram@,
    {
        Self { ram }
    }

    pub fn low(&self) -> (result: u8)
        ensures
            result == access::byte_at(self.ram(), OVERWORLD_SCROLL_DELTA as int),
    {
        byte(self.ram, OVERWORLD_SCROLL_DELTA)
    }

    pub fn high(&self) -> (result: u8)
        ensures
            result == access::byte_at(self.ram(), OVERWORLD_SCROLL_DELTA + 1),
    {
        byte(self.ram, OVERWORLD_SCROLL_DELTA + 1)
    }

    pub fn word(&self) -> (result: u16)
        ensures
            result == access::word_at(self.ram(), OVERWORLD_SCROLL_DELTA as int),
    {
        word(self.ram, OVERWORLD_SCROLL_DELTA)
    }
}

pub struct OverworldScrollDeltaViewMut<'a> {
    pub ram: &'a mut [u8],
}

impl<'a> OverworldScrollDeltaViewMut<'a> {
    /// The bytes of RAM this view reads and writes.
    pub open spec fn ram(&self) -> Seq<u8> {
        self.ram@
    }

    pub fn new(ram: &'a mut [u8]) -> (view: Self)
        ensures
            view.ram() == old(ram)@,
            final(view.ram)@ == final(ram)@,
    {
        Self { ram }
    }

    pub fn set_high(&mut self, value: u8)
        requires
            OVERWORLD_SCROLL_DELTA + 1 < old(self).ram().len(),
        ensures
            final(self).ram() == old(self).ram().update(OVERWORLD_SCROLL_DELTA + 1, value),
            final(final(self).ram)@ == final(old(self).ram)@,
    {
        self.ram[OVERWORLD_SCROLL_DELTA + 1] = value;
    }

    pub fn set_high_word(&mut self, value: u16)
        requires
            (OVERWORLD_SCROLL_DELTA + 1) + 1 < old(self).ram().len(),
        ensures
            final(self).ram() == types::with_u16(old(self).ram(), OVERWORLD_SCROLL_DELTA + 1, value),
            final(final(self).ram)@ == final(old(self).ram)@,
    {
        write_le_u16(self.ram, OVERWORLD_SCROLL_DELTA + 1, value);
    }

    pub fn set_y_delta(&mut self, value: u16)
        requires
            OVERWORLD_SCROLL_DELTA + 1 < old(self).ram().len(),
        ensures
            final(self).ram() == types::with_u16(
                old(self).ram(),
                OVERWORLD_SCROLL_DELTA as int,
                value,
            ),
            final(final(self).ram)@ == final(old(self).ram)@,
    {
        write_le_u16(self.ram, OVERWORLD_SCROLL_DELTA, value);
    }

    pub fn clear_low(&mut self)
        requires
            OVERWORLD_SCROLL_DELTA < old(self).ram().len(),
        ensures
            final(self).ram() == old(self).ram().update(OVERWORLD_SCROLL_DELTA as int, 0u8),
            final(final(self).ram)@ == final(old(self).ram)@,
    {
        self.ram[OVERWORLD_SCROLL_DELTA] = 0;
    }
}

} // verus!
