use vstd::prelude::*;
use super::access;
use super::access::{byte};
use super::addresses::{OVERWORLD_EVENT_INFO};

verus! {

pub struct OverworldEventInfoView<'a> {
    ram: &'a [u8],
}

impl<'a> OverworldEventInfoView<'a> {
    /// The bytes of RAM this view reads and writes.
    pub closed spec fn ram(&self) -> Seq<u8> {
        self.ram@
    }

    pub fn new(ram: &'a [u8]) -> (view: Self)
        ensures
            view.ram() == ram@,
    {
        Self { ram }
    }

    pub fn event_info(&self, screen: usize) -> (result: u8)
        requires
            OVERWORLD_EVENT_INFO + screen <= usize::MAX,
        ensures
            result == access::byte_at(self.ram(), OVERWORLD_EVENT_INFO + screen),
    {
        byte(self.ram, OVERWORLD_EVENT_INFO + screen)
    }

    pub fn has_event_bits(&self, screen: usize, mask: u8) -> (result: bool)
        requires
            OVERWORLD_EVENT_INFO + screen <= usize::MAX,
        ensures
            result == ((access::byte_at(self.ram(), OVERWORLD_EVENT_INFO + screen) & mask) != 0),
    {
        self.event_info(screen) & mask != 0
    }
}

pub struct OverworldEventInfoViewMut<'a> {
    pub ram: &'a mut [u8],
}

impl<'a> OverworldEventInfoViewMut<'a> {
    /// The bytes of RAM this view reads and writes.
    pub open spec fn ram(&self) -> Seq<u8> {
        self.ram@
    }

    pub fn new(ram: &'a mut [u8]) -> (view: Self)
        ensures
            view.ram() == old(ram)@,
            final(view.ram)@ == final(ram)@,
    {
        Self { ram }
    }

    pub fn set_event_info(&mut self, screen: usize, value: u8)
        requires
            OVERWORLD_EVENT_INFO + screen < old(self).ram().len(),
        ensures
            final(self).ram() == old(self).ram().update(OVERWORLD_EVENT_INFO + screen, value),
            final(final(self).ram)@ == final(old(self).ram)@,
    {
        proof {
            assert(self.ram@.len() == self.ram.len());
        }
        self.ram[OVERWORLD_EVENT_INFO + screen] = value;
    }

    pub fn set_event_bits(&mut self, screen: usize, mask: u8)
        requires
            OVERWORLD_EVENT_INFO + screen < old(self).ram().len(),
        ensures
            final(self).ram() == old(self).ram().update(
                OVERWORLD_EVENT_INFO + screen,
                old(self).ram()[OVERWORLD_EVENT_INFO + screen] | mask,
            ),
            final(final(self).ram)@ == final(old(self).ram)@,
    {
        proof {
            assert(self.ram@.len() == self.ram.len());
        }
        self.ram[OVERWORLD_EVENT_INFO + screen] |= mask;
    }

    pub fn clear_event_bits(&mut self, screen: usize, mask: u8)
        requires
            OVERWORLD_EVENT_INFO + screen < old(self).ram().len(),
        ensures
            final(self).ram() == old(self).ram().update(
                OVERWORLD_EVENT_INFO + screen,
                old(self).ram()[OVERWORLD_EVENT_INFO + screen] & (!mask),
            ),
            final(final(self).ram)@ == final(old(self).ram)@,
    {
        proof {
            assert(self.ram@.len() == self.ram.len());
        }
        self.ram[OVERWORLD_EVENT_INFO + screen] &= !mask;
    }
}

} // verus!
