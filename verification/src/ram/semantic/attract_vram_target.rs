use vstd::prelude::*;
use super::access;
use super::access::{byte};
use super::addresses::{ATTRACT_VRAM_DST};

verus! {

pub struct AttractVramTargetView<'a> {
    ram: &'a [u8],
}

impl<'a> AttractVramTargetView<'a> {
    /// The bytes of RAM this view reads and writes.
    pub closed spec fn ram(&self) -> Seq<u8> {
        self.ram@
    }

    pub fn new(ram: &'a [u8]) -> (view: Self)
        ensures
            view.ram() == ram@,
    {
        Self { ram }
    }

    pub fn high(&self) -> (result: u8)
        ensures
            result == access::byte_at(self.ram(), ATTRACT_VRAM_DST + 1),
    {
        byte(self.ram, ATTRACT_VRAM_DST + 1)
    }
}

pub struct AttractVramTargetViewMut<'a> {
    pub ram: &'a mut [u8],
}

impl<'a> AttractVramTargetViewMut<'a> {
    /// The bytes of RAM this view reads and writes.
    pub open spec fn ram(&self) -> Seq<u8> {
        self.ram@
    }

    pub fn new(ram: &'a mut [u8]) -> (view: Self)
        ensures
            view.ram() == old(ram)@,
            final(view.ram)@ == final(ram)@,
    {
        Self { ram }
    }

    pub fn set_low(&mut self, value: u8)
        requires
            ATTRACT_VRAM_DST < old(self).ram().len(),
        ensures
            final(self).ram() == old(self).ram().update(ATTRACT_VRAM_DST as int, value),
            final(final(self).ram)@ == final(old(self).ram)@,
    {
        self.ram[ATTRACT_VRAM_DST] = value;
    }

    pub fn clear_high(&mut self)
        requires
            ATTRACT_VRAM_DST + 1 < old(self).ram().len(),
        ensures
            final(self).ram() == old(self).ram().update(ATTRACT_VRAM_DST + 1, 0u8),
            final(final(self).ram)@ == final(old(self).ram)@,
    {
        self.ram[ATTRACT_VRAM_DST + 1] = 0;
    }
}

} // verus!
