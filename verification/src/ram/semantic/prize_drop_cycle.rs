use vstd::prelude::*;
use super::access;
use super::access::{byte};
use super::addresses::{PRIZE_DROP_CYCLE};

verus! {

pub struct PrizeDropCycleViewMut<'a> {
    pub ram: &'a mut [u8],
}

impl<'a> PrizeDropCycleViewMut<'a> {
    /// The bytes of RAM this view reads and writes.
    pub open spec fn ram(&self) -> Seq<u8> {
        self.ram@
    }

    pub fn new(ram: &'a mut [u8]) -> (view: Self)
        ensures
            view.ram() == old(ram)@,
            final(view.ram)@ == final(ram)@,
    {
        Self { ram }
    }

    pub fn take_next_index(&mut self, slot: usize) -> (result: u8)
        requires
            PRIZE_DROP_CYCLE + slot < old(self).ram().len(),
        ensures
            result == access::byte_at(old(self).ram(), PRIZE_DROP_CYCLE + slot),
            final(self).ram() == old(self).ram().update(
                PRIZE_DROP_CYCLE + slot,
                access::byte_at(old(self).ram(), PRIZE_DROP_CYCLE + slot).wrapping_add(1) & 7u8,
            ),
            final(final(self).ram)@ == final(old(self).ram)@,
    {
        proof {
            assert(self.ram@.len() == self.ram.len());
        }
        let index = byte(self.ram, PRIZE_DROP_CYCLE + slot);
        self.ram[PRIZE_DROP_CYCLE + slot] = index.wrapping_add(1) & 7;
        index
    }
}

} // verus!
