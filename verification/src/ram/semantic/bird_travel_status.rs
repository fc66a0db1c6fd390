use vstd::prelude::*;
use super::addresses::{BIRD_TRAVEL_STATUS};

verus! {

pub struct BirdTravelStatusViewMut<'a> {
    pub ram: &'a mut [u8],
}

impl<'a> BirdTravelStatusViewMut<'a> {
    /// The bytes of RAM this view reads and writes.
    pub open spec fn ram(&self) -> Seq<u8> {
        self.ram@
    }

    pub fn new(ram: &'a mut [u8]) -> (view: Self)
        ensures
            view.ram() == old(ram)@,
            final(view.ram)@ == final(ram)@,
    {
        Self { ram }
    }

    pub fn clear(&mut self, slot: usize)
        requires
            BIRD_TRAVEL_STATUS + slot < old(self).ram().len(),
        ensures
            final(self).ram() == old(self).ram().update(BIRD_TRAVEL_STATUS + slot, 0u8),
            final(final(self).ram)@ == final(old(self).ram)@,
    {
        proof {
            assert(self.ram@.len() == self.ram.len());
        }
        self.ram[BIRD_TRAVEL_STATUS + slot] = 0;
    }

    pub fn increment(&mut self, slot: usize)
        requires
            BIRD_TRAVEL_STATUS + slot < old(self).ram().len(),
        ensures
            final(self).ram() == old(self).ram().update(
                BIRD_TRAVEL_STATUS + slot,
                old(self).ram()[BIRD_TRAVEL_STATUS + slot].wrapping_add(1),
            ),
            final(final(self).ram)@ == final(old(self).ram)@,
    {
        proof {
            assert(self.ram@.len() == self.ram.len());
        }
        self.ram[BIRD_TRAVEL_STATUS + slot] = self.ram[BIRD_TRAVEL_STATUS + slot].wrapping_add(1);
    }
}

} // verus!
