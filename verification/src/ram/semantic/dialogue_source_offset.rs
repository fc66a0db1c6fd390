use vstd::prelude::*;
use super::addresses::{DIALOGUE_MSG_SRC_OFFS};

verus! {

pub struct DialogueSourceOffsetViewMut<'a> {
    pub ram: &'a mut [u8],
}

impl<'a> DialogueSourceOffsetViewMut<'a> {
    /// The bytes of RAM this view reads and writes.
    pub open spec fn ram(&self) -> Seq<u8> {
        self.ram@
    }

    pub fn new(ram: &'a mut [u8]) -> (view: Self)
        ensures
            view.ram() == old(ram)@,
            final(view.ram)@ == final(ram)@,
    {
        Self { ram }
    }

    pub fn increment_bank_offset_low_nibble(&mut self) -> (result: u8)
        requires
            DIALOGUE_MSG_SRC_OFFS + 2 < old(self).ram().len(),
        ensures
            result == old(self).ram()[DIALOGUE_MSG_SRC_OFFS + 2].wrapping_add(1),
            final(self).ram() == old(self).ram().update(
                DIALOGUE_MSG_SRC_OFFS + 2,
                old(self).ram()[DIALOGUE_MSG_SRC_OFFS + 2].wrapping_add(1),
            ),
            final(final(self).ram)@ == final(old(self).ram)@,
    {
        let next = self.ram[DIALOGUE_MSG_SRC_OFFS + 2].wrapping_add(1);
        self.ram[DIALOGUE_MSG_SRC_OFFS + 2] = next;
        next
    }
}

} // verus!
