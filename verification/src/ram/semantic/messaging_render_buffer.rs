use vstd::prelude::*;
use super::addresses::{MESSAGING_RENDER_BUFFER};

verus! {

pub struct MessagingRenderBufferViewMut<'a> {
    pub ram: &'a mut [u8],
}

impl<'a> MessagingRenderBufferViewMut<'a> {
    /// The bytes of RAM this view reads and writes.
    pub open spec fn ram(&self) -> Seq<u8> {
        self.ram@
    }

    pub fn new(ram: &'a mut [u8]) -> (view: Self)
        ensures
            view.ram() == old(ram)@,
            final(view.ram)@ == final(ram)@,
    {
        Self { ram }
    }

    pub fn xor_mask(&mut self, offset: usize, mask: u8)
        requires
            MESSAGING_RENDER_BUFFER + offset < old(self).ram().len(),
        ensures
            final(self).ram() == old(self).ram().update(
                MESSAGING_RENDER_BUFFER + offset,
                old(self).ram()[MESSAGING_RENDER_BUFFER + offset] ^ mask,
            ),
            final(final(self).ram)@ == final(old(self).ram)@,
    {
        proof {
            assert(self.ram@.len() == self.ram.len());
        }
        self.ram[MESSAGING_RENDER_BUFFER + offset] ^= mask;
    }

    pub fn clear_mask(&mut self, offset: usize, mask: u8)
        requires
            MESSAGING_RENDER_BUFFER + offset < old(self).ram().len(),
        ensures
            final(self).ram() == old(self).ram().update(
                MESSAGING_RENDER_BUFFER + offset,
                old(self).ram()[MESSAGING_RENDER_BUFFER + offset] & (!mask),
            ),
            final(final(self).ram)@ == final(old(self).ram)@,
    {
        proof {
            assert(self.ram@.len() == self.ram.len());
        }
        self.ram[MESSAGING_RENDER_BUFFER + offset] &= !mask;
    }
}

} // verus!
