use vstd::prelude::*;
use super::access;
use super::access::{byte, copy_bytes};
use super::addresses::{OVERWORLD_DECOMP_SCRATCH, OVERWORLD_MAP16_DECODE_SRC};

verus! {

pub struct OverworldMap16DecodeView<'a> {
    ram: &'a [u8],
}

impl<'a> OverworldMap16DecodeView<'a> {
    /// The bytes of RAM this view reads and writes.
    pub closed spec fn ram(&self) -> Seq<u8> {
        self.ram@
    }

    pub fn new(ram: &'a [u8]) -> (view: Self)
        ensures
            view.ram() == ram@,
    {
        Self { ram }
    }

    pub fn source_byte(&self, index: usize) -> (result: u8)
        requires
            OVERWORLD_MAP16_DECODE_SRC + index <= usize::MAX,
        ensures
            result == access::byte_at(self.ram(), OVERWORLD_MAP16_DECODE_SRC + index),
    {
        byte(self.ram, OVERWORLD_MAP16_DECODE_SRC + index)
    }
}

pub struct OverworldMap16DecodeViewMut<'a> {
    pub ram: &'a mut [u8],
}

impl<'a> OverworldMap16DecodeViewMut<'a> {
    /// The bytes of RAM this view reads and writes.
    pub open spec fn ram(&self) -> Seq<u8> {
        self.ram@
    }

    pub fn new(ram: &'a mut [u8]) -> (view: Self)
        ensures
            view.ram() == old(ram)@,
            final(view.ram)@ == final(ram)@,
    {
        Self { ram }
    }

    pub fn copy_source_from(&mut self, data: &[u8])
        requires
            OVERWORLD_MAP16_DECODE_SRC + data@.len() <= old(self).ram().len(),
        ensures
            final(self).ram() == access::copied(
                old(self).ram(),
                OVERWORLD_MAP16_DECODE_SRC as int,
                data@,
            ),
            final(final(self).ram)@ == final(old(self).ram)@,
    {
        proof {
            assert(self.ram@.len() == self.ram.len());
        }
        copy_bytes(self.ram, OVERWORLD_MAP16_DECODE_SRC, data);
    }

    pub fn copy_scratch_to_source_words_high(&mut self, len: usize)
        requires
            len > 0 ==> OVERWORLD_MAP16_DECODE_SRC + 1 + (len - 1) * 2 < old(self).ram().len(),
            len > 0 ==> OVERWORLD_DECOMP_SCRATCH + len - 1 < old(self).ram().len(),
        ensures
            final(self).ram() == access::strided_copy(
                old(self).ram(),
                OVERWORLD_MAP16_DECODE_SRC + 1,
                2,
                OVERWORLD_DECOMP_SCRATCH as int,
                len as nat,
            ),
            final(final(self).ram)@ == final(old(self).ram)@,
    {
        proof {
            assert(self.ram@.len() == self.ram.len());
        }
        for i in 0..len
            invariant
                final(self.ram)@ == final(old(self).ram)@,
                old(self).ram().len() <= usize::MAX,
                len > 0 ==> OVERWORLD_MAP16_DECODE_SRC + 1 + (len - 1) * 2 < old(self).ram().len(),
                len > 0 ==> OVERWORLD_DECOMP_SCRATCH + len - 1 < old(self).ram().len(),
                self.ram().len() == old(self).ram().len(),
                self.ram() == access::strided_copy(
                    old(self).ram(),
                    OVERWORLD_MAP16_DECODE_SRC + 1,
                    2,
                    OVERWORLD_DECOMP_SCRATCH as int,
                    i as nat,
                ),
        {
            self.ram[OVERWORLD_MAP16_DECODE_SRC + 1 + i * 2] = self.ram[OVERWORLD_DECOMP_SCRATCH + i];
        }
    }

    pub fn copy_scratch_to_source_words_low(&mut self, len: usize)
        requires
            len > 0 ==> OVERWORLD_MAP16_DECODE_SRC + (len - 1) * 2 < old(self).ram().len(),
            len > 0 ==> OVERWORLD_DECOMP_SCRATCH + len - 1 < old(self).ram().len(),
        ensures
            final(self).ram() == access::strided_copy(
                old(self).ram(),
                OVERWORLD_MAP16_DECODE_SRC as int,
                2,
                OVERWORLD_DECOMP_SCRATCH as int,
                len as nat,
            ),
            final(final(self).ram)@ == final(old(self).ram)@,
    {
        proof {
            assert(self.ram@.len() == self.ram.len());
        }
        for i in 0..len
            invariant
                final(self.ram)@ == final(old(self).ram)@,
                old(self).ram().len() <= usize::MAX,
                len > 0 ==> OVERWORLD_MAP16_DECODE_SRC + (len - 1) * 2 < old(self).ram().len(),
                len > 0 ==> OVERWORLD_DECOMP_SCRATCH + len - 1 < old(self).ram().len(),
                self.ram().len() == old(self).ram().len(),
                self.ram() == access::strided_copy(
                    old(self).ram(),
                    OVERWORLD_MAP16_DECODE_SRC as int,
                    2,
                    OVERWORLD_DECOMP_SCRATCH as int,
                    i as nat,
                ),
        {
            self.ram[OVERWORLD_MAP16_DECODE_SRC + i * 2] = self.ram[OVERWORLD_DECOMP_SCRATCH + i];
        }
    }
}

} // verus!
