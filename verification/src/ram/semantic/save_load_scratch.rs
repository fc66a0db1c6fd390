use vstd::prelude::*;
use super::access;
use super::access::{word};
use super::addresses::{SAVE_LOAD_SOURCE_OFFSET};
use crate::types;
use crate::types::{write_le_u16};

verus! {

pub struct SaveLoadScratchView<'a> {
    ram: &'a [u8],
}

impl<'a> SaveLoadScratchView<'a> {
    /// The bytes of RAM this view reads and writes.
    pub closed spec fn ram(&self) -> Seq<u8> {
        self.ram@
    }

    pub fn new(ram: &'a [u8]) -> (view: Self)
        ensures
            view.ram() == ram@,
    {
        Self { ram }
    }

    pub fn source_offset(&self) -> (result: u16)
        ensures
            result == access::word_at(self.ram(), SAVE_LOAD_SOURCE_OFFSET as int),
    {
        word(self.ram, SAVE_LOAD_SOURCE_OFFSET)
    }

    pub fn source_offset_usize(&self) -> (result: usize)
        ensures
            result == (access::word_at(self.ram(), SAVE_LOAD_SOURCE_OFFSET as int) as usize),
    {
        self.source_offset() as usize
    }
}

pub struct SaveLoadScratchViewMut<'a> {
    pub ram: &'a mut [u8],
}

impl<'a> SaveLoadScratchViewMut<'a> {
    /// The bytes of RAM this view reads and writes.
    pub open spec fn ram(&self) -> Seq<u8> {
        self.ram@
    }

    pub fn new(ram: &'a mut [u8]) -> (view: Self)
        ensures
            view.ram() == old(ram)@,
            final(view.ram)@ == final(ram)@,
    {
        Self { ram }
    }

    pub fn set_source_offset(&mut self, value: u16)
        requires
            SAVE_LOAD_SOURCE_OFFSET + 1 < old(self).ram().len(),
        ensures
            final(self).ram() == types::with_u16(
                old(self).ram(),
                SAVE_LOAD_SOURCE_OFFSET as int,
                value,
            ),
            final(final(self).ram)@ == final(old(self).ram)@,
    {
        write_le_u16(self.ram, SAVE_LOAD_SOURCE_OFFSET, value);
    }
}

} // verus!
