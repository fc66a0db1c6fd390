use vstd::prelude::*;
use super::access;
use super::access::{byte, word};
use super::addresses::{VWF_ARR, VWF_GLYPH_CURSOR};
use crate::types;
use crate::types::{write_le_u16};

verus! {

pub struct VwfGlyphSpacingView<'a> {
    ram: &'a [u8],
}

impl<'a> VwfGlyphSpacingView<'a> {
    /// The bytes of RAM this view reads and writes.
    pub closed spec fn ram(&self) -> Seq<u8> {
        self.ram@
    }

    pub fn new(ram: &'a [u8]) -> (view: Self)
        ensures
            view.ram() == ram@,
    {
        Self { ram }
    }

    pub fn offset(&self, index: usize) -> (result: u8)
        requires
            VWF_ARR + index <= usize::MAX,
        ensures
            result == access::byte_at(self.ram(), VWF_ARR + index),
    {
        byte(self.ram, VWF_ARR + index)
    }

    pub fn cursor(&self) -> (result: u16)
        ensures
            result == access::word_at(self.ram(), VWF_GLYPH_CURSOR as int),
    {
        word(self.ram, VWF_GLYPH_CURSOR)
    }

    pub fn cursor_usize(&self) -> (result: usize)
        ensures
            result == (access::word_at(self.ram(), VWF_GLYPH_CURSOR as int) as usize),
    {
        self.cursor() as usize
    }
}

pub struct VwfGlyphSpacingViewMut<'a> {
    pub ram: &'a mut [u8],
}

impl<'a> VwfGlyphSpacingViewMut<'a> {
    /// The bytes of RAM this view reads and writes.
    pub open spec fn ram(&self) -> Seq<u8> {
        self.ram@
    }

    pub fn new(ram: &'a mut [u8]) -> (view: Self)
        ensures
            view.ram() == old(ram)@,
            final(view.ram)@ == final(ram)@,
    {
        Self { ram }
    }

    pub fn set_next_offset(&mut self, index: usize, value: u8)
        requires
            (VWF_ARR + index) + 1 < old(self).ram().len(),
        ensures
            final(self).ram() == old(self).ram().update((VWF_ARR + index) + 1, value),
            final(final(self).ram)@ == final(old(self).ram)@,
    {
        proof {
            assert(self.ram@.len() == self.ram.len());
        }
        self.ram[VWF_ARR + index + 1] = value;
    }

    pub fn set_cursor(&mut self, value: u16)
        requires
            VWF_GLYPH_CURSOR + 1 < old(self).ram().len(),
        ensures
            final(self).ram() == types::with_u16(old(self).ram(), VWF_GLYPH_CURSOR as int, value),
            final(final(self).ram)@ == final(old(self).ram)@,
    {
        write_le_u16(self.ram, VWF_GLYPH_CURSOR, value);
    }

    pub fn clear_cursor(&mut self)
        requires
            VWF_GLYPH_CURSOR + 1 < old(self).ram().len(),
        ensures
            final(self).ram() == types::with_u16(old(self).ram(), VWF_GLYPH_CURSOR as int, 0),
            final(final(self).ram)@ == final(old(self).ram)@,
    {
        self.set_cursor(0);
    }

    pub fn increment_cursor(&mut self) -> (result: u16)
        requires
            VWF_GLYPH_CURSOR + 1 < old(self).ram().len(),
        ensures
            result == access::word_at(old(self).ram(), VWF_GLYPH_CURSOR as int).wrapping_add(1),
            final(self).ram() == types::with_u16(
                old(self).ram(),
                VWF_GLYPH_CURSOR as int,
                access::word_at(old(self).ram(), VWF_GLYPH_CURSOR as int)
                    .wrapping_add(1),
            ),
            final(final(self).ram)@ == final(old(self).ram)@,
    {
        let value = word(self.ram, VWF_GLYPH_CURSOR).wrapping_add(1);
        self.set_cursor(value);
        value
    }
}

} // verus!
