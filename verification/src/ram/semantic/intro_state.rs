use vstd::prelude::*;
use super::access;
use super::access::{byte, word};
use super::addresses::{INTRO_SPRITE_ALLOC, INTRO_WANT_DOUBLE_RET, TRIFORCE_CTR};
use crate::types;
use crate::types::{read_le_u16, write_le_u16};

verus! {

pub struct IntroStateView<'a> {
    ram: &'a [u8],
}

impl<'a> IntroStateView<'a> {
    /// The bytes of RAM this view reads and writes.
    pub closed spec fn ram(&self) -> Seq<u8> {
        self.ram@
    }

    pub fn new(ram: &'a [u8]) -> (view: Self)
        ensures
            view.ram() == ram@,
    {
        Self { ram }
    }

    pub fn want_double_ret(&self) -> (result: u8)
        ensures
            result == access::byte_at(self.ram(), INTRO_WANT_DOUBLE_RET as int),
    {
        byte(self.ram, INTRO_WANT_DOUBLE_RET)
    }

    pub fn sprite_alloc(&self) -> (result: u16)
        ensures
            result == access::word_at(self.ram(), INTRO_SPRITE_ALLOC as int),
    {
        word(self.ram, INTRO_SPRITE_ALLOC)
    }

    pub fn triforce_ctr(&self) -> (result: u16)
        ensures
            result == access::word_at(self.ram(), TRIFORCE_CTR as int),
    {
        word(self.ram, TRIFORCE_CTR)
    }
}

pub struct IntroStateViewMut<'a> {
    pub ram: &'a mut [u8],
}

impl<'a> IntroStateViewMut<'a> {
    /// The bytes of RAM this view reads and writes.
    pub open spec fn ram(&self) -> Seq<u8> {
        self.ram@
    }

    pub fn new(ram: &'a mut [u8]) -> (view: Self)
        ensures
            view.ram() == old(ram)@,
            final(view.ram)@ == final(ram)@,
    {
        Self { ram }
    }

    pub fn set_want_double_ret(&mut self, value: u8)
        requires
            INTRO_WANT_DOUBLE_RET < old(self).ram().len(),
        ensures
            final(self).ram() == old(self).ram().update(INTRO_WANT_DOUBLE_RET as int, value),
            final(final(self).ram)@ == final(old(self).ram)@,
    {
        self.ram[INTRO_WANT_DOUBLE_RET] = value;
    }

    pub fn set_sprite_alloc(&mut self, value: u16)
        requires
            INTRO_SPRITE_ALLOC + 1 < old(self).ram().len(),
        ensures
            final(self).ram() == types::with_u16(old(self).ram(), INTRO_SPRITE_ALLOC as int, value),
            final(final(self).ram)@ == final(old(self).ram)@,
    {
        write_le_u16(self.ram, INTRO_SPRITE_ALLOC, value);
    }

    pub fn set_triforce_ctr(&mut self, value: u16)
        requires
            TRIFORCE_CTR + 1 < old(self).ram().len(),
        ensures
            final(self).ram() == types::with_u16(old(self).ram(), TRIFORCE_CTR as int, value),
            final(final(self).ram)@ == final(old(self).ram)@,
    {
        write_le_u16(self.ram, TRIFORCE_CTR, value);
    }

    pub fn decrement_triforce_ctr(&mut self)
        requires
            TRIFORCE_CTR + 1 < old(self).ram().len(),
        ensures
            final(self).ram() == types::with_u16(
                old(self).ram(),
                TRIFORCE_CTR as int,
                types::u16_at(old(self).ram(), TRIFORCE_CTR as int)
                    .wrapping_sub(1),
            ),
            final(final(self).ram)@ == final(old(self).ram)@,
    {
        let v = read_le_u16(self.ram, TRIFORCE_CTR).wrapping_sub(1);
        write_le_u16(self.ram, TRIFORCE_CTR, v);
    }
}

} // verus!
