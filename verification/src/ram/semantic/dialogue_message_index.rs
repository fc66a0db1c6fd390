use vstd::prelude::*;
use super::access;
use super::access::{word};
use super::addresses::{DIALOGUE_MESSAGE_INDEX};
use crate::types;
use crate::types::{write_le_u16};

verus! {

pub struct DialogueMessageIndexView<'a> {
    ram: &'a [u8],
}

impl<'a> DialogueMessageIndexView<'a> {
    /// The bytes of RAM this view reads and writes.
    pub closed spec fn ram(&self) -> Seq<u8> {
        self.ram@
    }

    pub fn new(ram: &'a [u8]) -> (view: Self)
        ensures
            view.ram() == ram@,
    {
        Self { ram }
    }

    pub fn value(&self) -> (result: u16)
        ensures
            result == access::word_at(self.ram(), DIALOGUE_MESSAGE_INDEX as int),
    {
        word(self.ram, DIALOGUE_MESSAGE_INDEX)
    }
}

pub struct DialogueMessageIndexViewMut<'a> {
    pub ram: &'a mut [u8],
}

impl<'a> DialogueMessageIndexViewMut<'a> {
    /// The bytes of RAM this view reads and writes.
    pub open spec fn ram(&self) -> Seq<u8> {
        self.ram@
    }

    pub fn new(ram: &'a mut [u8]) -> (view: Self)
        ensures
            view.ram() == old(ram)@,
            final(view.ram)@ == final(ram)@,
    {
        Self { ram }
    }

    pub fn set_value(&mut self, value: u16)
        requires
            DIALOGUE_MESSAGE_INDEX + 1 < old(self).ram().len(),
        ensures
            final(self).ram() == types::with_u16(
                old(self).ram(),
                DIALOGUE_MESSAGE_INDEX as int,
                value,
            ),
            final(final(self).ram)@ == final(old(self).ram)@,
    {
        write_le_u16(self.ram, DIALOGUE_MESSAGE_INDEX, value);
    }
}

} // verus!
