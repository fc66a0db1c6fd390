use vstd::prelude::*;
use super::access;
use super::access::{word};
use super::addresses::{SHARED_MESSAGE_TIMER};
use crate::types;
use crate::types::{write_le_u16};

verus! {

pub struct SharedMessageTimerView<'a> {
    ram: &'a [u8],
}

impl<'a> SharedMessageTimerView<'a> {
    /// The bytes of RAM this view reads and writes.
    pub closed spec fn ram(&self) -> Seq<u8> {
        self.ram@
    }

    pub fn new(ram: &'a [u8]) -> (view: Self)
        ensures
            view.ram() == ram@,
    {
        Self { ram }
    }

    pub fn get(&self) -> (result: u16)
        ensures
            result == access::word_at(self.ram(), SHARED_MESSAGE_TIMER as int),
    {
        word(self.ram, SHARED_MESSAGE_TIMER)
    }
}

pub struct SharedMessageTimerViewMut<'a> {
    pub ram: &'a mut [u8],
}

impl<'a> SharedMessageTimerViewMut<'a> {
    /// The bytes of RAM this view reads and writes.
    pub open spec fn ram(&self) -> Seq<u8> {
        self.ram@
    }

    pub fn new(ram: &'a mut [u8]) -> (view: Self)
        ensures
            view.ram() == old(ram)@,
            final(view.ram)@ == final(ram)@,
    {
        Self { ram }
    }

    pub fn set(&mut self, value: u16)
        requires
            SHARED_MESSAGE_TIMER + 1 < old(self).ram().len(),
        ensures
            final(self).ram() == types::with_u16(
                old(self).ram(),
                SHARED_MESSAGE_TIMER as int,
                value,
            ),
            final(final(self).ram)@ == final(old(self).ram)@,
    {
        write_le_u16(self.ram, SHARED_MESSAGE_TIMER, value);
    }
}

} // verus!
