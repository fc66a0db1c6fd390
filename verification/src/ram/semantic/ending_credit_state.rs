use vstd::prelude::*;
use super::access;
use super::access::{word};
use super::addresses::{ENDING_CREDIT_DIGIT_CHAR, ENDING_WHICH_DUNG};
use crate::types;
use crate::types::{write_le_u16};

verus! {

pub struct EndingCreditStateView<'a> {
    ram: &'a [u8],
}

impl<'a> EndingCreditStateView<'a> {
    /// The bytes of RAM this view reads and writes.
    pub closed spec fn ram(&self) -> Seq<u8> {
        self.ram@
    }

    pub fn new(ram: &'a [u8]) -> (view: Self)
        ensures
            view.ram() == ram@,
    {
        Self { ram }
    }

    pub fn which_dung(&self) -> (result: u16)
        ensures
            result == access::word_at(self.ram(), ENDING_WHICH_DUNG as int),
    {
        word(self.ram, ENDING_WHICH_DUNG)
    }
}

pub struct EndingCreditStateViewMut<'a> {
    pub ram: &'a mut [u8],
}

impl<'a> EndingCreditStateViewMut<'a> {
    /// The bytes of RAM this view reads and writes.
    pub open spec fn ram(&self) -> Seq<u8> {
        self.ram@
    }

    pub fn new(ram: &'a mut [u8]) -> (view: Self)
        ensures
            view.ram() == old(ram)@,
            final(view.ram)@ == final(ram)@,
    {
        Self { ram }
    }

    pub fn set_which_dung(&mut self, value: u16)
        requires
            ENDING_WHICH_DUNG + 1 < old(self).ram().len(),
        ensures
            final(self).ram() == types::with_u16(old(self).ram(), ENDING_WHICH_DUNG as int, value),
            final(final(self).ram)@ == final(old(self).ram)@,
    {
        write_le_u16(self.ram, ENDING_WHICH_DUNG, value);
    }

    pub fn clear_which_dung(&mut self)
        requires
            ENDING_WHICH_DUNG + 1 < old(self).ram().len(),
        ensures
            final(self).ram() == types::with_u16(old(self).ram(), ENDING_WHICH_DUNG as int, 0u16),
            final(final(self).ram)@ == final(old(self).ram)@,
    {
        write_le_u16(self.ram, ENDING_WHICH_DUNG, 0);
    }

    pub fn set_credit_digit_char(&mut self, value: u16)
        requires
            ENDING_CREDIT_DIGIT_CHAR + 1 < old(self).ram().len(),
        ensures
            final(self).ram() == types::with_u16(
                old(self).ram(),
                ENDING_CREDIT_DIGIT_CHAR as int,
                value,
            ),
            final(final(self).ram)@ == final(old(self).ram)@,
    {
        write_le_u16(self.ram, ENDING_CREDIT_DIGIT_CHAR, value);
    }
}

} // verus!
