use vstd::prelude::*;
use super::access;
use super::access::{byte, word};
use super::addresses::{MULTISELECT_CHOICE, MULTISELECT_CHOICE_BACKUP};

verus! {

pub struct MultiselectChoiceView<'a> {
    ram: &'a [u8],
}

impl<'a> MultiselectChoiceView<'a> {
    /// The bytes of RAM this view reads and writes.
    pub closed spec fn ram(&self) -> Seq<u8> {
        self.ram@
    }

    pub fn new(ram: &'a [u8]) -> (view: Self)
        ensures
            view.ram() == ram@,
    {
        Self { ram }
    }

    pub fn value(&self) -> (result: u8)
        ensures
            result == access::byte_at(self.ram(), MULTISELECT_CHOICE as int),
    {
        byte(self.ram, MULTISELECT_CHOICE)
    }

    pub fn value_word(&self) -> (result: u16)
        ensures
            result == access::word_at(self.ram(), MULTISELECT_CHOICE as int),
    {
        word(self.ram, MULTISELECT_CHOICE)
    }

    pub fn backup(&self) -> (result: u8)
        ensures
            result == access::byte_at(self.ram(), MULTISELECT_CHOICE_BACKUP as int),
    {
        byte(self.ram, MULTISELECT_CHOICE_BACKUP)
    }
}

pub struct MultiselectChoiceViewMut<'a> {
    pub ram: &'a mut [u8],
}

impl<'a> MultiselectChoiceViewMut<'a> {
    /// The bytes of RAM this view reads and writes.
    pub open spec fn ram(&self) -> Seq<u8> {
        self.ram@
    }

    pub fn new(ram: &'a mut [u8]) -> (view: Self)
        ensures
            view.ram() == old(ram)@,
            final(view.ram)@ == final(ram)@,
    {
        Self { ram }
    }

    pub fn set_value(&mut self, value: u8)
        requires
            MULTISELECT_CHOICE < old(self).ram().len(),
        ensures
            final(self).ram() == old(self).ram().update(MULTISELECT_CHOICE as int, value),
            final(final(self).ram)@ == final(old(self).ram)@,
    {
        self.ram[MULTISELECT_CHOICE] = value;
    }

    pub fn increment_value(&mut self)
        requires
            MULTISELECT_CHOICE < old(self).ram().len(),
        ensures
            final(self).ram() == old(self).ram().update(
                MULTISELECT_CHOICE as int,
                old(self).ram()[MULTISELECT_CHOICE as int].wrapping_add(1),
            ),
            final(final(self).ram)@ == final(old(self).ram)@,
    {
        self.ram[MULTISELECT_CHOICE] = self.ram[MULTISELECT_CHOICE].wrapping_add(1);
    }

    pub fn decrement_value(&mut self)
        requires
            MULTISELECT_CHOICE < old(self).ram().len(),
        ensures
            final(self).ram() == old(self).ram().update(
                MULTISELECT_CHOICE as int,
                old(self).ram()[MULTISELECT_CHOICE as int].wrapping_sub(1),
            ),
            final(final(self).ram)@ == final(old(self).ram)@,
    {
        self.ram[MULTISELECT_CHOICE] = self.ram[MULTISELECT_CHOICE].wrapping_sub(1);
    }

    pub fn restore_backup(&mut self)
        requires
            MULTISELECT_CHOICE < old(self).ram().len(),
            MULTISELECT_CHOICE_BACKUP < old(self).ram().len(),
        ensures
            final(self).ram() == old(self).ram().update(
                MULTISELECT_CHOICE as int,
                old(self).ram()[MULTISELECT_CHOICE_BACKUP as int],
            ),
            final(final(self).ram)@ == final(old(self).ram)@,
    {
        self.ram[MULTISELECT_CHOICE] = self.ram[MULTISELECT_CHOICE_BACKUP];
    }

    pub fn save_backup(&mut self)
        requires
            MULTISELECT_CHOICE_BACKUP < old(self).ram().len(),
            MULTISELECT_CHOICE < old(self).ram().len(),
        ensures
            final(self).ram() == old(self).ram().update(
                MULTISELECT_CHOICE_BACKUP as int,
                old(self).ram()[MULTISELECT_CHOICE as int],
            ),
            final(final(self).ram)@ == final(old(self).ram)@,
    {
        self.ram[MULTISELECT_CHOICE_BACKUP] = self.ram[MULTISELECT_CHOICE];
    }
}

} // verus!
