use vstd::prelude::*;
use super::access;
use super::access::{byte};
use super::addresses::{TEMP_COUNTER};

verus! {

pub struct TempCounterView<'a> {
    ram: &'a [u8],
}

impl<'a> TempCounterView<'a> {
    /// The bytes of RAM this view reads and writes.
    pub closed spec fn ram(&self) -> Seq<u8> {
        self.ram@
    }

    pub fn new(ram: &'a [u8]) -> (view: Self)
        ensures
            view.ram() == ram@,
    {
        Self { ram }
    }

    pub fn value(&self) -> (result: u8)
        ensures
            result == access::byte_at(self.ram(), TEMP_COUNTER as int),
    {
        byte(self.ram, TEMP_COUNTER)
    }

    pub fn as_usize(&self) -> (result: usize)
        ensures
            result == (access::byte_at(self.ram(), TEMP_COUNTER as int) as usize),
    {
        self.value() as usize
    }

    pub fn is_negative(&self) -> (result: bool)
        ensures
            result == ((access::byte_at(self.ram(), TEMP_COUNTER as int) as i8) < 0),
    {
        (self.value() as i8) < 0
    }
}

pub struct TempCounterViewMut<'a> {
    pub ram: &'a mut [u8],
}

impl<'a> TempCounterViewMut<'a> {
    /// The bytes of RAM this view reads and writes.
    pub open spec fn ram(&self) -> Seq<u8> {
        self.ram@
    }

    pub fn new(ram: &'a mut [u8]) -> (view: Self)
        ensures
            view.ram() == old(ram)@,
            final(view.ram)@ == final(ram)@,
    {
        Self { ram }
    }

    pub fn set(&mut self, value: u8)
        requires
            TEMP_COUNTER < old(self).ram().len(),
        ensures
            final(self).ram() == old(self).ram().update(TEMP_COUNTER as int, value),
            final(final(self).ram)@ == final(old(self).ram)@,
    {
        self.ram[TEMP_COUNTER] = value;
    }

    pub fn decrement(&mut self) -> (result: u8)
        requires
            TEMP_COUNTER < old(self).ram().len(),
        ensures
            result == old(self).ram()[TEMP_COUNTER as int].wrapping_sub(1),
            final(self).ram() == old(self).ram().update(
                TEMP_COUNTER as int,
                old(self).ram()[TEMP_COUNTER as int].wrapping_sub(1),
            ),
            final(final(self).ram)@ == final(old(self).ram)@,
    {
        let next = self.ram[TEMP_COUNTER].wrapping_sub(1);
        self.ram[TEMP_COUNTER] = next;
        next
    }
}

} // verus!
