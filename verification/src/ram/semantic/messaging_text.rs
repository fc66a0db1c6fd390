use vstd::prelude::*;
use super::access;
use super::access::{byte};
use super::addresses::{MESSAGING_TEXT_BUFFER};

verus! {

pub struct MessagingTextView<'a> {
    ram: &'a [u8],
}

impl<'a> MessagingTextView<'a> {
    /// The bytes of RAM this view reads and writes.
    pub closed spec fn ram(&self) -> Seq<u8> {
        self.ram@
    }

    pub fn new(ram: &'a [u8]) -> (view: Self)
        ensures
            view.ram() == ram@,
    {
        Self { ram }
    }

    pub fn byte(&self, offset: usize) -> (result: u8)
        requires
            MESSAGING_TEXT_BUFFER + offset <= usize::MAX,
        ensures
            result == access::byte_at(self.ram(), MESSAGING_TEXT_BUFFER + offset),
    {
        byte(self.ram, MESSAGING_TEXT_BUFFER + offset)
    }

    pub fn next_byte(&self, offset: usize) -> (result: Option<u8>)
        requires
            MESSAGING_TEXT_BUFFER + offset + 1 <= usize::MAX,
        ensures
            result == (if MESSAGING_TEXT_BUFFER + offset + 1 < self.ram().len() {
                Some(self.ram()[MESSAGING_TEXT_BUFFER + offset + 1])
            } else {
                None
            }),
    {
        let index = MESSAGING_TEXT_BUFFER + offset + 1;
        if index < self.ram.len() {
            Some(self.ram[index])
        } else {
            None
        }
    }
}

} // verus!
