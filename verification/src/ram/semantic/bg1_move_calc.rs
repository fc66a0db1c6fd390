use vstd::prelude::*;
use super::access;
use super::access::{byte};
use super::addresses::{BG1_MOVE_CALC_BUFFER};

verus! {

pub struct Bg1MoveCalcView<'a> {
    ram: &'a [u8],
}

impl<'a> Bg1MoveCalcView<'a> {
    /// The bytes of RAM this view reads and writes.
    pub closed spec fn ram(&self) -> Seq<u8> {
        self.ram@
    }

    pub fn new(ram: &'a [u8]) -> (view: Self)
        ensures
            view.ram() == ram@,
    {
        Self { ram }
    }

    pub fn x_subpixel(&self) -> (result: u8)
        ensures
            result == access::byte_at(self.ram(), BG1_MOVE_CALC_BUFFER + 1),
    {
        byte(self.ram, BG1_MOVE_CALC_BUFFER + 1)
    }
}

pub struct Bg1MoveCalcViewMut<'a> {
    pub ram: &'a mut [u8],
}

impl<'a> Bg1MoveCalcViewMut<'a> {
    /// The bytes of RAM this view reads and writes.
    pub open spec fn ram(&self) -> Seq<u8> {
        self.ram@
    }

    pub fn new(ram: &'a mut [u8]) -> (view: Self)
        ensures
            view.ram() == old(ram)@,
            final(view.ram)@ == final(ram)@,
    {
        Self { ram }
    }

    pub fn set_x_subpixel(&mut self, value: u8)
        requires
            BG1_MOVE_CALC_BUFFER + 1 < old(self).ram().len(),
        ensures
            final(self).ram() == old(self).ram().update(BG1_MOVE_CALC_BUFFER + 1, value),
            final(final(self).ram)@ == final(old(self).ram)@,
    {
        self.ram[BG1_MOVE_CALC_BUFFER + 1] = value;
    }

    pub fn advance_x_subpixel(&mut self, delta: u16) -> (result: u16)
        requires
            BG1_MOVE_CALC_BUFFER + 1 < old(self).ram().len(),
        ensures
            result == (old(self).ram()[BG1_MOVE_CALC_BUFFER + 1] as u16).wrapping_add(delta),
            final(self).ram() == old(self).ram().update(
                BG1_MOVE_CALC_BUFFER + 1,
                (old(self).ram()[BG1_MOVE_CALC_BUFFER + 1] as u16).wrapping_add(delta) as u8,
            ),
            final(final(self).ram)@ == final(old(self).ram)@,
    {
        let next = (self.ram[BG1_MOVE_CALC_BUFFER + 1] as u16).wrapping_add(delta);
        self.set_x_subpixel(next as u8);
        next
    }
}

} // verus!
