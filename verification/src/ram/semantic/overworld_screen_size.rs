use vstd::prelude::*;
use super::access;
use super::access::{word};
use super::addresses::{
    OVERWORLD_AREA_IS_BIG, OVERWORLD_AREA_IS_BIG_BACKUP, OVERWORLD_RIGHT_BOTTOM_SCROLL_BOUND,
};

verus! {

pub struct OverworldScreenSizeView<'a> {
    ram: &'a [u8],
}

impl<'a> OverworldScreenSizeView<'a> {
    /// The bytes of RAM this view reads and writes.
    pub closed spec fn ram(&self) -> Seq<u8> {
        self.ram@
    }

    pub fn new(ram: &'a [u8]) -> (view: Self)
        ensures
            view.ram() == ram@,
    {
        Self { ram }
    }

    pub fn is_big_area_word(&self) -> (result: u16)
        ensures
            result == access::word_at(self.ram(), OVERWORLD_AREA_IS_BIG as int),
    {
        word(self.ram, OVERWORLD_AREA_IS_BIG)
    }

    pub fn right_bottom_bound_word(&self) -> (result: u16)
        ensures
            result == access::word_at(self.ram(), OVERWORLD_RIGHT_BOTTOM_SCROLL_BOUND as int),
    {
        word(self.ram, OVERWORLD_RIGHT_BOTTOM_SCROLL_BOUND)
    }
}

pub struct OverworldScreenSizeViewMut<'a> {
    pub ram: &'a mut [u8],
}

impl<'a> OverworldScreenSizeViewMut<'a> {
    /// The bytes of RAM this view reads and writes.
    pub open spec fn ram(&self) -> Seq<u8> {
        self.ram@
    }

    pub fn new(ram: &'a mut [u8]) -> (view: Self)
        ensures
            view.ram() == old(ram)@,
            final(view.ram)@ == final(ram)@,
    {
        Self { ram }
    }

    pub fn clear_big_area_high(&mut self)
        requires
            OVERWORLD_AREA_IS_BIG + 1 < old(self).ram().len(),
        ensures
            final(self).ram() == old(self).ram().update(OVERWORLD_AREA_IS_BIG + 1, 0u8),
            final(final(self).ram)@ == final(old(self).ram)@,
    {
        self.ram[OVERWORLD_AREA_IS_BIG + 1] = 0;
    }

    pub fn set_big_area_low(&mut self, value: u8)
        requires
            OVERWORLD_AREA_IS_BIG < old(self).ram().len(),
        ensures
            final(self).ram() == old(self).ram().update(OVERWORLD_AREA_IS_BIG as int, value),
            final(final(self).ram)@ == final(old(self).ram)@,
    {
        self.ram[OVERWORLD_AREA_IS_BIG] = value;
    }

    pub fn backup_big_area_low(&mut self)
        requires
            OVERWORLD_AREA_IS_BIG_BACKUP < old(self).ram().len(),
            OVERWORLD_AREA_IS_BIG < old(self).ram().len(),
        ensures
            final(self).ram() == old(self).ram().update(
                OVERWORLD_AREA_IS_BIG_BACKUP as int,
                old(self).ram()[OVERWORLD_AREA_IS_BIG as int],
            ),
            final(final(self).ram)@ == final(old(self).ram)@,
    {
        self.ram[OVERWORLD_AREA_IS_BIG_BACKUP] = self.ram[OVERWORLD_AREA_IS_BIG];
    }

    pub fn set_right_bottom_bound_low(&mut self, value: u8)
        requires
            OVERWORLD_RIGHT_BOTTOM_SCROLL_BOUND < old(self).ram().len(),
        ensures
            final(self).ram() == old(self).ram().update(
                OVERWORLD_RIGHT_BOTTOM_SCROLL_BOUND as int,
                value,
            ),
            final(final(self).ram)@ == final(old(self).ram)@,
    {
        self.ram[OVERWORLD_RIGHT_BOTTOM_SCROLL_BOUND] = value;
    }

    pub fn set_right_bottom_bound_high(&mut self, value: u8)
        requires
            OVERWORLD_RIGHT_BOTTOM_SCROLL_BOUND + 1 < old(self).ram().len(),
        ensures
            final(self).ram() == old(self).ram().update(
                OVERWORLD_RIGHT_BOTTOM_SCROLL_BOUND + 1,
                value,
            ),
            final(final(self).ram)@ == final(old(self).ram)@,
    {
        self.ram[OVERWORLD_RIGHT_BOTTOM_SCROLL_BOUND + 1] = value;
    }
}

} // verus!
