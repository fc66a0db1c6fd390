use vstd::prelude::*;
use super::access;
use super::access::{byte};
use super::addresses::{
    SKULL_WOODS_FIRE_INNER_X, SKULL_WOODS_FIRE_INNER_Y, SKULL_WOODS_FIRE_OUTER_X,
    SKULL_WOODS_FIRE_OUTER_Y, SKULL_WOODS_FIRE_STARTED,
};
use crate::types;
use crate::types::{read_le_u16, write_le_u16};

verus! {

pub struct SkullWoodsFireScratchView<'a> {
    ram: &'a [u8],
}

impl<'a> SkullWoodsFireScratchView<'a> {
    /// The bytes of RAM this view reads and writes.
    pub closed spec fn ram(&self) -> Seq<u8> {
        self.ram@
    }

    pub fn new(ram: &'a [u8]) -> (view: Self)
        ensures
            view.ram() == ram@,
    {
        Self { ram }
    }

    pub fn has_started_entrance_opening(&self) -> (result: bool)
        ensures
            result == (access::byte_at(self.ram(), SKULL_WOODS_FIRE_STARTED as int) != 0),
    {
        byte(self.ram, SKULL_WOODS_FIRE_STARTED) != 0
    }

    pub fn inner_x(&self) -> (result: u16)
        requires
            SKULL_WOODS_FIRE_INNER_X + 1 < self.ram().len(),
        ensures
            result == types::u16_at(self.ram(), SKULL_WOODS_FIRE_INNER_X as int),
    {
        read_le_u16(self.ram, SKULL_WOODS_FIRE_INNER_X)
    }

    pub fn inner_y(&self) -> (result: u16)
        requires
            SKULL_WOODS_FIRE_INNER_Y + 1 < self.ram().len(),
        ensures
            result == types::u16_at(self.ram(), SKULL_WOODS_FIRE_INNER_Y as int),
    {
        read_le_u16(self.ram, SKULL_WOODS_FIRE_INNER_Y)
    }
}

pub struct SkullWoodsFireScratchViewMut<'a> {
    pub ram: &'a mut [u8],
}

impl<'a> SkullWoodsFireScratchViewMut<'a> {
    /// The bytes of RAM this view reads and writes.
    pub open spec fn ram(&self) -> Seq<u8> {
        self.ram@
    }

    pub fn new(ram: &'a mut [u8]) -> (view: Self)
        ensures
            view.ram() == old(ram)@,
            final(view.ram)@ == final(ram)@,
    {
        Self { ram }
    }

    pub fn clear_entrance_opening_started(&mut self)
        requires
            SKULL_WOODS_FIRE_STARTED < old(self).ram().len(),
        ensures
            final(self).ram() == old(self).ram().update(SKULL_WOODS_FIRE_STARTED as int, 0u8),
            final(final(self).ram)@ == final(old(self).ram)@,
    {
        self.ram[SKULL_WOODS_FIRE_STARTED] = 0;
    }

    pub fn set_entrance_opening_started(&mut self)
        requires
            SKULL_WOODS_FIRE_STARTED < old(self).ram().len(),
        ensures
            final(self).ram() == old(self).ram().update(SKULL_WOODS_FIRE_STARTED as int, 1u8),
            final(final(self).ram)@ == final(old(self).ram)@,
    {
        self.ram[SKULL_WOODS_FIRE_STARTED] = 1;
    }

    pub fn set_inner_position(&mut self, x: u16, y: u16)
        requires
            SKULL_WOODS_FIRE_INNER_X + 1 < old(self).ram().len(),
            SKULL_WOODS_FIRE_INNER_Y + 1 < old(self).ram().len(),
        ensures
            final(self).ram() == types::with_u16(
                types::with_u16(
                    old(self).ram(),
                    SKULL_WOODS_FIRE_INNER_X as int,
                    x,
                ),
                SKULL_WOODS_FIRE_INNER_Y as int,
                y,
            ),
            final(final(self).ram)@ == final(old(self).ram)@,
    {
        write_le_u16(self.ram, SKULL_WOODS_FIRE_INNER_X, x);
        write_le_u16(self.ram, SKULL_WOODS_FIRE_INNER_Y, y);
    }

    pub fn set_outer_position(&mut self, x: u16, y: u16)
        requires
            SKULL_WOODS_FIRE_OUTER_X + 1 < old(self).ram().len(),
            SKULL_WOODS_FIRE_OUTER_Y + 1 < old(self).ram().len(),
        ensures
            final(self).ram() == types::with_u16(
                types::with_u16(
                    old(self).ram(),
                    SKULL_WOODS_FIRE_OUTER_X as int,
                    x,
                ),
                SKULL_WOODS_FIRE_OUTER_Y as int,
                y,
            ),
            final(final(self).ram)@ == final(old(self).ram)@,
    {
        write_le_u16(self.ram, SKULL_WOODS_FIRE_OUTER_X, x);
        write_le_u16(self.ram, SKULL_WOODS_FIRE_OUTER_Y, y);
    }

    pub fn retreat_inner_y(&mut self, value: u16) -> (result: u16)
        requires
            SKULL_WOODS_FIRE_INNER_Y + 1 < old(self).ram().len(),
        ensures
            result == types::u16_at(old(self).ram(), SKULL_WOODS_FIRE_INNER_Y as int)
                .wrapping_sub(value),
            final(self).ram() == types::with_u16(
                old(self).ram(),
                SKULL_WOODS_FIRE_INNER_Y as int,
                types::u16_at(old(self).ram(), SKULL_WOODS_FIRE_INNER_Y as int)
                    .wrapping_sub(value),
            ),
            final(final(self).ram)@ == final(old(self).ram)@,
    {
        let y = read_le_u16(self.ram, SKULL_WOODS_FIRE_INNER_Y).wrapping_sub(value);
        write_le_u16(self.ram, SKULL_WOODS_FIRE_INNER_Y, y);
        y
    }
}

} // verus!
