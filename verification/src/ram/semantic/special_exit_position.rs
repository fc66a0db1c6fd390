use vstd::prelude::*;
use super::access;
use super::access::{word, copy_word};
use super::addresses::{LINK_X_COORD, LINK_X_COORD_SPEXIT, LINK_Y_COORD, LINK_Y_COORD_SPEXIT};
use crate::types;
use crate::types::{write_le_u16};

verus! {

pub struct SpecialExitPositionView<'a> {
    ram: &'a [u8],
}

impl<'a> SpecialExitPositionView<'a> {
    /// The bytes of RAM this view reads and writes.
    pub closed spec fn ram(&self) -> Seq<u8> {
        self.ram@
    }

    pub fn new(ram: &'a [u8]) -> (view: Self)
        ensures
            view.ram() == ram@,
    {
        Self { ram }
    }

    pub fn x(&self) -> (result: u16)
        ensures
            result == access::word_at(self.ram(), LINK_X_COORD_SPEXIT as int),
    {
        word(self.ram, LINK_X_COORD_SPEXIT)
    }

    pub fn y(&self) -> (result: u16)
        ensures
            result == access::word_at(self.ram(), LINK_Y_COORD_SPEXIT as int),
    {
        word(self.ram, LINK_Y_COORD_SPEXIT)
    }

    pub fn map_zoom_y(&self) -> (result: u16)
        ensures
            result == (((access::word_at(self.ram(), LINK_Y_COORD_SPEXIT as int) >> 4).wrapping_sub(0x48)) & (!1u16)),
    {
        ((self.y() >> 4).wrapping_sub(0x48)) & !1
    }

    pub fn map_zoom_x_offset(&self) -> (result: u16)
        ensures
            result == (access::word_at(self.ram(), LINK_X_COORD_SPEXIT as int) >> 4)
                .wrapping_sub(0x80),
    {
        (self.x() >> 4).wrapping_sub(0x80)
    }
}

pub struct SpecialExitPositionViewMut<'a> {
    pub ram: &'a mut [u8],
}

impl<'a> SpecialExitPositionViewMut<'a> {
    /// The bytes of RAM this view reads and writes.
    pub open spec fn ram(&self) -> Seq<u8> {
        self.ram@
    }

    pub fn new(ram: &'a mut [u8]) -> (view: Self)
        ensures
            view.ram() == old(ram)@,
            final(view.ram)@ == final(ram)@,
    {
        Self { ram }
    }

    pub fn set_x(&mut self, value: u16)
        requires
            LINK_X_COORD_SPEXIT + 1 < old(self).ram().len(),
        ensures
            final(self).ram() == types::with_u16(old(self).ram(), LINK_X_COORD_SPEXIT as int, value),
            final(final(self).ram)@ == final(old(self).ram)@,
    {
        write_le_u16(self.ram, LINK_X_COORD_SPEXIT, value);
    }

    pub fn set_y(&mut self, value: u16)
        requires
            LINK_Y_COORD_SPEXIT + 1 < old(self).ram().len(),
        ensures
            final(self).ram() == types::with_u16(old(self).ram(), LINK_Y_COORD_SPEXIT as int, value),
            final(final(self).ram)@ == final(old(self).ram)@,
    {
        write_le_u16(self.ram, LINK_Y_COORD_SPEXIT, value);
    }

    pub fn set_position(&mut self, x: u16, y: u16)
        requires
            LINK_X_COORD_SPEXIT + 1 < old(self).ram().len(),
            LINK_Y_COORD_SPEXIT + 1 < old(self).ram().len(),
        ensures
            final(self).ram() == types::with_u16(
                types::with_u16(
                    old(self).ram(),
                    LINK_X_COORD_SPEXIT as int,
                    x,
                ),
                LINK_Y_COORD_SPEXIT as int,
                y,
            ),
            final(final(self).ram)@ == final(old(self).ram)@,
    {
        self.set_x(x);
        self.set_y(y);
    }

    pub fn offset_position(&mut self, x_delta: u16, y_delta: u16)
        requires
            LINK_X_COORD_SPEXIT + 1 < old(self).ram().len(),
            LINK_Y_COORD_SPEXIT + 1 < old(self).ram().len(),
        ensures
            final(self).ram() == types::with_u16(
                types::with_u16(
                    old(self).ram(),
                    LINK_X_COORD_SPEXIT as int,
                    access::word_at(
                        old(self).ram(),
                        LINK_X_COORD_SPEXIT as int,
                    )
                        .wrapping_add(x_delta),
                ),
                LINK_Y_COORD_SPEXIT as int,
                access::word_at(old(self).ram(), LINK_Y_COORD_SPEXIT as int)
                    .wrapping_add(y_delta),
            ),
            final(final(self).ram)@ == final(old(self).ram)@,
    {
        let x = word(self.ram, LINK_X_COORD_SPEXIT).wrapping_add(x_delta);
        let y = word(self.ram, LINK_Y_COORD_SPEXIT).wrapping_add(y_delta);
        self.set_position(x, y);
    }

    pub fn store_from_player(&mut self)
        requires
            LINK_Y_COORD_SPEXIT + 1 < old(self).ram().len(),
            LINK_Y_COORD + 1 < old(self).ram().len(),
            LINK_X_COORD_SPEXIT + 1 < old(self).ram().len(),
            LINK_X_COORD + 1 < old(self).ram().len(),
        ensures
            ({
                let ram1 = types::with_u16(
                    old(self).ram(),
                    LINK_Y_COORD_SPEXIT as int,
                    types::u16_at(old(self).ram(), LINK_Y_COORD as int),
                );
                final(self).ram() == types::with_u16(
                    ram1,
                    LINK_X_COORD_SPEXIT as int,
                    types::u16_at(ram1, LINK_X_COORD as int),
                )
            }),
            final(final(self).ram)@ == final(old(self).ram)@,
    {
        copy_word(self.ram, LINK_Y_COORD_SPEXIT, LINK_Y_COORD);
        copy_word(self.ram, LINK_X_COORD_SPEXIT, LINK_X_COORD);
    }

    pub fn restore_player_position(&mut self)
        requires
            LINK_X_COORD + 1 < old(self).ram().len(),
            LINK_X_COORD_SPEXIT + 1 < old(self).ram().len(),
            LINK_Y_COORD + 1 < old(self).ram().len(),
            LINK_Y_COORD_SPEXIT + 1 < old(self).ram().len(),
        ensures
            ({
                let ram1 = types::with_u16(
                    old(self).ram(),
                    LINK_X_COORD as int,
                    types::u16_at(old(self).ram(), LINK_X_COORD_SPEXIT as int),
                );
                final(self).ram() == types::with_u16(
                    ram1,
                    LINK_Y_COORD as int,
                    types::u16_at(ram1, LINK_Y_COORD_SPEXIT as int),
                )
            }),
            final(final(self).ram)@ == final(old(self).ram)@,
    {
        copy_word(self.ram, LINK_X_COORD, LINK_X_COORD_SPEXIT);
        copy_word(self.ram, LINK_Y_COORD, LINK_Y_COORD_SPEXIT);
    }
}

} // verus!
