use vstd::prelude::*;
use super::access;
use super::access::{byte, word};
use super::addresses::{
    CGADSUB_COPY, CGWSEL_COPY, COLDATA_COPY0, COLDATA_COPY1, COLDATA_COPY2,
    DARKENING_OR_LIGHTENING_SCREEN, PALETTE_FILTER_COUNTDOWN,
};
use crate::types;
use crate::types::{write_le_u16};

verus! {

pub struct PaletteFilterView<'a> {
    ram: &'a [u8],
}

impl<'a> PaletteFilterView<'a> {
    /// The bytes of RAM this view reads and writes.
    pub closed spec fn ram(&self) -> Seq<u8> {
        self.ram@
    }

    pub fn new(ram: &'a [u8]) -> (view: Self)
        ensures
            view.ram() == ram@,
    {
        Self { ram }
    }

    pub fn countdown(&self) -> (result: u8)
        ensures
            result == access::byte_at(self.ram(), PALETTE_FILTER_COUNTDOWN as int),
    {
        byte(self.ram, PALETTE_FILTER_COUNTDOWN)
    }

    pub fn countdown_word(&self) -> (result: u16)
        ensures
            result == access::word_at(self.ram(), PALETTE_FILTER_COUNTDOWN as int),
    {
        word(self.ram, PALETTE_FILTER_COUNTDOWN)
    }

    pub fn darkening_or_lightening_screen(&self) -> (result: u8)
        ensures
            result == access::byte_at(self.ram(), DARKENING_OR_LIGHTENING_SCREEN as int),
    {
        byte(self.ram, DARKENING_OR_LIGHTENING_SCREEN)
    }

    pub fn darkening_or_lightening_screen_word(&self) -> (result: u16)
        ensures
            result == access::word_at(self.ram(), DARKENING_OR_LIGHTENING_SCREEN as int),
    {
        word(self.ram, DARKENING_OR_LIGHTENING_SCREEN)
    }

    pub fn color_window_selection(&self) -> (result: u8)
        ensures
            result == access::byte_at(self.ram(), CGWSEL_COPY as int),
    {
        byte(self.ram, CGWSEL_COPY)
    }

    pub fn color_window_and_math_word(&self) -> (result: u16)
        ensures
            result == access::word_at(self.ram(), CGWSEL_COPY as int),
    {
        word(self.ram, CGWSEL_COPY)
    }

    pub fn color_math_control(&self) -> (result: u8)
        ensures
            result == access::byte_at(self.ram(), CGADSUB_COPY as int),
    {
        byte(self.ram, CGADSUB_COPY)
    }

    pub fn color_math_control_word(&self) -> (result: u16)
        ensures
            result == access::word_at(self.ram(), CGADSUB_COPY as int),
    {
        word(self.ram, CGADSUB_COPY)
    }

    pub fn fixed_color_red(&self) -> (result: u8)
        ensures
            result == access::byte_at(self.ram(), COLDATA_COPY0 as int),
    {
        byte(self.ram, COLDATA_COPY0)
    }

    pub fn fixed_color_green(&self) -> (result: u8)
        ensures
            result == access::byte_at(self.ram(), COLDATA_COPY1 as int),
    {
        byte(self.ram, COLDATA_COPY1)
    }

    pub fn fixed_color_blue(&self) -> (result: u8)
        ensures
            result == access::byte_at(self.ram(), COLDATA_COPY2 as int),
    {
        byte(self.ram, COLDATA_COPY2)
    }

    pub fn fixed_color_component(&self, index: usize) -> (result: u8)
        requires
            COLDATA_COPY0 + index <= usize::MAX,
        ensures
            result == access::byte_at(self.ram(), COLDATA_COPY0 + index),
    {
        byte(self.ram, COLDATA_COPY0 + index)
    }
}

pub struct PaletteFilterViewMut<'a> {
    pub ram: &'a mut [u8],
}

impl<'a> PaletteFilterViewMut<'a> {
    /// The bytes of RAM this view reads and writes.
    pub open spec fn ram(&self) -> Seq<u8> {
        self.ram@
    }

    pub fn new(ram: &'a mut [u8]) -> (view: Self)
        ensures
            view.ram() == old(ram)@,
            final(view.ram)@ == final(ram)@,
    {
        Self { ram }
    }

    pub fn set_countdown(&mut self, value: u8)
        requires
            PALETTE_FILTER_COUNTDOWN < old(self).ram().len(),
        ensures
            final(self).ram() == old(self).ram().update(PALETTE_FILTER_COUNTDOWN as int, value),
            final(final(self).ram)@ == final(old(self).ram)@,
    {
        self.ram[PALETTE_FILTER_COUNTDOWN] = value;
    }

    pub fn increment_countdown(&mut self)
        requires
            PALETTE_FILTER_COUNTDOWN < old(self).ram().len(),
        ensures
            final(self).ram() == old(self).ram().update(
                PALETTE_FILTER_COUNTDOWN as int,
                old(self).ram()[PALETTE_FILTER_COUNTDOWN as int].wrapping_add(1),
            ),
            final(final(self).ram)@ == final(old(self).ram)@,
    {
        self.ram[PALETTE_FILTER_COUNTDOWN] = self.ram[PALETTE_FILTER_COUNTDOWN].wrapping_add(1);
    }

    pub fn decrement_countdown(&mut self)
        requires
            PALETTE_FILTER_COUNTDOWN < old(self).ram().len(),
        ensures
            final(self).ram() == old(self).ram().update(
                PALETTE_FILTER_COUNTDOWN as int,
                old(self).ram()[PALETTE_FILTER_COUNTDOWN as int].wrapping_sub(1),
            ),
            final(final(self).ram)@ == final(old(self).ram)@,
    {
        self.ram[PALETTE_FILTER_COUNTDOWN] = self.ram[PALETTE_FILTER_COUNTDOWN].wrapping_sub(1);
    }

    pub fn set_countdown_word(&mut self, value: u16)
        requires
            PALETTE_FILTER_COUNTDOWN + 1 < old(self).ram().len(),
        ensures
            final(self).ram() == types::with_u16(
                old(self).ram(),
                PALETTE_FILTER_COUNTDOWN as int,
                value,
            ),
            final(final(self).ram)@ == final(old(self).ram)@,
    {
        write_le_u16(self.ram, PALETTE_FILTER_COUNTDOWN, value);
    }

    pub fn set_darkening_or_lightening_screen(&mut self, value: u8)
        requires
            DARKENING_OR_LIGHTENING_SCREEN < old(self).ram().len(),
        ensures
            final(self).ram() == old(self).ram().update(
                DARKENING_OR_LIGHTENING_SCREEN as int,
                value,
            ),
            final(final(self).ram)@ == final(old(self).ram)@,
    {
        self.ram[DARKENING_OR_LIGHTENING_SCREEN] = value;
    }

    pub fn xor_darkening_or_lightening_screen(&mut self, value: u8)
        requires
            DARKENING_OR_LIGHTENING_SCREEN < old(self).ram().len(),
        ensures
            final(self).ram() == old(self).ram().update(
                DARKENING_OR_LIGHTENING_SCREEN as int,
                old(self).ram()[DARKENING_OR_LIGHTENING_SCREEN as int] ^ value,
            ),
            final(final(self).ram)@ == final(old(self).ram)@,
    {
        self.ram[DARKENING_OR_LIGHTENING_SCREEN] ^= value;
    }

    pub fn set_darkening_or_lightening_screen_word(&mut self, value: u16)
        requires
            DARKENING_OR_LIGHTENING_SCREEN + 1 < old(self).ram().len(),
        ensures
            final(self).ram() == types::with_u16(
                old(self).ram(),
                DARKENING_OR_LIGHTENING_SCREEN as int,
                value,
            ),
            final(final(self).ram)@ == final(old(self).ram)@,
    {
        write_le_u16(self.ram, DARKENING_OR_LIGHTENING_SCREEN, value);
    }

    pub fn set_color_window_selection(&mut self, value: u8)
        requires
            CGWSEL_COPY < old(self).ram().len(),
        ensures
            final(self).ram() == old(self).ram().update(CGWSEL_COPY as int, value),
            final(final(self).ram)@ == final(old(self).ram)@,
    {
        self.ram[CGWSEL_COPY] = value;
    }

    pub fn set_color_window_and_math_word(&mut self, value: u16)
        requires
            CGWSEL_COPY + 1 < old(self).ram().len(),
        ensures
            final(self).ram() == types::with_u16(old(self).ram(), CGWSEL_COPY as int, value),
            final(final(self).ram)@ == final(old(self).ram)@,
    {
        write_le_u16(self.ram, CGWSEL_COPY, value);
    }

    pub fn set_color_math_control(&mut self, value: u8)
        requires
            CGADSUB_COPY < old(self).ram().len(),
        ensures
            final(self).ram() == old(self).ram().update(CGADSUB_COPY as int, value),
            final(final(self).ram)@ == final(old(self).ram)@,
    {
        self.ram[CGADSUB_COPY] = value;
    }

    pub fn set_fixed_color_red(&mut self, value: u8)
        requires
            COLDATA_COPY0 < old(self).ram().len(),
        ensures
            final(self).ram() == old(self).ram().update(COLDATA_COPY0 as int, value),
            final(final(self).ram)@ == final(old(self).ram)@,
    {
        self.ram[COLDATA_COPY0] = value;
    }

    pub fn or_fixed_color_red(&mut self, value: u8)
        requires
            COLDATA_COPY0 < old(self).ram().len(),
        ensures
            final(self).ram() == old(self).ram().update(
                COLDATA_COPY0 as int,
                old(self).ram()[COLDATA_COPY0 as int] | value,
            ),
            final(final(self).ram)@ == final(old(self).ram)@,
    {
        self.ram[COLDATA_COPY0] |= value;
    }

    pub fn subtract_fixed_color_red(&mut self, value: u8)
        requires
            COLDATA_COPY0 < old(self).ram().len(),
        ensures
            final(self).ram() == old(self).ram().update(
                COLDATA_COPY0 as int,
                old(self).ram()[COLDATA_COPY0 as int].wrapping_sub(value),
            ),
            final(final(self).ram)@ == final(old(self).ram)@,
    {
        self.ram[COLDATA_COPY0] = self.ram[COLDATA_COPY0].wrapping_sub(value);
    }

    pub fn set_fixed_color_green(&mut self, value: u8)
        requires
            COLDATA_COPY1 < old(self).ram().len(),
        ensures
            final(self).ram() == old(self).ram().update(COLDATA_COPY1 as int, value),
            final(final(self).ram)@ == final(old(self).ram)@,
    {
        self.ram[COLDATA_COPY1] = value;
    }

    pub fn or_fixed_color_green(&mut self, value: u8)
        requires
            COLDATA_COPY1 < old(self).ram().len(),
        ensures
            final(self).ram() == old(self).ram().update(
                COLDATA_COPY1 as int,
                old(self).ram()[COLDATA_COPY1 as int] | value,
            ),
            final(final(self).ram)@ == final(old(self).ram)@,
    {
        self.ram[COLDATA_COPY1] |= value;
    }

    pub fn subtract_fixed_color_green(&mut self, value: u8)
        requires
            COLDATA_COPY1 < old(self).ram().len(),
        ensures
            final(self).ram() == old(self).ram().update(
                COLDATA_COPY1 as int,
                old(self).ram()[COLDATA_COPY1 as int].wrapping_sub(value),
            ),
            final(final(self).ram)@ == final(old(self).ram)@,
    {
        self.ram[COLDATA_COPY1] = self.ram[COLDATA_COPY1].wrapping_sub(value);
    }

    pub fn set_fixed_color_blue(&mut self, value: u8)
        requires
            COLDATA_COPY2 < old(self).ram().len(),
        ensures
            final(self).ram() == old(self).ram().update(COLDATA_COPY2 as int, value),
            final(final(self).ram)@ == final(old(self).ram)@,
    {
        self.ram[COLDATA_COPY2] = value;
    }

    pub fn or_fixed_color_blue(&mut self, value: u8)
        requires
            COLDATA_COPY2 < old(self).ram().len(),
        ensures
            final(self).ram() == old(self).ram().update(
                COLDATA_COPY2 as int,
                old(self).ram()[COLDATA_COPY2 as int] | value,
            ),
            final(final(self).ram)@ == final(old(self).ram)@,
    {
        self.ram[COLDATA_COPY2] |= value;
    }

    pub fn subtract_fixed_color_blue(&mut self, value: u8)
        requires
            COLDATA_COPY2 < old(self).ram().len(),
        ensures
            final(self).ram() == old(self).ram().update(
                COLDATA_COPY2 as int,
                old(self).ram()[COLDATA_COPY2 as int].wrapping_sub(value),
            ),
            final(final(self).ram)@ == final(old(self).ram)@,
    {
        self.ram[COLDATA_COPY2] = self.ram[COLDATA_COPY2].wrapping_sub(value);
    }

    pub fn set_fixed_color_component(&mut self, index: usize, value: u8)
        requires
            COLDATA_COPY0 + index < old(self).ram().len(),
        ensures
            final(self).ram() == old(self).ram().update(COLDATA_COPY0 + index, value),
            final(final(self).ram)@ == final(old(self).ram)@,
    {
        proof {
            assert(self.ram@.len() == self.ram.len());
        }
        self.ram[COLDATA_COPY0 + index] = value;
    }

    pub fn or_fixed_color_component(&mut self, index: usize, value: u8)
        requires
            COLDATA_COPY0 + index < old(self).ram().len(),
        ensures
            final(self).ram() == old(self).ram().update(
                COLDATA_COPY0 + index,
                old(self).ram()[COLDATA_COPY0 + index] | value,
            ),
            final(final(self).ram)@ == final(old(self).ram)@,
    {
        proof {
            assert(self.ram@.len() == self.ram.len());
        }
        self.ram[COLDATA_COPY0 + index] |= value;
    }
}

} // verus!
