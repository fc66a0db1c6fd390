use vstd::prelude::*;
use super::access;
use super::access::{byte};
use super::addresses::{
    WEATHERVANE_COUNTDOWN, WEATHERVANE_MUSIC_LATCH, WEATHERVANE_OAM_OFFSET,
    WEATHERVANE_SOURCE_SLOT,
};
use crate::types;
use crate::types::{read_le_u16, write_le_u16};

verus! {

pub struct WeatherVaneStateView<'a> {
    ram: &'a [u8],
}

impl<'a> WeatherVaneStateView<'a> {
    /// The bytes of RAM this view reads and writes.
    pub closed spec fn ram(&self) -> Seq<u8> {
        self.ram@
    }

    pub fn new(ram: &'a [u8]) -> (view: Self)
        ensures
            view.ram() == ram@,
    {
        Self { ram }
    }

    pub fn oam_offset(&self) -> (result: u8)
        ensures
            result == access::byte_at(self.ram(), WEATHERVANE_OAM_OFFSET as int),
    {
        byte(self.ram, WEATHERVANE_OAM_OFFSET)
    }
}

pub struct WeatherVaneStateViewMut<'a> {
    pub ram: &'a mut [u8],
}

impl<'a> WeatherVaneStateViewMut<'a> {
    /// The bytes of RAM this view reads and writes.
    pub open spec fn ram(&self) -> Seq<u8> {
        self.ram@
    }

    pub fn new(ram: &'a mut [u8]) -> (view: Self)
        ensures
            view.ram() == old(ram)@,
            final(view.ram)@ == final(ram)@,
    {
        Self { ram }
    }

    pub fn set_countdown(&mut self, value: u16)
        requires
            WEATHERVANE_COUNTDOWN + 1 < old(self).ram().len(),
        ensures
            final(self).ram() == types::with_u16(
                old(self).ram(),
                WEATHERVANE_COUNTDOWN as int,
                value,
            ),
            final(final(self).ram)@ == final(old(self).ram)@,
    {
        write_le_u16(self.ram, WEATHERVANE_COUNTDOWN, value);
    }

    pub fn tick_countdown(&mut self) -> (result: u16)
        requires
            WEATHERVANE_COUNTDOWN + 1 < old(self).ram().len(),
        ensures
            result == types::u16_at(old(self).ram(), WEATHERVANE_COUNTDOWN as int).wrapping_sub(1),
            final(self).ram() == types::with_u16(
                old(self).ram(),
                WEATHERVANE_COUNTDOWN as int,
                types::u16_at(old(self).ram(), WEATHERVANE_COUNTDOWN as int)
                    .wrapping_sub(1),
            ),
            final(final(self).ram)@ == final(old(self).ram)@,
    {
        let value = read_le_u16(self.ram, WEATHERVANE_COUNTDOWN).wrapping_sub(1);
        write_le_u16(self.ram, WEATHERVANE_COUNTDOWN, value);
        value
    }

    pub fn set_music_latch(&mut self, value: u8)
        requires
            WEATHERVANE_MUSIC_LATCH < old(self).ram().len(),
        ensures
            final(self).ram() == old(self).ram().update(WEATHERVANE_MUSIC_LATCH as int, value),
            final(final(self).ram)@ == final(old(self).ram)@,
    {
        self.ram[WEATHERVANE_MUSIC_LATCH] = value;
    }

    pub fn music_latch(&self) -> (result: u8)
        ensures
            result == access::byte_at(self.ram(), WEATHERVANE_MUSIC_LATCH as int),
    {
        byte(self.ram, WEATHERVANE_MUSIC_LATCH)
    }

    pub fn set_source_slot(&mut self, slot: u8)
        requires
            WEATHERVANE_SOURCE_SLOT < old(self).ram().len(),
        ensures
            final(self).ram() == old(self).ram().update(WEATHERVANE_SOURCE_SLOT as int, slot),
            final(final(self).ram)@ == final(old(self).ram)@,
    {
        self.ram[WEATHERVANE_SOURCE_SLOT] = slot;
    }

    pub fn reset_oam_offset(&mut self)
        requires
            WEATHERVANE_OAM_OFFSET < old(self).ram().len(),
        ensures
            final(self).ram() == old(self).ram().update(WEATHERVANE_OAM_OFFSET as int, 0u8),
            final(final(self).ram)@ == final(old(self).ram)@,
    {
        self.ram[WEATHERVANE_OAM_OFFSET] = 0;
    }

    pub fn advance_oam_offset(&mut self, value: u8)
        requires
            WEATHERVANE_OAM_OFFSET < old(self).ram().len(),
        ensures
            final(self).ram() == old(self).ram().update(
                WEATHERVANE_OAM_OFFSET as int,
                old(self).ram()[WEATHERVANE_OAM_OFFSET as int].wrapping_add(value),
            ),
            final(final(self).ram)@ == final(old(self).ram)@,
    {
        self.ram[WEATHERVANE_OAM_OFFSET] = self.ram[WEATHERVANE_OAM_OFFSET].wrapping_add(value);
    }
}

} // verus!
