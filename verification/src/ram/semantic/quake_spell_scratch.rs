use vstd::prelude::*;
use super::access;
use super::access::{byte};
use super::addresses::{
    QUAKE_ACTIVE_BOLT_LIMIT, QUAKE_ORIGIN_X, QUAKE_ORIGIN_Y, QUAKE_PENDING_STEP,
    QUAKE_SCREEN_SHAKE_Y,
};
use crate::types;
use crate::types::{read_le_u16, write_le_u16};

verus! {

pub struct QuakeSpellScratchView<'a> {
    ram: &'a [u8],
}

impl<'a> QuakeSpellScratchView<'a> {
    /// The bytes of RAM this view reads and writes.
    pub closed spec fn ram(&self) -> Seq<u8> {
        self.ram@
    }

    pub fn new(ram: &'a [u8]) -> (view: Self)
        ensures
            view.ram() == ram@,
    {
        Self { ram }
    }

    pub fn active_bolt_limit(&self) -> (result: u8)
        ensures
            result == access::byte_at(self.ram(), QUAKE_ACTIVE_BOLT_LIMIT as int),
    {
        byte(self.ram, QUAKE_ACTIVE_BOLT_LIMIT)
    }

    pub fn pending_step(&self) -> (result: u8)
        ensures
            result == access::byte_at(self.ram(), QUAKE_PENDING_STEP as int),
    {
        byte(self.ram, QUAKE_PENDING_STEP)
    }

    pub fn origin_x(&self) -> (result: u16)
        requires
            QUAKE_ORIGIN_X + 1 < self.ram().len(),
        ensures
            result == types::u16_at(self.ram(), QUAKE_ORIGIN_X as int),
    {
        read_le_u16(self.ram, QUAKE_ORIGIN_X)
    }

    pub fn origin_y(&self) -> (result: u16)
        requires
            QUAKE_ORIGIN_Y + 1 < self.ram().len(),
        ensures
            result == types::u16_at(self.ram(), QUAKE_ORIGIN_Y as int),
    {
        read_le_u16(self.ram, QUAKE_ORIGIN_Y)
    }

    pub fn screen_shake_y(&self) -> (result: u16)
        requires
            QUAKE_SCREEN_SHAKE_Y + 1 < self.ram().len(),
        ensures
            result == types::u16_at(self.ram(), QUAKE_SCREEN_SHAKE_Y as int),
    {
        read_le_u16(self.ram, QUAKE_SCREEN_SHAKE_Y)
    }
}

pub struct QuakeSpellScratchViewMut<'a> {
    pub ram: &'a mut [u8],
}

impl<'a> QuakeSpellScratchViewMut<'a> {
    /// The bytes of RAM this view reads and writes.
    pub open spec fn ram(&self) -> Seq<u8> {
        self.ram@
    }

    pub fn new(ram: &'a mut [u8]) -> (view: Self)
        ensures
            view.ram() == old(ram)@,
            final(view.ram)@ == final(ram)@,
    {
        Self { ram }
    }

    pub fn set_active_bolt_limit(&mut self, value: u8)
        requires
            QUAKE_ACTIVE_BOLT_LIMIT < old(self).ram().len(),
        ensures
            final(self).ram() == old(self).ram().update(QUAKE_ACTIVE_BOLT_LIMIT as int, value),
            final(final(self).ram)@ == final(old(self).ram)@,
    {
        self.ram[QUAKE_ACTIVE_BOLT_LIMIT] = value;
    }

    pub fn set_pending_step(&mut self, value: u8)
        requires
            QUAKE_PENDING_STEP < old(self).ram().len(),
        ensures
            final(self).ram() == old(self).ram().update(QUAKE_PENDING_STEP as int, value),
            final(final(self).ram)@ == final(old(self).ram)@,
    {
        self.ram[QUAKE_PENDING_STEP] = value;
    }

    pub fn set_origin(&mut self, x: u16, y: u16)
        requires
            QUAKE_ORIGIN_X + 1 < old(self).ram().len(),
            QUAKE_ORIGIN_Y + 1 < old(self).ram().len(),
        ensures
            final(self).ram() == types::with_u16(
                types::with_u16(old(self).ram(), QUAKE_ORIGIN_X as int, x),
                QUAKE_ORIGIN_Y as int,
                y,
            ),
            final(final(self).ram)@ == final(old(self).ram)@,
    {
        write_le_u16(self.ram, QUAKE_ORIGIN_X, x);
        write_le_u16(self.ram, QUAKE_ORIGIN_Y, y);
    }

    pub fn set_screen_shake_y(&mut self, value: u16)
        requires
            QUAKE_SCREEN_SHAKE_Y + 1 < old(self).ram().len(),
        ensures
            final(self).ram() == types::with_u16(
                old(self).ram(),
                QUAKE_SCREEN_SHAKE_Y as int,
                value,
            ),
            final(final(self).ram)@ == final(old(self).ram)@,
    {
        write_le_u16(self.ram, QUAKE_SCREEN_SHAKE_Y, value);
    }

    pub fn invert_screen_shake_y(&mut self) -> (result: u16)
        requires
            QUAKE_SCREEN_SHAKE_Y + 1 < old(self).ram().len(),
        ensures
            result == types::u16_at(old(self).ram(), QUAKE_SCREEN_SHAKE_Y as int),
            final(self).ram() == types::with_u16(
                old(self).ram(),
                QUAKE_SCREEN_SHAKE_Y as int,
                0u16.wrapping_sub(
                    types::u16_at(
                        old(self).ram(),
                        QUAKE_SCREEN_SHAKE_Y as int,
                    ),
                ),
            ),
            final(final(self).ram)@ == final(old(self).ram)@,
    {
        let value = read_le_u16(self.ram, QUAKE_SCREEN_SHAKE_Y);
        write_le_u16(self.ram, QUAKE_SCREEN_SHAKE_Y, 0u16.wrapping_sub(value));
        value
    }
}

} // verus!
