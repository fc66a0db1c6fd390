use vstd::prelude::*;
use super::access;
use super::access::{byte};
use super::addresses::{
    TOWER_SEAL_CENTER_X, TOWER_SEAL_CENTER_Y, TOWER_SEAL_RING_RADIUS, TOWER_SEAL_WAIT_COUNTDOWN,
};
use crate::types;
use crate::types::{read_le_u16, write_le_u16};

verus! {

pub struct TowerSealScratchView<'a> {
    ram: &'a [u8],
}

impl<'a> TowerSealScratchView<'a> {
    /// The bytes of RAM this view reads and writes.
    pub closed spec fn ram(&self) -> Seq<u8> {
        self.ram@
    }

    pub fn new(ram: &'a [u8]) -> (view: Self)
        ensures
            view.ram() == ram@,
    {
        Self { ram }
    }

    pub fn ring_radius(&self) -> (result: u8)
        ensures
            result == access::byte_at(self.ram(), TOWER_SEAL_RING_RADIUS as int),
    {
        byte(self.ram, TOWER_SEAL_RING_RADIUS)
    }

    pub fn center_x(&self) -> (result: u16)
        requires
            TOWER_SEAL_CENTER_X + 1 < self.ram().len(),
        ensures
            result == types::u16_at(self.ram(), TOWER_SEAL_CENTER_X as int),
    {
        read_le_u16(self.ram, TOWER_SEAL_CENTER_X)
    }

    pub fn center_y(&self) -> (result: u16)
        requires
            TOWER_SEAL_CENTER_Y + 1 < self.ram().len(),
        ensures
            result == types::u16_at(self.ram(), TOWER_SEAL_CENTER_Y as int),
    {
        read_le_u16(self.ram, TOWER_SEAL_CENTER_Y)
    }
}

pub struct TowerSealScratchViewMut<'a> {
    pub ram: &'a mut [u8],
}

impl<'a> TowerSealScratchViewMut<'a> {
    /// The bytes of RAM this view reads and writes.
    pub open spec fn ram(&self) -> Seq<u8> {
        self.ram@
    }

    pub fn new(ram: &'a mut [u8]) -> (view: Self)
        ensures
            view.ram() == old(ram)@,
            final(view.ram)@ == final(ram)@,
    {
        Self { ram }
    }

    pub fn set_ring_radius(&mut self, value: u8)
        requires
            TOWER_SEAL_RING_RADIUS < old(self).ram().len(),
        ensures
            final(self).ram() == old(self).ram().update(TOWER_SEAL_RING_RADIUS as int, value),
            final(final(self).ram)@ == final(old(self).ram)@,
    {
        self.ram[TOWER_SEAL_RING_RADIUS] = value;
    }

    pub fn set_center(&mut self, x: u16, y: u16)
        requires
            TOWER_SEAL_CENTER_X + 1 < old(self).ram().len(),
            TOWER_SEAL_CENTER_Y + 1 < old(self).ram().len(),
        ensures
            final(self).ram() == types::with_u16(
                types::with_u16(
                    old(self).ram(),
                    TOWER_SEAL_CENTER_X as int,
                    x,
                ),
                TOWER_SEAL_CENTER_Y as int,
                y,
            ),
            final(final(self).ram)@ == final(old(self).ram)@,
    {
        write_le_u16(self.ram, TOWER_SEAL_CENTER_X, x);
        write_le_u16(self.ram, TOWER_SEAL_CENTER_Y, y);
    }

    pub fn tick_wait_countdown(&mut self) -> (result: u8)
        requires
            TOWER_SEAL_WAIT_COUNTDOWN < old(self).ram().len(),
        ensures
            result == old(self).ram()[TOWER_SEAL_WAIT_COUNTDOWN as int].wrapping_sub(1),
            final(self).ram() == old(self).ram().update(
                TOWER_SEAL_WAIT_COUNTDOWN as int,
                old(self).ram()[TOWER_SEAL_WAIT_COUNTDOWN as int].wrapping_sub(1),
            ),
            final(final(self).ram)@ == final(old(self).ram)@,
    {
        let value = self.ram[TOWER_SEAL_WAIT_COUNTDOWN].wrapping_sub(1);
        self.ram[TOWER_SEAL_WAIT_COUNTDOWN] = value;
        value
    }

    pub fn set_wait_countdown(&mut self, value: u8)
        requires
            TOWER_SEAL_WAIT_COUNTDOWN < old(self).ram().len(),
        ensures
            final(self).ram() == old(self).ram().update(TOWER_SEAL_WAIT_COUNTDOWN as int, value),
            final(final(self).ram)@ == final(old(self).ram)@,
    {
        self.ram[TOWER_SEAL_WAIT_COUNTDOWN] = value;
    }
}

} // verus!
