use vstd::prelude::*;
use super::access;
use super::access::{byte};
use super::addresses::{
    ETHER_ANGLE, ETHER_BEAM_TOP_BUCKET, ETHER_BEAM_Y, ETHER_ORBIT_X, ETHER_ORBIT_Y, ETHER_ORB_X,
    ETHER_ORB_Y, ETHER_RADIUS, ETHER_SPIN_COUNTDOWN,
};
use crate::types;
use crate::types::{read_le_u16, write_le_u16};

verus! {

pub struct EtherOrbitView<'a> {
    ram: &'a [u8],
}

impl<'a> EtherOrbitView<'a> {
    /// The bytes of RAM this view reads and writes.
    pub closed spec fn ram(&self) -> Seq<u8> {
        self.ram@
    }

    pub fn new(ram: &'a [u8]) -> (view: Self)
        ensures
            view.ram() == ram@,
    {
        Self { ram }
    }

    pub fn angle(&self, slot: usize) -> (result: u8)
        requires
            ETHER_ANGLE + slot <= usize::MAX,
        ensures
            result == access::byte_at(self.ram(), ETHER_ANGLE + slot),
    {
        byte(self.ram, ETHER_ANGLE + slot)
    }

    pub fn radius(&self) -> (result: u8)
        ensures
            result == access::byte_at(self.ram(), ETHER_RADIUS as int),
    {
        byte(self.ram, ETHER_RADIUS)
    }

    pub fn beam_top_bucket(&self) -> (result: u8)
        ensures
            result == access::byte_at(self.ram(), ETHER_BEAM_TOP_BUCKET as int),
    {
        byte(self.ram, ETHER_BEAM_TOP_BUCKET)
    }

    pub fn beam_y(&self) -> (result: u16)
        requires
            ETHER_BEAM_Y + 1 < self.ram().len(),
        ensures
            result == types::u16_at(self.ram(), ETHER_BEAM_Y as int),
    {
        read_le_u16(self.ram, ETHER_BEAM_Y)
    }

    pub fn orbit_x(&self) -> (result: u16)
        requires
            ETHER_ORBIT_X + 1 < self.ram().len(),
        ensures
            result == types::u16_at(self.ram(), ETHER_ORBIT_X as int),
    {
        read_le_u16(self.ram, ETHER_ORBIT_X)
    }

    pub fn orbit_y(&self) -> (result: u16)
        requires
            ETHER_ORBIT_Y + 1 < self.ram().len(),
        ensures
            result == types::u16_at(self.ram(), ETHER_ORBIT_Y as int),
    {
        read_le_u16(self.ram, ETHER_ORBIT_Y)
    }

    pub fn orb_x(&self) -> (result: u16)
        requires
            ETHER_ORB_X + 1 < self.ram().len(),
        ensures
            result == types::u16_at(self.ram(), ETHER_ORB_X as int),
    {
        read_le_u16(self.ram, ETHER_ORB_X)
    }

    pub fn orb_y(&self) -> (result: u16)
        requires
            ETHER_ORB_Y + 1 < self.ram().len(),
        ensures
            result == types::u16_at(self.ram(), ETHER_ORB_Y as int),
    {
        read_le_u16(self.ram, ETHER_ORB_Y)
    }
}

pub struct EtherOrbitViewMut<'a> {
    pub ram: &'a mut [u8],
}

impl<'a> EtherOrbitViewMut<'a> {
    /// The bytes of RAM this view reads and writes.
    pub open spec fn ram(&self) -> Seq<u8> {
        self.ram@
    }

    pub fn new(ram: &'a mut [u8]) -> (view: Self)
        ensures
            view.ram() == old(ram)@,
            final(view.ram)@ == final(ram)@,
    {
        Self { ram }
    }

    pub fn set_angle(&mut self, slot: usize, value: u8)
        requires
            ETHER_ANGLE + slot < old(self).ram().len(),
        ensures
            final(self).ram() == old(self).ram().update(ETHER_ANGLE + slot, value),
            final(final(self).ram)@ == final(old(self).ram)@,
    {
        proof {
            assert(self.ram@.len() == self.ram.len());
        }
        self.ram[ETHER_ANGLE + slot] = value;
    }

    pub fn advance_angle(&mut self, slot: usize) -> (result: u8)
        requires
            ETHER_ANGLE + slot < old(self).ram().len(),
        ensures
            result == (old(self).ram()[ETHER_ANGLE + slot].wrapping_add(1) & 0x3fu8),
            final(self).ram() == old(self).ram().update(
                ETHER_ANGLE + slot,
                old(self).ram()[ETHER_ANGLE + slot].wrapping_add(1) & 0x3fu8,
            ),
            final(final(self).ram)@ == final(old(self).ram)@,
    {
        proof {
            assert(self.ram@.len() == self.ram.len());
        }
        let next = self.ram[ETHER_ANGLE + slot].wrapping_add(1) & 0x3f;
        self.ram[ETHER_ANGLE + slot] = next;
        next
    }

    pub fn set_radius(&mut self, value: u8)
        requires
            ETHER_RADIUS < old(self).ram().len(),
        ensures
            final(self).ram() == old(self).ram().update(ETHER_RADIUS as int, value),
            final(final(self).ram)@ == final(old(self).ram)@,
    {
        self.ram[ETHER_RADIUS] = value;
    }

    pub fn tick_spin_countdown(&mut self) -> (result: u8)
        requires
            ETHER_SPIN_COUNTDOWN < old(self).ram().len(),
        ensures
            result == old(self).ram()[ETHER_SPIN_COUNTDOWN as int].wrapping_sub(1),
            final(self).ram() == old(self).ram().update(
                ETHER_SPIN_COUNTDOWN as int,
                old(self).ram()[ETHER_SPIN_COUNTDOWN as int].wrapping_sub(1),
            ),
            final(final(self).ram)@ == final(old(self).ram)@,
    {
        let value = self.ram[ETHER_SPIN_COUNTDOWN].wrapping_sub(1);
        self.ram[ETHER_SPIN_COUNTDOWN] = value;
        value
    }

    pub fn set_spin_countdown(&mut self, value: u8)
        requires
            ETHER_SPIN_COUNTDOWN < old(self).ram().len(),
        ensures
            final(self).ram() == old(self).ram().update(ETHER_SPIN_COUNTDOWN as int, value),
            final(final(self).ram)@ == final(old(self).ram)@,
    {
        self.ram[ETHER_SPIN_COUNTDOWN] = value;
    }

    pub fn set_beam_top_bucket(&mut self, value: u8)
        requires
            ETHER_BEAM_TOP_BUCKET < old(self).ram().len(),
        ensures
            final(self).ram() == old(self).ram().update(ETHER_BEAM_TOP_BUCKET as int, value),
            final(final(self).ram)@ == final(old(self).ram)@,
    {
        self.ram[ETHER_BEAM_TOP_BUCKET] = value;
    }

    pub fn initialize_beam_adjusted_y(&mut self, value: u16)
        requires
            ETHER_BEAM_TOP_BUCKET + 1 < old(self).ram().len(),
        ensures
            final(self).ram() == types::with_u16(
                old(self).ram(),
                ETHER_BEAM_TOP_BUCKET as int,
                value,
            ),
            final(final(self).ram)@ == final(old(self).ram)@,
    {
        write_le_u16(self.ram, ETHER_BEAM_TOP_BUCKET, value);
    }

    pub fn set_orb_position(&mut self, x: u16, y: u16)
        requires
            ETHER_ORB_X + 1 < old(self).ram().len(),
            ETHER_ORB_Y + 1 < old(self).ram().len(),
        ensures
            final(self).ram() == types::with_u16(
                types::with_u16(old(self).ram(), ETHER_ORB_X as int, x),
                ETHER_ORB_Y as int,
                y,
            ),
            final(final(self).ram)@ == final(old(self).ram)@,
    {
        write_le_u16(self.ram, ETHER_ORB_X, x);
        write_le_u16(self.ram, ETHER_ORB_Y, y);
    }

    pub fn set_orbit_position(&mut self, x: u16, y: u16)
        requires
            ETHER_ORBIT_X + 1 < old(self).ram().len(),
            ETHER_ORBIT_Y + 1 < old(self).ram().len(),
        ensures
            final(self).ram() == types::with_u16(
                types::with_u16(old(self).ram(), ETHER_ORBIT_X as int, x),
                ETHER_ORBIT_Y as int,
                y,
            ),
            final(final(self).ram)@ == final(old(self).ram)@,
    {
        write_le_u16(self.ram, ETHER_ORBIT_X, x);
        write_le_u16(self.ram, ETHER_ORBIT_Y, y);
    }

    pub fn set_beam_y(&mut self, value: u16)
        requires
            ETHER_BEAM_Y + 1 < old(self).ram().len(),
        ensures
            final(self).ram() == types::with_u16(old(self).ram(), ETHER_BEAM_Y as int, value),
            final(final(self).ram)@ == final(old(self).ram)@,
    {
        write_le_u16(self.ram, ETHER_BEAM_Y, value);
    }
}

} // verus!
