use vstd::prelude::*;
use super::access;
use super::access::{byte};
use super::addresses::{
    BOMBOS_FIRE_COLUMN_PHASE, BOMBOS_FIRE_COLUMN_RADIAL_ANGLE, BOMBOS_FIRE_COLUMN_TIMER,
    BOMBOS_FIRE_COLUMN_X_HI, BOMBOS_FIRE_COLUMN_X_LO, BOMBOS_FIRE_COLUMN_Y_HI,
    BOMBOS_FIRE_COLUMN_Y_LO,
};

verus! {

pub struct BombosFireColumnView<'a> {
    ram: &'a [u8],
    slot: usize,
}

impl<'a> BombosFireColumnView<'a> {
    /// The bytes of RAM this view reads and writes.
    pub closed spec fn ram(&self) -> Seq<u8> {
        self.ram@
    }

    /// The slot whose fields this view addresses.
    pub closed spec fn slot_index(&self) -> usize {
        self.slot
    }

    pub fn new(ram: &'a [u8], slot: usize) -> (view: Self)
        ensures
            view.ram() == ram@,
            view.slot_index() == slot,
    {
        Self { ram, slot }
    }

    pub fn timer(&self) -> (result: u8)
        requires
            BOMBOS_FIRE_COLUMN_TIMER + self.slot_index() <= usize::MAX,
        ensures
            result == access::byte_at(self.ram(), BOMBOS_FIRE_COLUMN_TIMER + self.slot_index()),
    {
        byte(self.ram, BOMBOS_FIRE_COLUMN_TIMER + self.slot)
    }

    pub fn phase(&self) -> (result: u8)
        requires
            BOMBOS_FIRE_COLUMN_PHASE + self.slot_index() <= usize::MAX,
        ensures
            result == access::byte_at(self.ram(), BOMBOS_FIRE_COLUMN_PHASE + self.slot_index()),
    {
        byte(self.ram, BOMBOS_FIRE_COLUMN_PHASE + self.slot)
    }

    pub fn radial_angle(&self) -> (result: u8)
        requires
            BOMBOS_FIRE_COLUMN_RADIAL_ANGLE + self.slot_index() <= usize::MAX,
        ensures
            result == access::byte_at(
                self.ram(),
                BOMBOS_FIRE_COLUMN_RADIAL_ANGLE + self.slot_index(),
            ),
    {
        byte(self.ram, BOMBOS_FIRE_COLUMN_RADIAL_ANGLE + self.slot)
    }

    pub fn x(&self) -> (result: u16)
        requires
            BOMBOS_FIRE_COLUMN_X_LO + self.slot_index() <= usize::MAX,
            BOMBOS_FIRE_COLUMN_X_HI + self.slot_index() <= usize::MAX,
        ensures
            result == ((access::byte_at(
                  self.ram(),
                  BOMBOS_FIRE_COLUMN_X_LO + self.slot_index(),
              ) as u16)
                 | ((access::byte_at(self.ram(), BOMBOS_FIRE_COLUMN_X_HI + self.slot_index()) as u16) << 8)),
    {
        byte(self.ram, BOMBOS_FIRE_COLUMN_X_LO + self.slot) as u16
            | ((byte(self.ram, BOMBOS_FIRE_COLUMN_X_HI + self.slot) as u16) << 8)
    }

    pub fn y(&self) -> (result: u16)
        requires
            BOMBOS_FIRE_COLUMN_Y_LO + self.slot_index() <= usize::MAX,
            BOMBOS_FIRE_COLUMN_Y_HI + self.slot_index() <= usize::MAX,
        ensures
            result == ((access::byte_at(
                  self.ram(),
                  BOMBOS_FIRE_COLUMN_Y_LO + self.slot_index(),
              ) as u16)
                 | ((access::byte_at(self.ram(), BOMBOS_FIRE_COLUMN_Y_HI + self.slot_index()) as u16) << 8)),
    {
        byte(self.ram, BOMBOS_FIRE_COLUMN_Y_LO + self.slot) as u16
            | ((byte(self.ram, BOMBOS_FIRE_COLUMN_Y_HI + self.slot) as u16) << 8)
    }
}

pub struct BombosFireColumnViewMut<'a> {
    pub ram: &'a mut [u8],
    pub slot: usize,
}

impl<'a> BombosFireColumnViewMut<'a> {
    /// The bytes of RAM this view reads and writes.
    pub open spec fn ram(&self) -> Seq<u8> {
        self.ram@
    }

    /// The slot whose fields this view addresses.
    pub open spec fn slot_index(&self) -> usize {
        self.slot
    }

    pub fn new(ram: &'a mut [u8], slot: usize) -> (view: Self)
        ensures
            view.ram() == old(ram)@,
            view.slot_index() == slot,
            final(view.ram)@ == final(ram)@,
    {
        Self { ram, slot }
    }

    pub fn set_timer(&mut self, value: u8)
        requires
            BOMBOS_FIRE_COLUMN_TIMER + old(self).slot_index() < old(self).ram().len(),
        ensures
            final(self).ram() == old(self).ram().update(
                BOMBOS_FIRE_COLUMN_TIMER + old(self).slot_index(),
                value,
            ),
            final(self).slot_index() == old(self).slot_index(),
            final(final(self).ram)@ == final(old(self).ram)@,
    {
        proof {
            assert(self.ram@.len() == self.ram.len());
        }
        self.ram[BOMBOS_FIRE_COLUMN_TIMER + self.slot] = value;
    }

    pub fn tick_timer(&mut self) -> (result: u8)
        requires
            BOMBOS_FIRE_COLUMN_TIMER + old(self).slot_index() < old(self).ram().len(),
        ensures
            result == old(self).ram()[BOMBOS_FIRE_COLUMN_TIMER + old(self).slot_index()].wrapping_sub(1),
            final(self).ram() == old(self).ram().update(
                BOMBOS_FIRE_COLUMN_TIMER + old(self).slot_index(),
                old(self).ram()[BOMBOS_FIRE_COLUMN_TIMER + old(self).slot_index()].wrapping_sub(1),
            ),
            final(self).slot_index() == old(self).slot_index(),
            final(final(self).ram)@ == final(old(self).ram)@,
    {
        proof {
            assert(self.ram@.len() == self.ram.len());
        }
        let value = self.ram[BOMBOS_FIRE_COLUMN_TIMER + self.slot].wrapping_sub(1);
        self.ram[BOMBOS_FIRE_COLUMN_TIMER + self.slot] = value;
        value
    }

    pub fn set_phase(&mut self, value: u8)
        requires
            BOMBOS_FIRE_COLUMN_PHASE + old(self).slot_index() < old(self).ram().len(),
        ensures
            final(self).ram() == old(self).ram().update(
                BOMBOS_FIRE_COLUMN_PHASE + old(self).slot_index(),
                value,
            ),
            final(self).slot_index() == old(self).slot_index(),
            final(final(self).ram)@ == final(old(self).ram)@,
    {
        proof {
            assert(self.ram@.len() == self.ram.len());
        }
        self.ram[BOMBOS_FIRE_COLUMN_PHASE + self.slot] = value;
    }

    pub fn advance_phase(&mut self) -> (result: u8)
        requires
            BOMBOS_FIRE_COLUMN_PHASE + old(self).slot_index() < old(self).ram().len(),
        ensures
            result == old(self).ram()[BOMBOS_FIRE_COLUMN_PHASE + old(self).slot_index()].wrapping_add(1),
            final(self).ram() == old(self).ram().update(
                BOMBOS_FIRE_COLUMN_PHASE + old(self).slot_index(),
                old(self).ram()[BOMBOS_FIRE_COLUMN_PHASE + old(self).slot_index()].wrapping_add(1),
            ),
            final(self).slot_index() == old(self).slot_index(),
            final(final(self).ram)@ == final(old(self).ram)@,
    {
        proof {
            assert(self.ram@.len() == self.ram.len());
        }
        let value = self.ram[BOMBOS_FIRE_COLUMN_PHASE + self.slot].wrapping_add(1);
        self.ram[BOMBOS_FIRE_COLUMN_PHASE + self.slot] = value;
        value
    }

    pub fn add_radial_angle(&mut self, value: u8) -> (result: u8)
        requires
            BOMBOS_FIRE_COLUMN_RADIAL_ANGLE + old(self).slot_index() < old(self).ram().len(),
        ensures
            result == old(self).ram()[BOMBOS_FIRE_COLUMN_RADIAL_ANGLE + old(self).slot_index()].wrapping_add(value),
            final(self).ram() == old(self).ram().update(
                BOMBOS_FIRE_COLUMN_RADIAL_ANGLE + old(self).slot_index(),
                old(self).ram()[BOMBOS_FIRE_COLUMN_RADIAL_ANGLE + old(self).slot_index()].wrapping_add(value),
            ),
            final(self).slot_index() == old(self).slot_index(),
            final(final(self).ram)@ == final(old(self).ram)@,
    {
        proof {
            assert(self.ram@.len() == self.ram.len());
        }
        let angle = self.ram[BOMBOS_FIRE_COLUMN_RADIAL_ANGLE + self.slot].wrapping_add(value);
        self.ram[BOMBOS_FIRE_COLUMN_RADIAL_ANGLE + self.slot] = angle;
        angle
    }

    pub fn set_radial_angle(&mut self, value: u8)
        requires
            BOMBOS_FIRE_COLUMN_RADIAL_ANGLE + old(self).slot_index() < old(self).ram().len(),
        ensures
            final(self).ram() == old(self).ram().update(
                BOMBOS_FIRE_COLUMN_RADIAL_ANGLE + old(self).slot_index(),
                value,
            ),
            final(self).slot_index() == old(self).slot_index(),
            final(final(self).ram)@ == final(old(self).ram)@,
    {
        proof {
            assert(self.ram@.len() == self.ram.len());
        }
        self.ram[BOMBOS_FIRE_COLUMN_RADIAL_ANGLE + self.slot] = value;
    }

    pub fn set_position(&mut self, x: u16, y: u16)
        requires
            BOMBOS_FIRE_COLUMN_X_LO + old(self).slot_index() < old(self).ram().len(),
            BOMBOS_FIRE_COLUMN_X_HI + old(self).slot_index() < old(self).ram().len(),
            BOMBOS_FIRE_COLUMN_Y_LO + old(self).slot_index() < old(self).ram().len(),
            BOMBOS_FIRE_COLUMN_Y_HI + old(self).slot_index() < old(self).ram().len(),
        ensures
            final(self).ram() == old(self).ram()
                .update(BOMBOS_FIRE_COLUMN_X_LO + old(self).slot_index(), x as u8)
                .update(BOMBOS_FIRE_COLUMN_X_HI + old(self).slot_index(), (x >> 8) as u8)
                .update(BOMBOS_FIRE_COLUMN_Y_LO + old(self).slot_index(), y as u8)
                .update(BOMBOS_FIRE_COLUMN_Y_HI + old(self).slot_index(), (y >> 8) as u8),
            final(self).slot_index() == old(self).slot_index(),
            final(final(self).ram)@ == final(old(self).ram)@,
    {
        proof {
            assert(self.ram@.len() == self.ram.len());
        }
        self.ram[BOMBOS_FIRE_COLUMN_X_LO + self.slot] = x as u8;
        self.ram[BOMBOS_FIRE_COLUMN_X_HI + self.slot] = (x >> 8) as u8;
        self.ram[BOMBOS_FIRE_COLUMN_Y_LO + self.slot] = y as u8;
        self.ram[BOMBOS_FIRE_COLUMN_Y_HI + self.slot] = (y >> 8) as u8;
    }
}

} // verus!
