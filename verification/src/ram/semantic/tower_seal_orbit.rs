use vstd::prelude::*;
use super::access;
use super::access::{byte};
use super::addresses::{
    TOWER_SEAL_BASE_SPARKLE_X_HI, TOWER_SEAL_BASE_SPARKLE_X_LO, TOWER_SEAL_BASE_SPARKLE_Y_HI,
    TOWER_SEAL_BASE_SPARKLE_Y_LO, TOWER_SEAL_ORBIT_ANGLE,
};

verus! {

pub struct TowerSealOrbitView<'a> {
    ram: &'a [u8],
    slot: usize,
}

impl<'a> TowerSealOrbitView<'a> {
    /// The bytes of RAM this view reads and writes.
    pub closed spec fn ram(&self) -> Seq<u8> {
        self.ram@
    }

    /// The slot whose fields this view addresses.
    pub closed spec fn slot_index(&self) -> usize {
        self.slot
    }

    pub fn new(ram: &'a [u8], slot: usize) -> (view: Self)
        ensures
            view.ram() == ram@,
            view.slot_index() == slot,
    {
        Self { ram, slot }
    }

    pub fn angle(&self) -> (result: u8)
        requires
            TOWER_SEAL_ORBIT_ANGLE + self.slot_index() <= usize::MAX,
        ensures
            result == access::byte_at(self.ram(), TOWER_SEAL_ORBIT_ANGLE + self.slot_index()),
    {
        byte(self.ram, TOWER_SEAL_ORBIT_ANGLE + self.slot)
    }
}

pub struct TowerSealOrbitViewMut<'a> {
    pub ram: &'a mut [u8],
    pub slot: usize,
}

impl<'a> TowerSealOrbitViewMut<'a> {
    /// The bytes of RAM this view reads and writes.
    pub open spec fn ram(&self) -> Seq<u8> {
        self.ram@
    }

    /// The slot whose fields this view addresses.
    pub open spec fn slot_index(&self) -> usize {
        self.slot
    }

    pub fn new(ram: &'a mut [u8], slot: usize) -> (view: Self)
        ensures
            view.ram() == old(ram)@,
            view.slot_index() == slot,
            final(view.ram)@ == final(ram)@,
    {
        Self { ram, slot }
    }

    pub fn set_angle(&mut self, value: u8)
        requires
            TOWER_SEAL_ORBIT_ANGLE + old(self).slot_index() < old(self).ram().len(),
        ensures
            final(self).ram() == old(self).ram().update(
                TOWER_SEAL_ORBIT_ANGLE + old(self).slot_index(),
                value,
            ),
            final(self).slot_index() == old(self).slot_index(),
            final(final(self).ram)@ == final(old(self).ram)@,
    {
        proof {
            assert(self.ram@.len() == self.ram.len());
        }
        self.ram[TOWER_SEAL_ORBIT_ANGLE + self.slot] = value;
    }

    pub fn advance_angle_mod64(&mut self) -> (result: u8)
        requires
            TOWER_SEAL_ORBIT_ANGLE + old(self).slot_index() < old(self).ram().len(),
        ensures
            result == (old(self).ram()[TOWER_SEAL_ORBIT_ANGLE + old(self).slot_index()].wrapping_add(1) & 0x3fu8),
            final(self).ram() == old(self).ram().update(
                TOWER_SEAL_ORBIT_ANGLE + old(self).slot_index(),
                old(self).ram()[TOWER_SEAL_ORBIT_ANGLE + old(self).slot_index()].wrapping_add(1) & 0x3fu8,
            ),
            final(self).slot_index() == old(self).slot_index(),
            final(final(self).ram)@ == final(old(self).ram)@,
    {
        proof {
            assert(self.ram@.len() == self.ram.len());
        }
        let angle = self.ram[TOWER_SEAL_ORBIT_ANGLE + self.slot].wrapping_add(1) & 0x3f;
        self.ram[TOWER_SEAL_ORBIT_ANGLE + self.slot] = angle;
        angle
    }

    pub fn set_base_sparkle_position(&mut self, x: u16, y: u16)
        requires
            TOWER_SEAL_BASE_SPARKLE_X_LO + old(self).slot_index() < old(self).ram().len(),
            TOWER_SEAL_BASE_SPARKLE_X_HI + old(self).slot_index() < old(self).ram().len(),
            TOWER_SEAL_BASE_SPARKLE_Y_LO + old(self).slot_index() < old(self).ram().len(),
            TOWER_SEAL_BASE_SPARKLE_Y_HI + old(self).slot_index() < old(self).ram().len(),
        ensures
            final(self).ram() == old(self).ram()
                .update(TOWER_SEAL_BASE_SPARKLE_X_LO + old(self).slot_index(), x as u8)
                .update(TOWER_SEAL_BASE_SPARKLE_X_HI + old(self).slot_index(), (x >> 8) as u8)
                .update(TOWER_SEAL_BASE_SPARKLE_Y_LO + old(self).slot_index(), y as u8)
                .update(TOWER_SEAL_BASE_SPARKLE_Y_HI + old(self).slot_index(), (y >> 8) as u8),
            final(self).slot_index() == old(self).slot_index(),
            final(final(self).ram)@ == final(old(self).ram)@,
    {
        proof {
            assert(self.ram@.len() == self.ram.len());
        }
        self.ram[TOWER_SEAL_BASE_SPARKLE_X_LO + self.slot] = x as u8;
        self.ram[TOWER_SEAL_BASE_SPARKLE_X_HI + self.slot] = (x >> 8) as u8;
        self.ram[TOWER_SEAL_BASE_SPARKLE_Y_LO + self.slot] = y as u8;
        self.ram[TOWER_SEAL_BASE_SPARKLE_Y_HI + self.slot] = (y >> 8) as u8;
    }
}

} // verus!
