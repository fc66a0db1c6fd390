use vstd::prelude::*;
use super::access;
use super::access::{byte};
use super::addresses::{
    TOWER_SEAL_BASE_SPARKLE_X_HI, TOWER_SEAL_BASE_SPARKLE_X_LO, TOWER_SEAL_BASE_SPARKLE_Y_HI,
    TOWER_SEAL_BASE_SPARKLE_Y_LO, TOWER_SEAL_SPARKLE_PHASE, TOWER_SEAL_SPARKLE_TIMER,
    TOWER_SEAL_SPARKLE_X_HI, TOWER_SEAL_SPARKLE_X_LO, TOWER_SEAL_SPARKLE_Y_HI,
    TOWER_SEAL_SPARKLE_Y_LO,
};

verus! {

pub struct TowerSealSparkleView<'a> {
    ram: &'a [u8],
    slot: usize,
}

impl<'a> TowerSealSparkleView<'a> {
    /// The bytes of RAM this view reads and writes.
    pub closed spec fn ram(&self) -> Seq<u8> {
        self.ram@
    }

    /// The slot whose fields this view addresses.
    pub closed spec fn slot_index(&self) -> usize {
        self.slot
    }

    pub fn new(ram: &'a [u8], slot: usize) -> (view: Self)
        ensures
            view.ram() == ram@,
            view.slot_index() == slot,
    {
        Self { ram, slot }
    }

    pub fn phase(&self) -> (result: u8)
        requires
            TOWER_SEAL_SPARKLE_PHASE + self.slot_index() <= usize::MAX,
        ensures
            result == access::byte_at(self.ram(), TOWER_SEAL_SPARKLE_PHASE + self.slot_index()),
    {
        byte(self.ram, TOWER_SEAL_SPARKLE_PHASE + self.slot)
    }

    pub fn is_free(&self) -> (result: bool)
        requires
            TOWER_SEAL_SPARKLE_PHASE + self.slot_index() <= usize::MAX,
        ensures
            result == (access::byte_at(self.ram(), TOWER_SEAL_SPARKLE_PHASE + self.slot_index())
                 == 0xff),
    {
        self.phase() == 0xff
    }

    pub fn x(&self) -> (result: u16)
        requires
            TOWER_SEAL_SPARKLE_X_LO + self.slot_index() <= usize::MAX,
            TOWER_SEAL_SPARKLE_X_HI + self.slot_index() <= usize::MAX,
        ensures
            result == ((access::byte_at(
                  self.ram(),
                  TOWER_SEAL_SPARKLE_X_LO + self.slot_index(),
              ) as u16)
                 | ((access::byte_at(self.ram(), TOWER_SEAL_SPARKLE_X_HI + self.slot_index()) as u16) << 8)),
    {
        byte(self.ram, TOWER_SEAL_SPARKLE_X_LO + self.slot) as u16
            | ((byte(self.ram, TOWER_SEAL_SPARKLE_X_HI + self.slot) as u16) << 8)
    }

    pub fn y(&self) -> (result: u16)
        requires
            TOWER_SEAL_SPARKLE_Y_LO + self.slot_index() <= usize::MAX,
            TOWER_SEAL_SPARKLE_Y_HI + self.slot_index() <= usize::MAX,
        ensures
            result == ((access::byte_at(
                  self.ram(),
                  TOWER_SEAL_SPARKLE_Y_LO + self.slot_index(),
              ) as u16)
                 | ((access::byte_at(self.ram(), TOWER_SEAL_SPARKLE_Y_HI + self.slot_index()) as u16) << 8)),
    {
        byte(self.ram, TOWER_SEAL_SPARKLE_Y_LO + self.slot) as u16
            | ((byte(self.ram, TOWER_SEAL_SPARKLE_Y_HI + self.slot) as u16) << 8)
    }
}

pub struct TowerSealSparkleViewMut<'a> {
    pub ram: &'a mut [u8],
    pub slot: usize,
}

impl<'a> TowerSealSparkleViewMut<'a> {
    /// The bytes of RAM this view reads and writes.
    pub open spec fn ram(&self) -> Seq<u8> {
        self.ram@
    }

    /// The slot whose fields this view addresses.
    pub open spec fn slot_index(&self) -> usize {
        self.slot
    }

    pub fn new(ram: &'a mut [u8], slot: usize) -> (view: Self)
        ensures
            view.ram() == old(ram)@,
            view.slot_index() == slot,
            final(view.ram)@ == final(ram)@,
    {
        Self { ram, slot }
    }

    pub fn set_phase(&mut self, value: u8)
        requires
            TOWER_SEAL_SPARKLE_PHASE + old(self).slot_index() < old(self).ram().len(),
        ensures
            final(self).ram() == old(self).ram().update(
                TOWER_SEAL_SPARKLE_PHASE + old(self).slot_index(),
                value,
            ),
            final(self).slot_index() == old(self).slot_index(),
            final(final(self).ram)@ == final(old(self).ram)@,
    {
        proof {
            assert(self.ram@.len() == self.ram.len());
        }
        self.ram[TOWER_SEAL_SPARKLE_PHASE + self.slot] = value;
    }

    pub fn set_timer(&mut self, value: u8)
        requires
            TOWER_SEAL_SPARKLE_TIMER + old(self).slot_index() < old(self).ram().len(),
        ensures
            final(self).ram() == old(self).ram().update(
                TOWER_SEAL_SPARKLE_TIMER + old(self).slot_index(),
                value,
            ),
            final(self).slot_index() == old(self).slot_index(),
            final(final(self).ram)@ == final(old(self).ram)@,
    {
        proof {
            assert(self.ram@.len() == self.ram.len());
        }
        self.ram[TOWER_SEAL_SPARKLE_TIMER + self.slot] = value;
    }

    pub fn tick_timer(&mut self) -> (result: u8)
        requires
            TOWER_SEAL_SPARKLE_TIMER + old(self).slot_index() < old(self).ram().len(),
        ensures
            result == old(self).ram()[TOWER_SEAL_SPARKLE_TIMER + old(self).slot_index()].wrapping_sub(1),
            final(self).ram() == old(self).ram().update(
                TOWER_SEAL_SPARKLE_TIMER + old(self).slot_index(),
                old(self).ram()[TOWER_SEAL_SPARKLE_TIMER + old(self).slot_index()].wrapping_sub(1),
            ),
            final(self).slot_index() == old(self).slot_index(),
            final(final(self).ram)@ == final(old(self).ram)@,
    {
        proof {
            assert(self.ram@.len() == self.ram.len());
        }
        let timer = self.ram[TOWER_SEAL_SPARKLE_TIMER + self.slot].wrapping_sub(1);
        self.ram[TOWER_SEAL_SPARKLE_TIMER + self.slot] = timer;
        timer
    }

    pub fn advance_phase(&mut self) -> (result: u8)
        requires
            TOWER_SEAL_SPARKLE_PHASE + old(self).slot_index() < old(self).ram().len(),
        ensures
            result == old(self).ram()[TOWER_SEAL_SPARKLE_PHASE + old(self).slot_index()].wrapping_add(1),
            final(self).ram() == old(self).ram().update(
                TOWER_SEAL_SPARKLE_PHASE + old(self).slot_index(),
                old(self).ram()[TOWER_SEAL_SPARKLE_PHASE + old(self).slot_index()].wrapping_add(1),
            ),
            final(self).slot_index() == old(self).slot_index(),
            final(final(self).ram)@ == final(old(self).ram)@,
    {
        proof {
            assert(self.ram@.len() == self.ram.len());
        }
        let phase = self.ram[TOWER_SEAL_SPARKLE_PHASE + self.slot].wrapping_add(1);
        self.ram[TOWER_SEAL_SPARKLE_PHASE + self.slot] = phase;
        phase
    }

    pub fn set_position(&mut self, x: u16, y: u16)
        requires
            TOWER_SEAL_SPARKLE_X_LO + old(self).slot_index() < old(self).ram().len(),
            TOWER_SEAL_SPARKLE_X_HI + old(self).slot_index() < old(self).ram().len(),
            TOWER_SEAL_SPARKLE_Y_LO + old(self).slot_index() < old(self).ram().len(),
            TOWER_SEAL_SPARKLE_Y_HI + old(self).slot_index() < old(self).ram().len(),
        ensures
            final(self).ram() == old(self).ram()
                .update(TOWER_SEAL_SPARKLE_X_LO + old(self).slot_index(), x as u8)
                .update(TOWER_SEAL_SPARKLE_X_HI + old(self).slot_index(), (x >> 8) as u8)
                .update(TOWER_SEAL_SPARKLE_Y_LO + old(self).slot_index(), y as u8)
                .update(TOWER_SEAL_SPARKLE_Y_HI + old(self).slot_index(), (y >> 8) as u8),
            final(self).slot_index() == old(self).slot_index(),
            final(final(self).ram)@ == final(old(self).ram)@,
    {
        proof {
            assert(self.ram@.len() == self.ram.len());
        }
        self.ram[TOWER_SEAL_SPARKLE_X_LO + self.slot] = x as u8;
        self.ram[TOWER_SEAL_SPARKLE_X_HI + self.slot] = (x >> 8) as u8;
        self.ram[TOWER_SEAL_SPARKLE_Y_LO + self.slot] = y as u8;
        self.ram[TOWER_SEAL_SPARKLE_Y_HI + self.slot] = (y >> 8) as u8;
    }

    pub fn base_sparkle_position(&self, base: usize) -> (result: (u16, u16))
        requires
            TOWER_SEAL_BASE_SPARKLE_X_LO + base < self.ram().len(),
            TOWER_SEAL_BASE_SPARKLE_X_HI + base < self.ram().len(),
            TOWER_SEAL_BASE_SPARKLE_Y_LO + base < self.ram().len(),
            TOWER_SEAL_BASE_SPARKLE_Y_HI + base < self.ram().len(),
        ensures
            result == (
                (self.ram()[TOWER_SEAL_BASE_SPARKLE_X_LO + base] as u16)
                    | ((self.ram()[TOWER_SEAL_BASE_SPARKLE_X_HI + base] as u16) << 8),
                (self.ram()[TOWER_SEAL_BASE_SPARKLE_Y_LO + base] as u16)
                    | ((self.ram()[TOWER_SEAL_BASE_SPARKLE_Y_HI + base] as u16) << 8),
            ),
    {
        proof {
            assert(self.ram@.len() == self.ram.len());
        }
        let x = self.ram[TOWER_SEAL_BASE_SPARKLE_X_LO + base] as u16 | ((self.ram[TOWER_SEAL_BASE_SPARKLE_X_HI + base] as u16) << 8);
        let y = self.ram[TOWER_SEAL_BASE_SPARKLE_Y_LO + base] as u16 | ((self.ram[TOWER_SEAL_BASE_SPARKLE_Y_HI + base] as u16) << 8);
        (x, y)
    }
}

} // verus!
