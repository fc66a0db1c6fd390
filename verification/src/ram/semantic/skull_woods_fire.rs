use vstd::prelude::*;
use super::access;
use super::access::{byte};
use super::addresses::{
    SKULL_WOODS_FIRE_PHASE, SKULL_WOODS_FIRE_TIMER, SKULL_WOODS_FIRE_X, SKULL_WOODS_FIRE_Y,
};
use crate::types;
use crate::types::{read_le_u16, write_le_u16};

verus! {

pub struct SkullWoodsFireView<'a> {
    ram: &'a [u8],
    slot: usize,
}

impl<'a> SkullWoodsFireView<'a> {
    /// The bytes of RAM this view reads and writes.
    pub closed spec fn ram(&self) -> Seq<u8> {
        self.ram@
    }

    /// The slot whose fields this view addresses.
    pub closed spec fn slot_index(&self) -> usize {
        self.slot
    }

    pub fn new(ram: &'a [u8], slot: usize) -> (view: Self)
        ensures
            view.ram() == ram@,
            view.slot_index() == slot,
    {
        Self { ram, slot }
    }

    pub fn phase(&self) -> (result: u8)
        requires
            SKULL_WOODS_FIRE_PHASE + self.slot_index() <= usize::MAX,
        ensures
            result == access::byte_at(self.ram(), SKULL_WOODS_FIRE_PHASE + self.slot_index()),
    {
        byte(self.ram, SKULL_WOODS_FIRE_PHASE + self.slot)
    }

    pub fn is_finished(&self) -> (result: bool)
        requires
            SKULL_WOODS_FIRE_PHASE + self.slot_index() <= usize::MAX,
        ensures
            result == ((access::byte_at(self.ram(), SKULL_WOODS_FIRE_PHASE + self.slot_index()) as i8) < 0),
    {
        (self.phase() as i8) < 0
    }

    pub fn x(&self) -> (result: u16)
        requires
            (SKULL_WOODS_FIRE_X + (self.slot_index() * 2)) + 1 < self.ram().len(),
        ensures
            result == types::u16_at(self.ram(), SKULL_WOODS_FIRE_X + (self.slot_index() * 2)),
    {
        proof {
            assert(self.ram@.len() == self.ram.len());
        }
        read_le_u16(self.ram, SKULL_WOODS_FIRE_X + self.slot * 2)
    }

    pub fn y(&self) -> (result: u16)
        requires
            (SKULL_WOODS_FIRE_Y + (self.slot_index() * 2)) + 1 < self.ram().len(),
        ensures
            result == types::u16_at(self.ram(), SKULL_WOODS_FIRE_Y + (self.slot_index() * 2)),
    {
        proof {
            assert(self.ram@.len() == self.ram.len());
        }
        read_le_u16(self.ram, SKULL_WOODS_FIRE_Y + self.slot * 2)
    }
}

pub struct SkullWoodsFireViewMut<'a> {
    pub ram: &'a mut [u8],
    pub slot: usize,
}

impl<'a> SkullWoodsFireViewMut<'a> {
    /// The bytes of RAM this view reads and writes.
    pub open spec fn ram(&self) -> Seq<u8> {
        self.ram@
    }

    /// The slot whose fields this view addresses.
    pub open spec fn slot_index(&self) -> usize {
        self.slot
    }

    pub fn new(ram: &'a mut [u8], slot: usize) -> (view: Self)
        ensures
            view.ram() == old(ram)@,
            view.slot_index() == slot,
            final(view.ram)@ == final(ram)@,
    {
        Self { ram, slot }
    }

    pub fn set_phase(&mut self, value: u8)
        requires
            SKULL_WOODS_FIRE_PHASE + old(self).slot_index() < old(self).ram().len(),
        ensures
            final(self).ram() == old(self).ram().update(
                SKULL_WOODS_FIRE_PHASE + old(self).slot_index(),
                value,
            ),
            final(self).slot_index() == old(self).slot_index(),
            final(final(self).ram)@ == final(old(self).ram)@,
    {
        proof {
            assert(self.ram@.len() == self.ram.len());
        }
        self.ram[SKULL_WOODS_FIRE_PHASE + self.slot] = value;
    }

    pub fn advance_phase(&mut self) -> (result: u8)
        requires
            SKULL_WOODS_FIRE_PHASE + old(self).slot_index() < old(self).ram().len(),
        ensures
            result == old(self).ram()[SKULL_WOODS_FIRE_PHASE + old(self).slot_index()].wrapping_add(1),
            final(self).ram() == old(self).ram().update(
                SKULL_WOODS_FIRE_PHASE + old(self).slot_index(),
                old(self).ram()[SKULL_WOODS_FIRE_PHASE + old(self).slot_index()].wrapping_add(1),
            ),
            final(self).slot_index() == old(self).slot_index(),
            final(final(self).ram)@ == final(old(self).ram)@,
    {
        proof {
            assert(self.ram@.len() == self.ram.len());
        }
        let phase = self.ram[SKULL_WOODS_FIRE_PHASE + self.slot].wrapping_add(1);
        self.ram[SKULL_WOODS_FIRE_PHASE + self.slot] = phase;
        phase
    }

    pub fn set_timer(&mut self, value: u8)
        requires
            SKULL_WOODS_FIRE_TIMER + old(self).slot_index() < old(self).ram().len(),
        ensures
            final(self).ram() == old(self).ram().update(
                SKULL_WOODS_FIRE_TIMER + old(self).slot_index(),
                value,
            ),
            final(self).slot_index() == old(self).slot_index(),
            final(final(self).ram)@ == final(old(self).ram)@,
    {
        proof {
            assert(self.ram@.len() == self.ram.len());
        }
        self.ram[SKULL_WOODS_FIRE_TIMER + self.slot] = value;
    }

    pub fn tick_timer(&mut self) -> (result: u8)
        requires
            SKULL_WOODS_FIRE_TIMER + old(self).slot_index() < old(self).ram().len(),
        ensures
            result == old(self).ram()[SKULL_WOODS_FIRE_TIMER + old(self).slot_index()].wrapping_sub(1),
            final(self).ram() == old(self).ram().update(
                SKULL_WOODS_FIRE_TIMER + old(self).slot_index(),
                old(self).ram()[SKULL_WOODS_FIRE_TIMER + old(self).slot_index()].wrapping_sub(1),
            ),
            final(self).slot_index() == old(self).slot_index(),
            final(final(self).ram)@ == final(old(self).ram)@,
    {
        proof {
            assert(self.ram@.len() == self.ram.len());
        }
        let timer = self.ram[SKULL_WOODS_FIRE_TIMER + self.slot].wrapping_sub(1);
        self.ram[SKULL_WOODS_FIRE_TIMER + self.slot] = timer;
        timer
    }

    pub fn set_position(&mut self, x: u16, y: u16)
        requires
            (SKULL_WOODS_FIRE_X + (old(self).slot_index() * 2)) + 1 < old(self).ram().len(),
            (SKULL_WOODS_FIRE_Y + (old(self).slot_index() * 2)) + 1 < old(self).ram().len(),
        ensures
            final(self).ram() == types::with_u16(
                types::with_u16(
                    old(self).ram(),
                    SKULL_WOODS_FIRE_X + (old(self).slot_index() * 2),
                    x,
                ),
                SKULL_WOODS_FIRE_Y + (old(self).slot_index() * 2),
                y,
            ),
            final(self).slot_index() == old(self).slot_index(),
            final(final(self).ram)@ == final(old(self).ram)@,
    {
        proof {
            assert(self.ram@.len() == self.ram.len());
        }
        write_le_u16(self.ram, SKULL_WOODS_FIRE_X + self.slot * 2, x);
        write_le_u16(self.ram, SKULL_WOODS_FIRE_Y + self.slot * 2, y);
    }
}

} // verus!
