use vstd::prelude::*;
use super::access;
use super::access::{byte, word};
use super::addresses::{
    ACTIVE_OVERLORD_INDEX, GARNISH_ACTIVE, HAUNTED_GROVE_FLUTE_EVENT_LATCH,
    OVERWORLD_BOULDER_TRAP_COUNT, OVERWORLD_BOULDER_TRAP_TIMER, REPULSESPARK_FLOOR_STATUS,
    REPULSESPARK_TIMER, REPULSESPARK_X_LO, REPULSESPARK_Y_LO, SPRCOLL_X_BASE, SPRCOLL_X_SIZE,
    SPRCOLL_Y_BASE, SPRCOLL_Y_SIZE,
};
use crate::types;
use crate::types::{write_le_u16};

verus! {

pub struct GarnishStateView<'a> {
    ram: &'a [u8],
}

impl<'a> GarnishStateView<'a> {
    /// The bytes of RAM this view reads and writes.
    pub closed spec fn ram(&self) -> Seq<u8> {
        self.ram@
    }

    pub fn new(ram: &'a [u8]) -> (view: Self)
        ensures
            view.ram() == ram@,
    {
        Self { ram }
    }

    pub fn active_type(&self) -> (result: u8)
        ensures
            result == access::byte_at(self.ram(), GARNISH_ACTIVE as int),
    {
        byte(self.ram, GARNISH_ACTIVE)
    }

    pub fn boulder_trap_count(&self) -> (result: u8)
        ensures
            result == access::byte_at(self.ram(), OVERWORLD_BOULDER_TRAP_COUNT as int),
    {
        byte(self.ram, OVERWORLD_BOULDER_TRAP_COUNT)
    }

    pub fn boulder_trap_timer(&self) -> (result: u8)
        ensures
            result == access::byte_at(self.ram(), OVERWORLD_BOULDER_TRAP_TIMER as int),
    {
        byte(self.ram, OVERWORLD_BOULDER_TRAP_TIMER)
    }

    pub fn sprcoll_y_hi(&self) -> (result: u8)
        ensures
            result == access::byte_at(self.ram(), SPRCOLL_Y_BASE + 1),
    {
        byte(self.ram, SPRCOLL_Y_BASE + 1)
    }

    pub fn sprcoll_x_word(&self) -> (result: u16)
        ensures
            result == access::word_at(self.ram(), SPRCOLL_X_BASE as int),
    {
        word(self.ram, SPRCOLL_X_BASE)
    }

    pub fn sprcoll_y_word(&self) -> (result: u16)
        ensures
            result == access::word_at(self.ram(), SPRCOLL_Y_BASE as int),
    {
        word(self.ram, SPRCOLL_Y_BASE)
    }

    pub fn active_overlord_index(&self) -> (result: u8)
        ensures
            result == access::byte_at(self.ram(), ACTIVE_OVERLORD_INDEX as int),
    {
        byte(self.ram, ACTIVE_OVERLORD_INDEX)
    }

    pub fn haunted_grove_flute_event_latch(&self) -> (result: u8)
        ensures
            result == access::byte_at(self.ram(), HAUNTED_GROVE_FLUTE_EVENT_LATCH as int),
    {
        byte(self.ram, HAUNTED_GROVE_FLUTE_EVENT_LATCH)
    }

    pub fn repulsespark_timer(&self) -> (result: u8)
        ensures
            result == access::byte_at(self.ram(), REPULSESPARK_TIMER as int),
    {
        byte(self.ram, REPULSESPARK_TIMER)
    }

    pub fn sprcoll_x_size(&self) -> (result: u16)
        ensures
            result == access::word_at(self.ram(), SPRCOLL_X_SIZE as int),
    {
        word(self.ram, SPRCOLL_X_SIZE)
    }

    pub fn sprcoll_y_size(&self) -> (result: u16)
        ensures
            result == access::word_at(self.ram(), SPRCOLL_Y_SIZE as int),
    {
        word(self.ram, SPRCOLL_Y_SIZE)
    }
}

pub struct GarnishStateViewMut<'a> {
    pub ram: &'a mut [u8],
}

impl<'a> GarnishStateViewMut<'a> {
    /// The bytes of RAM this view reads and writes.
    pub open spec fn ram(&self) -> Seq<u8> {
        self.ram@
    }

    pub fn new(ram: &'a mut [u8]) -> (view: Self)
        ensures
            view.ram() == old(ram)@,
            final(view.ram)@ == final(ram)@,
    {
        Self { ram }
    }

    pub fn set_active_type(&mut self, value: u8)
        requires
            GARNISH_ACTIVE < old(self).ram().len(),
        ensures
            final(self).ram() == old(self).ram().update(GARNISH_ACTIVE as int, value),
            final(final(self).ram)@ == final(old(self).ram)@,
    {
        self.ram[GARNISH_ACTIVE] = value;
    }

    pub fn clear_active_type(&mut self)
        requires
            GARNISH_ACTIVE < old(self).ram().len(),
        ensures
            final(self).ram() == old(self).ram().update(GARNISH_ACTIVE as int, 0u8),
            final(final(self).ram)@ == final(old(self).ram)@,
    {
        self.ram[GARNISH_ACTIVE] = 0;
    }

    pub fn increment_boulder_trap_timer(&mut self) -> (result: u8)
        requires
            OVERWORLD_BOULDER_TRAP_TIMER < old(self).ram().len(),
        ensures
            result == old(self).ram()[OVERWORLD_BOULDER_TRAP_TIMER as int].wrapping_add(1),
            final(self).ram() == old(self).ram().update(
                OVERWORLD_BOULDER_TRAP_TIMER as int,
                old(self).ram()[OVERWORLD_BOULDER_TRAP_TIMER as int].wrapping_add(1),
            ),
            final(final(self).ram)@ == final(old(self).ram)@,
    {
        let val = self.ram[OVERWORLD_BOULDER_TRAP_TIMER].wrapping_add(1);
        self.ram[OVERWORLD_BOULDER_TRAP_TIMER] = val;
        val
    }

    pub fn set_active_overlord_index(&mut self, value: u8)
        requires
            ACTIVE_OVERLORD_INDEX < old(self).ram().len(),
        ensures
            final(self).ram() == old(self).ram().update(ACTIVE_OVERLORD_INDEX as int, value),
            final(final(self).ram)@ == final(old(self).ram)@,
    {
        self.ram[ACTIVE_OVERLORD_INDEX] = value;
    }

    pub fn increment_haunted_grove_flute_event_latch(&mut self)
        requires
            HAUNTED_GROVE_FLUTE_EVENT_LATCH < old(self).ram().len(),
        ensures
            final(self).ram() == old(self).ram().update(
                HAUNTED_GROVE_FLUTE_EVENT_LATCH as int,
                old(self).ram()[HAUNTED_GROVE_FLUTE_EVENT_LATCH as int].wrapping_add(1),
            ),
            final(final(self).ram)@ == final(old(self).ram)@,
    {
        self.ram[HAUNTED_GROVE_FLUTE_EVENT_LATCH] = self.ram[HAUNTED_GROVE_FLUTE_EVENT_LATCH].wrapping_add(1);
    }

    pub fn set_repulsespark_timer(&mut self, value: u8)
        requires
            REPULSESPARK_TIMER < old(self).ram().len(),
        ensures
            final(self).ram() == old(self).ram().update(REPULSESPARK_TIMER as int, value),
            final(final(self).ram)@ == final(old(self).ram)@,
    {
        self.ram[REPULSESPARK_TIMER] = value;
    }

    pub fn set_repulsespark_x_lo(&mut self, value: u8)
        requires
            REPULSESPARK_X_LO < old(self).ram().len(),
        ensures
            final(self).ram() == old(self).ram().update(REPULSESPARK_X_LO as int, value),
            final(final(self).ram)@ == final(old(self).ram)@,
    {
        self.ram[REPULSESPARK_X_LO] = value;
    }

    pub fn set_repulsespark_y_lo(&mut self, value: u8)
        requires
            REPULSESPARK_Y_LO < old(self).ram().len(),
        ensures
            final(self).ram() == old(self).ram().update(REPULSESPARK_Y_LO as int, value),
            final(final(self).ram)@ == final(old(self).ram)@,
    {
        self.ram[REPULSESPARK_Y_LO] = value;
    }

    pub fn set_sprcoll_x_size(&mut self, value: u16)
        requires
            SPRCOLL_X_SIZE + 1 < old(self).ram().len(),
        ensures
            final(self).ram() == types::with_u16(old(self).ram(), SPRCOLL_X_SIZE as int, value),
            final(final(self).ram)@ == final(old(self).ram)@,
    {
        write_le_u16(self.ram, SPRCOLL_X_SIZE, value);
    }

    pub fn set_sprcoll_y_size(&mut self, value: u16)
        requires
            SPRCOLL_Y_SIZE + 1 < old(self).ram().len(),
        ensures
            final(self).ram() == types::with_u16(old(self).ram(), SPRCOLL_Y_SIZE as int, value),
            final(final(self).ram)@ == final(old(self).ram)@,
    {
        write_le_u16(self.ram, SPRCOLL_Y_SIZE, value);
    }

    pub fn set_sprcoll_x_base(&mut self, value: u16)
        requires
            SPRCOLL_X_BASE + 1 < old(self).ram().len(),
        ensures
            final(self).ram() == types::with_u16(old(self).ram(), SPRCOLL_X_BASE as int, value),
            final(final(self).ram)@ == final(old(self).ram)@,
    {
        write_le_u16(self.ram, SPRCOLL_X_BASE, value);
    }

    pub fn set_sprcoll_y_base(&mut self, value: u16)
        requires
            SPRCOLL_Y_BASE + 1 < old(self).ram().len(),
        ensures
            final(self).ram() == types::with_u16(old(self).ram(), SPRCOLL_Y_BASE as int, value),
            final(final(self).ram)@ == final(old(self).ram)@,
    {
        write_le_u16(self.ram, SPRCOLL_Y_BASE, value);
    }

    pub fn set_repulsespark_floor_status(&mut self, value: u8)
        requires
            REPULSESPARK_FLOOR_STATUS < old(self).ram().len(),
        ensures
            final(self).ram() == old(self).ram().update(REPULSESPARK_FLOOR_STATUS as int, value),
            final(final(self).ram)@ == final(old(self).ram)@,
    {
        self.ram[REPULSESPARK_FLOOR_STATUS] = value;
    }

    pub fn clear_boulder_trap_count(&mut self)
        requires
            OVERWORLD_BOULDER_TRAP_COUNT < old(self).ram().len(),
        ensures
            final(self).ram() == old(self).ram().update(OVERWORLD_BOULDER_TRAP_COUNT as int, 0u8),
            final(final(self).ram)@ == final(old(self).ram)@,
    {
        self.ram[OVERWORLD_BOULDER_TRAP_COUNT] = 0;
    }

    pub fn increment_boulder_trap_count(&mut self)
        requires
            OVERWORLD_BOULDER_TRAP_COUNT < old(self).ram().len(),
        ensures
            final(self).ram() == old(self).ram().update(
                OVERWORLD_BOULDER_TRAP_COUNT as int,
                old(self).ram()[OVERWORLD_BOULDER_TRAP_COUNT as int].wrapping_add(1),
            ),
            final(final(self).ram)@ == final(old(self).ram)@,
    {
        self.ram[OVERWORLD_BOULDER_TRAP_COUNT] = self.ram[OVERWORLD_BOULDER_TRAP_COUNT].wrapping_add(1);
    }

    pub fn clear_haunted_grove_flute_event_latch(&mut self)
        requires
            HAUNTED_GROVE_FLUTE_EVENT_LATCH < old(self).ram().len(),
        ensures
            final(self).ram() == old(self).ram().update(
                HAUNTED_GROVE_FLUTE_EVENT_LATCH as int,
                0u8,
            ),
            final(final(self).ram)@ == final(old(self).ram)@,
    {
        self.ram[HAUNTED_GROVE_FLUTE_EVENT_LATCH] = 0;
    }
}

} // verus!
