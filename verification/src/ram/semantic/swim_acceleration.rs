use vstd::prelude::*;
use super::access;
use super::access::{byte, word};
use super::addresses::{
    SWIM_ACCELERATION, SWIM_ACCELERATION_DIRECTION, SWIM_ACCELERATION_MODE, SWIM_MAX_SPEED,
    SWIM_SPEED_ACTIVE_FLAG,
};
use crate::types;
use crate::types::{write_le_u16};

verus! {

pub struct SwimAccelerationView<'a> {
    ram: &'a [u8],
}

impl<'a> SwimAccelerationView<'a> {
    /// The bytes of RAM this view reads and writes.
    pub closed spec fn ram(&self) -> Seq<u8> {
        self.ram@
    }

    pub fn new(ram: &'a [u8]) -> (view: Self)
        ensures
            view.ram() == ram@,
    {
        Self { ram }
    }

    pub fn mode(&self, offset: usize) -> (result: u16)
        requires
            (SWIM_ACCELERATION_MODE + offset) + 1 <= usize::MAX,
        ensures
            result == access::word_at(self.ram(), SWIM_ACCELERATION_MODE + offset),
    {
        word(self.ram, SWIM_ACCELERATION_MODE + offset)
    }

    pub fn mode_low(&self, axis: usize) -> (result: u8)
        requires
            SWIM_ACCELERATION_MODE + (axis * 2) <= usize::MAX,
        ensures
            result == access::byte_at(self.ram(), SWIM_ACCELERATION_MODE + (axis * 2)),
    {
        byte(self.ram, SWIM_ACCELERATION_MODE + axis * 2)
    }

    pub fn speed_active_flag(&self, offset: usize) -> (result: u16)
        requires
            (SWIM_SPEED_ACTIVE_FLAG + offset) + 1 <= usize::MAX,
        ensures
            result == access::word_at(self.ram(), SWIM_SPEED_ACTIVE_FLAG + offset),
    {
        word(self.ram, SWIM_SPEED_ACTIVE_FLAG + offset)
    }

    pub fn max_speed(&self, offset: usize) -> (result: u16)
        requires
            (SWIM_MAX_SPEED + offset) + 1 <= usize::MAX,
        ensures
            result == access::word_at(self.ram(), SWIM_MAX_SPEED + offset),
    {
        word(self.ram, SWIM_MAX_SPEED + offset)
    }

    pub fn acceleration_direction(&self, offset: usize) -> (result: u16)
        requires
            (SWIM_ACCELERATION_DIRECTION + offset) + 1 <= usize::MAX,
        ensures
            result == access::word_at(self.ram(), SWIM_ACCELERATION_DIRECTION + offset),
    {
        word(self.ram, SWIM_ACCELERATION_DIRECTION + offset)
    }

    pub fn acceleration(&self, offset: usize) -> (result: u16)
        requires
            (SWIM_ACCELERATION + offset) + 1 <= usize::MAX,
        ensures
            result == access::word_at(self.ram(), SWIM_ACCELERATION + offset),
    {
        word(self.ram, SWIM_ACCELERATION + offset)
    }

    pub fn has_any_acceleration(&self) -> (result: bool)
        ensures
            result == ((access::word_at(self.ram(), SWIM_ACCELERATION + 0) | access::word_at(self.ram(), SWIM_ACCELERATION + 2)) != 0),
    {
        self.acceleration(0) | self.acceleration(2) != 0
    }
}

pub struct SwimAccelerationViewMut<'a> {
    pub ram: &'a mut [u8],
}

impl<'a> SwimAccelerationViewMut<'a> {
    /// The bytes of RAM this view reads and writes.
    pub open spec fn ram(&self) -> Seq<u8> {
        self.ram@
    }

    pub fn new(ram: &'a mut [u8]) -> (view: Self)
        ensures
            view.ram() == old(ram)@,
            final(view.ram)@ == final(ram)@,
    {
        Self { ram }
    }

    pub fn set_mode(&mut self, offset: usize, value: u16)
        requires
            (SWIM_ACCELERATION_MODE + offset) + 1 < old(self).ram().len(),
        ensures
            final(self).ram() == types::with_u16(
                old(self).ram(),
                SWIM_ACCELERATION_MODE + offset,
                value,
            ),
            final(final(self).ram)@ == final(old(self).ram)@,
    {
        proof {
            assert(self.ram@.len() == self.ram.len());
        }
        write_le_u16(self.ram, SWIM_ACCELERATION_MODE + offset, value);
    }

    pub fn clear_mode_low_axis(&mut self)
        requires
            SWIM_ACCELERATION_MODE + 1 < old(self).ram().len(),
        ensures
            final(self).ram() == types::with_u16(
                old(self).ram(),
                SWIM_ACCELERATION_MODE as int,
                0u16,
            ),
            final(final(self).ram)@ == final(old(self).ram)@,
    {
        write_le_u16(self.ram, SWIM_ACCELERATION_MODE, 0);
    }

    pub fn set_speed_active_flag(&mut self, offset: usize, value: u16)
        requires
            (SWIM_SPEED_ACTIVE_FLAG + offset) + 1 < old(self).ram().len(),
        ensures
            final(self).ram() == types::with_u16(
                old(self).ram(),
                SWIM_SPEED_ACTIVE_FLAG + offset,
                value,
            ),
            final(final(self).ram)@ == final(old(self).ram)@,
    {
        proof {
            assert(self.ram@.len() == self.ram.len());
        }
        write_le_u16(self.ram, SWIM_SPEED_ACTIVE_FLAG + offset, value);
    }

    pub fn set_max_speed(&mut self, offset: usize, value: u16)
        requires
            (SWIM_MAX_SPEED + offset) + 1 < old(self).ram().len(),
        ensures
            final(self).ram() == types::with_u16(old(self).ram(), SWIM_MAX_SPEED + offset, value),
            final(final(self).ram)@ == final(old(self).ram)@,
    {
        proof {
            assert(self.ram@.len() == self.ram.len());
        }
        write_le_u16(self.ram, SWIM_MAX_SPEED + offset, value);
    }

    pub fn set_max_speed_both_axes(&mut self, value: u16)
        requires
            (SWIM_MAX_SPEED + 0) + 1 < old(self).ram().len(),
            (SWIM_MAX_SPEED + 2) + 1 < old(self).ram().len(),
        ensures
            final(self).ram() == types::with_u16(
                types::with_u16(old(self).ram(), SWIM_MAX_SPEED + 0, value),
                SWIM_MAX_SPEED + 2,
                value,
            ),
            final(final(self).ram)@ == final(old(self).ram)@,
    {
        self.set_max_speed(0, value);
        self.set_max_speed(2, value);
    }

    pub fn set_acceleration_direction(&mut self, offset: usize, value: u16)
        requires
            (SWIM_ACCELERATION_DIRECTION + offset) + 1 < old(self).ram().len(),
        ensures
            final(self).ram() == types::with_u16(
                old(self).ram(),
                SWIM_ACCELERATION_DIRECTION + offset,
                value,
            ),
            final(final(self).ram)@ == final(old(self).ram)@,
    {
        proof {
            assert(self.ram@.len() == self.ram.len());
        }
        write_le_u16(self.ram, SWIM_ACCELERATION_DIRECTION + offset, value);
    }

    pub fn set_acceleration(&mut self, offset: usize, value: u16)
        requires
            (SWIM_ACCELERATION + offset) + 1 < old(self).ram().len(),
        ensures
            final(self).ram() == types::with_u16(old(self).ram(), SWIM_ACCELERATION + offset, value),
            final(final(self).ram)@ == final(old(self).ram)@,
    {
        proof {
            assert(self.ram@.len() == self.ram.len());
        }
        write_le_u16(self.ram, SWIM_ACCELERATION + offset, value);
    }

    pub fn clear_axis_motion(&mut self, offset: usize)
        requires
            (SWIM_SPEED_ACTIVE_FLAG + offset) + 1 < old(self).ram().len(),
            (SWIM_ACCELERATION_MODE + offset) + 1 < old(self).ram().len(),
            (SWIM_ACCELERATION + offset) + 1 < old(self).ram().len(),
            (SWIM_MAX_SPEED + offset) + 1 < old(self).ram().len(),
        ensures
            final(self).ram() == types::with_u16(
                types::with_u16(
                    types::with_u16(
                        types::with_u16(
                            old(self).ram(),
                            SWIM_SPEED_ACTIVE_FLAG + offset,
                            0,
                        ),
                        SWIM_ACCELERATION_MODE + offset,
                        0,
                    ),
                    SWIM_ACCELERATION + offset,
                    0,
                ),
                SWIM_MAX_SPEED + offset,
                0,
            ),
            final(final(self).ram)@ == final(old(self).ram)@,
    {
        proof {
            assert(self.ram@.len() == self.ram.len());
        }
        self.set_speed_active_flag(offset, 0);
        self.set_mode(offset, 0);
        self.set_acceleration(offset, 0);
        self.set_max_speed(offset, 0);
    }
}

} // verus!
