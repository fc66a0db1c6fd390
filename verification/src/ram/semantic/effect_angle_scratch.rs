use vstd::prelude::*;
use super::access;
use super::access::{byte};
use super::addresses::{EFFECT_ANGLE_SCRATCH};

verus! {

pub struct EffectAngleScratchView<'a> {
    ram: &'a [u8],
}

impl<'a> EffectAngleScratchView<'a> {
    /// The bytes of RAM this view reads and writes.
    pub closed spec fn ram(&self) -> Seq<u8> {
        self.ram@
    }

    pub fn new(ram: &'a [u8]) -> (view: Self)
        ensures
            view.ram() == ram@,
    {
        Self { ram }
    }

    pub fn angle(&self, slot: usize) -> (result: u8)
        requires
            EFFECT_ANGLE_SCRATCH + slot <= usize::MAX,
        ensures
            result == access::byte_at(self.ram(), EFFECT_ANGLE_SCRATCH + slot),
    {
        byte(self.ram, EFFECT_ANGLE_SCRATCH + slot)
    }

    pub fn trailing_angle(&self) -> (result: u8)
        ensures
            result == access::byte_at(self.ram(), EFFECT_ANGLE_SCRATCH + 4),
    {
        byte(self.ram, EFFECT_ANGLE_SCRATCH + 4)
    }

    pub fn radial_radius(&self) -> (result: u8)
        ensures
            result == access::byte_at(self.ram(), EFFECT_ANGLE_SCRATCH + 8),
    {
        byte(self.ram, EFFECT_ANGLE_SCRATCH + 8)
    }
}

pub struct EffectAngleScratchViewMut<'a> {
    pub ram: &'a mut [u8],
}

impl<'a> EffectAngleScratchViewMut<'a> {
    /// The bytes of RAM this view reads and writes.
    pub open spec fn ram(&self) -> Seq<u8> {
        self.ram@
    }

    pub fn new(ram: &'a mut [u8]) -> (view: Self)
        ensures
            view.ram() == old(ram)@,
            final(view.ram)@ == final(ram)@,
    {
        Self { ram }
    }

    pub fn set_angle(&mut self, slot: usize, value: u8)
        requires
            EFFECT_ANGLE_SCRATCH + slot < old(self).ram().len(),
        ensures
            final(self).ram() == old(self).ram().update(EFFECT_ANGLE_SCRATCH + slot, value),
            final(final(self).ram)@ == final(old(self).ram)@,
    {
        proof {
            assert(self.ram@.len() == self.ram.len());
        }
        self.ram[EFFECT_ANGLE_SCRATCH + slot] = value;
    }

    pub fn set_angles4(&mut self, values: &[u8], start: usize)
        requires
            start < values@.len(),
            EFFECT_ANGLE_SCRATCH + 0 < old(self).ram().len(),
            start + 1 <= usize::MAX,
            start + 1 < values@.len(),
            EFFECT_ANGLE_SCRATCH + 1 < old(self).ram().len(),
            start + 2 <= usize::MAX,
            start + 2 < values@.len(),
            EFFECT_ANGLE_SCRATCH + 2 < old(self).ram().len(),
            start + 3 <= usize::MAX,
            start + 3 < values@.len(),
            EFFECT_ANGLE_SCRATCH + 3 < old(self).ram().len(),
        ensures
            final(self).ram() == old(self).ram()
                .update(EFFECT_ANGLE_SCRATCH + 0, values@[start as int])
                .update(EFFECT_ANGLE_SCRATCH + 1, values@[start + 1])
                .update(EFFECT_ANGLE_SCRATCH + 2, values@[start + 2])
                .update(EFFECT_ANGLE_SCRATCH + 3, values@[start + 3]),
            final(final(self).ram)@ == final(old(self).ram)@,
    {
        self.set_angle(0, values[start]);
        self.set_angle(1, values[start + 1]);
        self.set_angle(2, values[start + 2]);
        self.set_angle(3, values[start + 3]);
    }

    pub fn add_angle_mod64(&mut self, slot: usize, value: u8) -> (result: u8)
        requires
            EFFECT_ANGLE_SCRATCH + slot < old(self).ram().len(),
        ensures
            result == (old(self).ram()[EFFECT_ANGLE_SCRATCH + slot].wrapping_add(value) & 0x3fu8),
            final(self).ram() == old(self).ram().update(
                EFFECT_ANGLE_SCRATCH + slot,
                old(self).ram()[EFFECT_ANGLE_SCRATCH + slot].wrapping_add(value) & 0x3fu8,
            ),
            final(final(self).ram)@ == final(old(self).ram)@,
    {
        proof {
            assert(self.ram@.len() == self.ram.len());
        }
        let angle = self.ram[EFFECT_ANGLE_SCRATCH + slot].wrapping_add(value) & 0x3f;
        self.ram[EFFECT_ANGLE_SCRATCH + slot] = angle;
        angle
    }

    pub fn set_trailing_angle(&mut self, value: u8)
        requires
            EFFECT_ANGLE_SCRATCH + 4 < old(self).ram().len(),
        ensures
            final(self).ram() == old(self).ram().update(EFFECT_ANGLE_SCRATCH + 4, value),
            final(final(self).ram)@ == final(old(self).ram)@,
    {
        self.ram[EFFECT_ANGLE_SCRATCH + 4] = value;
    }

    pub fn add_trailing_angle_mod64(&mut self, value: u8) -> (result: u8)
        requires
            EFFECT_ANGLE_SCRATCH + 4 < old(self).ram().len(),
        ensures
            result == (old(self).ram()[EFFECT_ANGLE_SCRATCH + 4].wrapping_add(value) & 0x3fu8),
            final(self).ram() == old(self).ram().update(
                EFFECT_ANGLE_SCRATCH + 4,
                old(self).ram()[EFFECT_ANGLE_SCRATCH + 4].wrapping_add(value) & 0x3fu8,
            ),
            final(final(self).ram)@ == final(old(self).ram)@,
    {
        let angle = self.ram[EFFECT_ANGLE_SCRATCH + 4].wrapping_add(value) & 0x3f;
        self.ram[EFFECT_ANGLE_SCRATCH + 4] = angle;
        angle
    }

    pub fn set_radial_radius(&mut self, value: u8)
        requires
            EFFECT_ANGLE_SCRATCH + 8 < old(self).ram().len(),
        ensures
            final(self).ram() == old(self).ram().update(EFFECT_ANGLE_SCRATCH + 8, value),
            final(final(self).ram)@ == final(old(self).ram)@,
    {
        self.ram[EFFECT_ANGLE_SCRATCH + 8] = value;
    }
}

} // verus!
