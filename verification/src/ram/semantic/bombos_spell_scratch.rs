use vstd::prelude::*;
use super::access;
use super::access::{byte};
use super::addresses::{
    BOMBOS_BLAST_RELEASE_COUNTDOWN, BOMBOS_BLAST_RELEASE_LOCKED, BOMBOS_BLAST_X, BOMBOS_BLAST_Y,
    BOMBOS_FIRE_COLUMN_RADIUS, BOMBOS_FIRE_COLUMN_SEED_X, BOMBOS_FIRE_COLUMN_SEED_Y, BOMBOS_MODE,
};
use crate::types;
use crate::types::{read_le_u16, write_le_u16};

verus! {

pub struct BombosSpellScratchView<'a> {
    ram: &'a [u8],
}

impl<'a> BombosSpellScratchView<'a> {
    /// The bytes of RAM this view reads and writes.
    pub closed spec fn ram(&self) -> Seq<u8> {
        self.ram@
    }

    pub fn new(ram: &'a [u8]) -> (view: Self)
        ensures
            view.ram() == ram@,
    {
        Self { ram }
    }

    pub fn mode(&self) -> (result: u8)
        ensures
            result == access::byte_at(self.ram(), BOMBOS_MODE as int),
    {
        byte(self.ram, BOMBOS_MODE)
    }

    pub fn fire_column_radius(&self) -> (result: u8)
        ensures
            result == access::byte_at(self.ram(), BOMBOS_FIRE_COLUMN_RADIUS as int),
    {
        byte(self.ram, BOMBOS_FIRE_COLUMN_RADIUS)
    }

    pub fn blast_release_locked(&self) -> (result: bool)
        ensures
            result == (access::byte_at(self.ram(), BOMBOS_BLAST_RELEASE_LOCKED as int) != 0),
    {
        byte(self.ram, BOMBOS_BLAST_RELEASE_LOCKED) != 0
    }

    pub fn fire_column_seed_x(&self, slot: usize) -> (result: u16)
        requires
            (BOMBOS_FIRE_COLUMN_SEED_X + (slot * 2)) + 1 < self.ram().len(),
        ensures
            result == types::u16_at(self.ram(), BOMBOS_FIRE_COLUMN_SEED_X + (slot * 2)),
    {
        proof {
            assert(self.ram@.len() == self.ram.len());
        }
        read_le_u16(self.ram, BOMBOS_FIRE_COLUMN_SEED_X + slot * 2)
    }

    pub fn fire_column_seed_y(&self, slot: usize) -> (result: u16)
        requires
            (BOMBOS_FIRE_COLUMN_SEED_Y + (slot * 2)) + 1 < self.ram().len(),
        ensures
            result == types::u16_at(self.ram(), BOMBOS_FIRE_COLUMN_SEED_Y + (slot * 2)),
    {
        proof {
            assert(self.ram@.len() == self.ram.len());
        }
        read_le_u16(self.ram, BOMBOS_FIRE_COLUMN_SEED_Y + slot * 2)
    }

    pub fn blast_x(&self, slot: usize) -> (result: u16)
        requires
            (BOMBOS_BLAST_X + (slot * 2)) + 1 < self.ram().len(),
        ensures
            result == types::u16_at(self.ram(), BOMBOS_BLAST_X + (slot * 2)),
    {
        proof {
            assert(self.ram@.len() == self.ram.len());
        }
        read_le_u16(self.ram, BOMBOS_BLAST_X + slot * 2)
    }

    pub fn blast_y(&self, slot: usize) -> (result: u16)
        requires
            (BOMBOS_BLAST_Y + (slot * 2)) + 1 < self.ram().len(),
        ensures
            result == types::u16_at(self.ram(), BOMBOS_BLAST_Y + (slot * 2)),
    {
        proof {
            assert(self.ram@.len() == self.ram.len());
        }
        read_le_u16(self.ram, BOMBOS_BLAST_Y + slot * 2)
    }
}

pub struct BombosSpellScratchViewMut<'a> {
    pub ram: &'a mut [u8],
}

impl<'a> BombosSpellScratchViewMut<'a> {
    /// The bytes of RAM this view reads and writes.
    pub open spec fn ram(&self) -> Seq<u8> {
        self.ram@
    }

    pub fn new(ram: &'a mut [u8]) -> (view: Self)
        ensures
            view.ram() == old(ram)@,
            final(view.ram)@ == final(ram)@,
    {
        Self { ram }
    }

    pub fn set_mode(&mut self, value: u8)
        requires
            BOMBOS_MODE < old(self).ram().len(),
        ensures
            final(self).ram() == old(self).ram().update(BOMBOS_MODE as int, value),
            final(final(self).ram)@ == final(old(self).ram)@,
    {
        self.ram[BOMBOS_MODE] = value;
    }

    pub fn set_fire_column_radius(&mut self, value: u8)
        requires
            BOMBOS_FIRE_COLUMN_RADIUS < old(self).ram().len(),
        ensures
            final(self).ram() == old(self).ram().update(BOMBOS_FIRE_COLUMN_RADIUS as int, value),
            final(final(self).ram)@ == final(old(self).ram)@,
    {
        self.ram[BOMBOS_FIRE_COLUMN_RADIUS] = value;
    }

    pub fn grow_fire_column_radius(&mut self, value: u8, limit: u8) -> (result: u8)
        requires
            BOMBOS_FIRE_COLUMN_RADIUS < old(self).ram().len(),
        ensures
            result == (if old(self).ram()[BOMBOS_FIRE_COLUMN_RADIUS as int].wrapping_add(value) >= limit {
                limit
            } else {
                old(self).ram()[BOMBOS_FIRE_COLUMN_RADIUS as int].wrapping_add(value)
            }),
            final(self).ram() == old(self).ram().update(
                BOMBOS_FIRE_COLUMN_RADIUS as int,
                if old(self).ram()[BOMBOS_FIRE_COLUMN_RADIUS as int].wrapping_add(value) >= limit {
                    limit
                } else {
                    old(self).ram()[BOMBOS_FIRE_COLUMN_RADIUS as int].wrapping_add(value)
                },
            ),
            final(final(self).ram)@ == final(old(self).ram)@,
    {
        let next = self.ram[BOMBOS_FIRE_COLUMN_RADIUS].wrapping_add(value);
        let radius = if next >= limit {
            limit
        } else {
            next
        };
        self.ram[BOMBOS_FIRE_COLUMN_RADIUS] = radius;
        radius
    }

    pub fn set_blast_release_locked(&mut self, value: bool)
        requires
            BOMBOS_BLAST_RELEASE_LOCKED < old(self).ram().len(),
        ensures
            final(self).ram() == old(self).ram().update(
                BOMBOS_BLAST_RELEASE_LOCKED as int,
                if value { 1u8 } else { 0u8 },
            ),
            final(final(self).ram)@ == final(old(self).ram)@,
    {
        self.ram[BOMBOS_BLAST_RELEASE_LOCKED] = if value { 1 } else { 0 };
    }

    pub fn set_blast_release_countdown(&mut self, value: u8)
        requires
            BOMBOS_BLAST_RELEASE_COUNTDOWN < old(self).ram().len(),
        ensures
            final(self).ram() == old(self).ram().update(
                BOMBOS_BLAST_RELEASE_COUNTDOWN as int,
                value,
            ),
            final(final(self).ram)@ == final(old(self).ram)@,
    {
        self.ram[BOMBOS_BLAST_RELEASE_COUNTDOWN] = value;
    }

    pub fn tick_blast_release_countdown(&mut self) -> (result: u8)
        requires
            BOMBOS_BLAST_RELEASE_COUNTDOWN < old(self).ram().len(),
        ensures
            result == old(self).ram()[BOMBOS_BLAST_RELEASE_COUNTDOWN as int].wrapping_sub(1),
            final(self).ram() == old(self).ram().update(
                BOMBOS_BLAST_RELEASE_COUNTDOWN as int,
                old(self).ram()[BOMBOS_BLAST_RELEASE_COUNTDOWN as int].wrapping_sub(1),
            ),
            final(final(self).ram)@ == final(old(self).ram)@,
    {
        let value = self.ram[BOMBOS_BLAST_RELEASE_COUNTDOWN].wrapping_sub(1);
        self.ram[BOMBOS_BLAST_RELEASE_COUNTDOWN] = value;
        value
    }

    pub fn set_fire_column_seed_position(&mut self, slot: usize, x: u16, y: u16)
        requires
            (BOMBOS_FIRE_COLUMN_SEED_X + (slot * 2)) + 1 < old(self).ram().len(),
            (BOMBOS_FIRE_COLUMN_SEED_Y + (slot * 2)) + 1 < old(self).ram().len(),
        ensures
            final(self).ram() == types::with_u16(
                types::with_u16(
                    old(self).ram(),
                    BOMBOS_FIRE_COLUMN_SEED_X + (slot * 2),
                    x,
                ),
                BOMBOS_FIRE_COLUMN_SEED_Y + (slot * 2),
                y,
            ),
            final(final(self).ram)@ == final(old(self).ram)@,
    {
        proof {
            assert(self.ram@.len() == self.ram.len());
        }
        write_le_u16(self.ram, BOMBOS_FIRE_COLUMN_SEED_X + slot * 2, x);
        write_le_u16(self.ram, BOMBOS_FIRE_COLUMN_SEED_Y + slot * 2, y);
    }

    pub fn set_blast_position(&mut self, slot: usize, x: u16, y: u16)
        requires
            (BOMBOS_BLAST_X + (slot * 2)) + 1 < old(self).ram().len(),
            (BOMBOS_BLAST_Y + (slot * 2)) + 1 < old(self).ram().len(),
        ensures
            final(self).ram() == types::with_u16(
                types::with_u16(
                    old(self).ram(),
                    BOMBOS_BLAST_X + (slot * 2),
                    x,
                ),
                BOMBOS_BLAST_Y + (slot * 2),
                y,
            ),
            final(final(self).ram)@ == final(old(self).ram)@,
    {
        proof {
            assert(self.ram@.len() == self.ram.len());
        }
        write_le_u16(self.ram, BOMBOS_BLAST_X + slot * 2, x);
        write_le_u16(self.ram, BOMBOS_BLAST_Y + slot * 2, y);
    }
}

} // verus!
