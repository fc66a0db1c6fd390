use vstd::prelude::*;
use super::access;
use super::access::{byte};
use super::addresses::{BLAST_WALL_FIREBALL_TIMER};

verus! {

pub struct BlastWallFireballView<'a> {
    ram: &'a [u8],
    slot: usize,
}

impl<'a> BlastWallFireballView<'a> {
    /// The bytes of RAM this view reads and writes.
    pub closed spec fn ram(&self) -> Seq<u8> {
        self.ram@
    }

    /// The slot whose fields this view addresses.
    pub closed spec fn slot_index(&self) -> usize {
        self.slot
    }

    pub fn new(ram: &'a [u8], slot: usize) -> (view: Self)
        ensures
            view.ram() == ram@,
            view.slot_index() == slot,
    {
        Self { ram, slot }
    }

    pub fn timer(&self) -> (result: u8)
        requires
            BLAST_WALL_FIREBALL_TIMER + self.slot_index() <= usize::MAX,
        ensures
            result == access::byte_at(self.ram(), BLAST_WALL_FIREBALL_TIMER + self.slot_index()),
    {
        byte(self.ram, BLAST_WALL_FIREBALL_TIMER + self.slot)
    }
}

pub struct BlastWallFireballViewMut<'a> {
    pub ram: &'a mut [u8],
    pub slot: usize,
}

impl<'a> BlastWallFireballViewMut<'a> {
    /// The bytes of RAM this view reads and writes.
    pub open spec fn ram(&self) -> Seq<u8> {
        self.ram@
    }

    /// The slot whose fields this view addresses.
    pub open spec fn slot_index(&self) -> usize {
        self.slot
    }

    pub fn new(ram: &'a mut [u8], slot: usize) -> (view: Self)
        ensures
            view.ram() == old(ram)@,
            view.slot_index() == slot,
            final(view.ram)@ == final(ram)@,
    {
        Self { ram, slot }
    }

    pub fn set_timer(&mut self, value: u8)
        requires
            BLAST_WALL_FIREBALL_TIMER + old(self).slot_index() < old(self).ram().len(),
        ensures
            final(self).ram() == old(self).ram().update(
                BLAST_WALL_FIREBALL_TIMER + old(self).slot_index(),
                value,
            ),
            final(self).slot_index() == old(self).slot_index(),
            final(final(self).ram)@ == final(old(self).ram)@,
    {
        proof {
            assert(self.ram@.len() == self.ram.len());
        }
        self.ram[BLAST_WALL_FIREBALL_TIMER + self.slot] = value;
    }

    pub fn tick_timer(&mut self) -> (result: u8)
        requires
            BLAST_WALL_FIREBALL_TIMER + old(self).slot_index() < old(self).ram().len(),
        ensures
            result == old(self).ram()[BLAST_WALL_FIREBALL_TIMER + old(self).slot_index()].wrapping_sub(1),
            final(self).ram() == old(self).ram().update(
                BLAST_WALL_FIREBALL_TIMER + old(self).slot_index(),
                old(self).ram()[BLAST_WALL_FIREBALL_TIMER + old(self).slot_index()].wrapping_sub(1),
            ),
            final(self).slot_index() == old(self).slot_index(),
            final(final(self).ram)@ == final(old(self).ram)@,
    {
        proof {
            assert(self.ram@.len() == self.ram.len());
        }
        let timer = self.ram[BLAST_WALL_FIREBALL_TIMER + self.slot].wrapping_sub(1);
        self.ram[BLAST_WALL_FIREBALL_TIMER + self.slot] = timer;
        timer
    }
}

} // verus!
