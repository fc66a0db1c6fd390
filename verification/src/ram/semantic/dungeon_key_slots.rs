use vstd::prelude::*;
use super::access;
use super::access::{byte};
use super::addresses::{LINK_KEYS_EARNED_PER_DUNGEON};

verus! {

pub struct DungeonKeySlotsView<'a> {
    ram: &'a [u8],
}

impl<'a> DungeonKeySlotsView<'a> {
    /// The bytes of RAM this view reads and writes.
    pub closed spec fn ram(&self) -> Seq<u8> {
        self.ram@
    }

    pub fn new(ram: &'a [u8]) -> (view: Self)
        ensures
            view.ram() == ram@,
    {
        Self { ram }
    }

    pub fn keys_earned(&self, palace_index_x2: u8) -> (result: u8)
        requires
            LINK_KEYS_EARNED_PER_DUNGEON + ((palace_index_x2 >> 1) as usize) <= usize::MAX,
        ensures
            result == access::byte_at(
                self.ram(),
                LINK_KEYS_EARNED_PER_DUNGEON + ((palace_index_x2 >> 1) as usize),
            ),
    {
        byte(self.ram, LINK_KEYS_EARNED_PER_DUNGEON + (palace_index_x2 >> 1) as usize)
    }

    pub fn keys_earned_slot(&self, slot: usize) -> (result: u8)
        requires
            LINK_KEYS_EARNED_PER_DUNGEON + slot <= usize::MAX,
        ensures
            result == access::byte_at(self.ram(), LINK_KEYS_EARNED_PER_DUNGEON + slot),
    {
        byte(self.ram, LINK_KEYS_EARNED_PER_DUNGEON + slot)
    }
}

pub struct DungeonKeySlotsViewMut<'a> {
    pub ram: &'a mut [u8],
}

impl<'a> DungeonKeySlotsViewMut<'a> {
    /// The bytes of RAM this view reads and writes.
    pub open spec fn ram(&self) -> Seq<u8> {
        self.ram@
    }

    pub fn new(ram: &'a mut [u8]) -> (view: Self)
        ensures
            view.ram() == old(ram)@,
            final(view.ram)@ == final(ram)@,
    {
        Self { ram }
    }

    pub fn set_keys_earned(&mut self, palace_index_x2: u8, keys: u8)
        requires
            LINK_KEYS_EARNED_PER_DUNGEON + ((palace_index_x2 >> 1) as usize) < old(self).ram()
                .len(),
        ensures
            final(self).ram() == old(self).ram().update(
                LINK_KEYS_EARNED_PER_DUNGEON + ((palace_index_x2 >> 1) as usize),
                keys,
            ),
            final(final(self).ram)@ == final(old(self).ram)@,
    {
        proof {
            assert(self.ram@.len() == self.ram.len());
        }
        self.ram[LINK_KEYS_EARNED_PER_DUNGEON + (palace_index_x2 >> 1) as usize] = keys;
    }

    pub fn set_keys_earned_slot(&mut self, slot: usize, keys: u8)
        requires
            LINK_KEYS_EARNED_PER_DUNGEON + slot < old(self).ram().len(),
        ensures
            final(self).ram() == old(self).ram().update(LINK_KEYS_EARNED_PER_DUNGEON + slot, keys),
            final(final(self).ram)@ == final(old(self).ram)@,
    {
        proof {
            assert(self.ram@.len() == self.ram.len());
        }
        self.ram[LINK_KEYS_EARNED_PER_DUNGEON + slot] = keys;
    }
}

} // verus!
