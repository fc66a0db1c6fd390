use vstd::prelude::*;
use super::access;
use super::access::{byte, word, copy_bytes};
use super::addresses::{
    DUNGEON_TORCH_ATTR, DUNGEON_TORCH_DATA, DUNG_INDEX_OF_TORCHES_START, GANON_TORCH_COUNT,
    MOVABLE_BLOCK_DATAS, TORCH_TIMERS,
};
use vstd::slice::{slice_subrange};
use crate::types;
use crate::types::{write_le_u16};

verus! {

pub struct DungeonTorchView<'a> {
    ram: &'a [u8],
}

impl<'a> DungeonTorchView<'a> {
    /// The bytes of RAM this view reads and writes.
    pub closed spec fn ram(&self) -> Seq<u8> {
        self.ram@
    }

    pub fn new(ram: &'a [u8]) -> (view: Self)
        ensures
            view.ram() == ram@,
    {
        Self { ram }
    }

    pub fn timer(&self, index: usize) -> (result: u8)
        requires
            TORCH_TIMERS + index <= usize::MAX,
        ensures
            result == access::byte_at(self.ram(), TORCH_TIMERS + index),
    {
        byte(self.ram, TORCH_TIMERS + index)
    }

    pub fn attr_index(&self) -> (result: usize)
        ensures
            result == ((access::byte_at(self.ram(), DUNGEON_TORCH_ATTR as int) & 0x0fu8) as usize),
    {
        (byte(self.ram, DUNGEON_TORCH_ATTR) & 0x0f) as usize
    }

    pub fn torch_attr(&self) -> (result: u8)
        ensures
            result == access::byte_at(self.ram(), DUNGEON_TORCH_ATTR as int),
    {
        byte(self.ram, DUNGEON_TORCH_ATTR)
    }

    pub fn ganon_torch_count(&self) -> (result: u8)
        ensures
            result == access::byte_at(self.ram(), GANON_TORCH_COUNT as int),
    {
        byte(self.ram, GANON_TORCH_COUNT)
    }

    pub fn torches_start_index(&self) -> (result: u16)
        ensures
            result == access::word_at(self.ram(), DUNG_INDEX_OF_TORCHES_START as int),
    {
        word(self.ram, DUNG_INDEX_OF_TORCHES_START)
    }
}

pub struct DungeonTorchViewMut<'a> {
    pub ram: &'a mut [u8],
}

impl<'a> DungeonTorchViewMut<'a> {
    /// The bytes of RAM this view reads and writes.
    pub open spec fn ram(&self) -> Seq<u8> {
        self.ram@
    }

    pub fn new(ram: &'a mut [u8]) -> (view: Self)
        ensures
            view.ram() == old(ram)@,
            final(view.ram)@ == final(ram)@,
    {
        Self { ram }
    }

    pub fn copy_torch_init_to_movable_blocks(&mut self, torch_init: &[u8])
        requires
            (MOVABLE_BLOCK_DATAS + (99 * 4)) + 116 <= old(self).ram().len(),
            116 <= torch_init@.len(),
        ensures
            final(self).ram() == access::copied(
                old(self).ram(),
                MOVABLE_BLOCK_DATAS + (99 * 4),
                torch_init@.subrange(0, 116 as int),
            ),
            final(final(self).ram)@ == final(old(self).ram)@,
    {
        copy_bytes(self.ram, MOVABLE_BLOCK_DATAS + 99 * 4, slice_subrange(torch_init, 0, 116));
    }

    pub fn copy_torch_junk(&mut self, torch_junk: &[u8])
        requires
            (DUNGEON_TORCH_DATA + (144 * 2)) + torch_junk@.len() <= old(self).ram().len(),
        ensures
            final(self).ram() == access::copied(
                old(self).ram(),
                DUNGEON_TORCH_DATA + (144 * 2),
                torch_junk@,
            ),
            final(final(self).ram)@ == final(old(self).ram)@,
    {
        proof {
            assert(self.ram@.len() == self.ram.len());
        }
        copy_bytes(self.ram, DUNGEON_TORCH_DATA + 144 * 2, torch_junk);
    }

    pub fn clear_timer(&mut self, index: usize)
        requires
            TORCH_TIMERS + index < old(self).ram().len(),
        ensures
            final(self).ram() == old(self).ram().update(TORCH_TIMERS + index, 0u8),
            final(final(self).ram)@ == final(old(self).ram)@,
    {
        proof {
            assert(self.ram@.len() == self.ram.len());
        }
        self.ram[TORCH_TIMERS + index] = 0;
    }

    pub fn set_timer(&mut self, index: usize, value: u8)
        requires
            TORCH_TIMERS + index < old(self).ram().len(),
        ensures
            final(self).ram() == old(self).ram().update(TORCH_TIMERS + index, value),
            final(final(self).ram)@ == final(old(self).ram)@,
    {
        proof {
            assert(self.ram@.len() == self.ram.len());
        }
        self.ram[TORCH_TIMERS + index] = value;
    }

    pub fn set_torch_data_word(&mut self, index: usize, value: u16)
        requires
            (DUNGEON_TORCH_DATA + (index * 2)) + 1 < old(self).ram().len(),
        ensures
            final(self).ram() == types::with_u16(
                old(self).ram(),
                DUNGEON_TORCH_DATA + (index * 2),
                value,
            ),
            final(final(self).ram)@ == final(old(self).ram)@,
    {
        proof {
            assert(self.ram@.len() == self.ram.len());
        }
        write_le_u16(self.ram, DUNGEON_TORCH_DATA + index * 2, value);
    }

    pub fn set_attr(&mut self, value: u8)
        requires
            DUNGEON_TORCH_ATTR < old(self).ram().len(),
        ensures
            final(self).ram() == old(self).ram().update(DUNGEON_TORCH_ATTR as int, value),
            final(final(self).ram)@ == final(old(self).ram)@,
    {
        self.ram[DUNGEON_TORCH_ATTR] = value;
    }

    pub fn clear_attr(&mut self)
        requires
            DUNGEON_TORCH_ATTR < old(self).ram().len(),
        ensures
            final(self).ram() == old(self).ram().update(DUNGEON_TORCH_ATTR as int, 0),
            final(final(self).ram)@ == final(old(self).ram)@,
    {
        self.set_attr(0);
    }
}

} // verus!
