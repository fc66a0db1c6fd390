use vstd::prelude::*;
use super::addresses::{BLAST_WALL_FRAGMENT_X, BLAST_WALL_FRAGMENT_Y};
use crate::types;
use crate::types::{read_le_u16, write_le_u16};

verus! {

pub struct BlastWallFragmentView<'a> {
    ram: &'a [u8],
    slot: usize,
}

impl<'a> BlastWallFragmentView<'a> {
    /// The bytes of RAM this view reads and writes.
    pub closed spec fn ram(&self) -> Seq<u8> {
        self.ram@
    }

    /// The slot whose fields this view addresses.
    pub closed spec fn slot_index(&self) -> usize {
        self.slot
    }

    pub fn new(ram: &'a [u8], slot: usize) -> (view: Self)
        ensures
            view.ram() == ram@,
            view.slot_index() == slot,
    {
        Self { ram, slot }
    }

    pub fn y(&self) -> (result: u16)
        requires
            (BLAST_WALL_FRAGMENT_Y + (self.slot_index() * 2)) + 1 < self.ram().len(),
        ensures
            result == types::u16_at(self.ram(), BLAST_WALL_FRAGMENT_Y + (self.slot_index() * 2)),
    {
        proof {
            assert(self.ram@.len() == self.ram.len());
        }
        read_le_u16(self.ram, BLAST_WALL_FRAGMENT_Y + self.slot * 2)
    }

    pub fn x(&self) -> (result: u16)
        requires
            (BLAST_WALL_FRAGMENT_X + (self.slot_index() * 2)) + 1 < self.ram().len(),
        ensures
            result == types::u16_at(self.ram(), BLAST_WALL_FRAGMENT_X + (self.slot_index() * 2)),
    {
        proof {
            assert(self.ram@.len() == self.ram.len());
        }
        read_le_u16(self.ram, BLAST_WALL_FRAGMENT_X + self.slot * 2)
    }
}

pub struct BlastWallFragmentViewMut<'a> {
    pub ram: &'a mut [u8],
    pub slot: usize,
}

impl<'a> BlastWallFragmentViewMut<'a> {
    /// The bytes of RAM this view reads and writes.
    pub open spec fn ram(&self) -> Seq<u8> {
        self.ram@
    }

    /// The slot whose fields this view addresses.
    pub open spec fn slot_index(&self) -> usize {
        self.slot
    }

    pub fn new(ram: &'a mut [u8], slot: usize) -> (view: Self)
        ensures
            view.ram() == old(ram)@,
            view.slot_index() == slot,
            final(view.ram)@ == final(ram)@,
    {
        Self { ram, slot }
    }

    pub fn set_position(&mut self, x: u16, y: u16)
        requires
            (BLAST_WALL_FRAGMENT_X + (old(self).slot_index() * 2)) + 1 < old(self).ram().len(),
            (BLAST_WALL_FRAGMENT_Y + (old(self).slot_index() * 2)) + 1 < old(self).ram().len(),
        ensures
            final(self).ram() == types::with_u16(
                types::with_u16(
                    old(self).ram(),
                    BLAST_WALL_FRAGMENT_X + (old(self).slot_index() * 2),
                    x,
                ),
                BLAST_WALL_FRAGMENT_Y + (old(self).slot_index() * 2),
                y,
            ),
            final(self).slot_index() == old(self).slot_index(),
            final(final(self).ram)@ == final(old(self).ram)@,
    {
        proof {
            assert(self.ram@.len() == self.ram.len());
        }
        write_le_u16(self.ram, BLAST_WALL_FRAGMENT_X + self.slot * 2, x);
        write_le_u16(self.ram, BLAST_WALL_FRAGMENT_Y + self.slot * 2, y);
    }

    pub fn offset(&mut self, x_delta: i16, y_delta: i16) -> (result: (u16, u16))
        requires
            (BLAST_WALL_FRAGMENT_X + (old(self).slot_index() * 2)) + 1 < old(self).ram().len(),
            (BLAST_WALL_FRAGMENT_Y + (old(self).slot_index() * 2)) + 1 < old(self).ram().len(),
        ensures
            result == (
                types::u16_at(
                    old(self).ram(),
                    BLAST_WALL_FRAGMENT_X + (old(self).slot_index() * 2),
                )
                    .wrapping_add(x_delta as u16),
                types::u16_at(
                    old(self).ram(),
                    BLAST_WALL_FRAGMENT_Y + (old(self).slot_index() * 2),
                )
                    .wrapping_add(y_delta as u16),
            ),
            final(self).ram() == types::with_u16(
                types::with_u16(
                    old(self).ram(),
                    BLAST_WALL_FRAGMENT_X + (old(self).slot_index() * 2),
                    types::u16_at(
                        old(self).ram(),
                        BLAST_WALL_FRAGMENT_X + (old(self).slot_index() * 2),
                    )
                        .wrapping_add(x_delta as u16),
                ),
                BLAST_WALL_FRAGMENT_Y + (old(self).slot_index() * 2),
                types::u16_at(
                    old(self).ram(),
                    BLAST_WALL_FRAGMENT_Y + (old(self).slot_index() * 2),
                )
                    .wrapping_add(y_delta as u16),
            ),
            final(self).slot_index() == old(self).slot_index(),
            final(final(self).ram)@ == final(old(self).ram)@,
    {
        proof {
            assert(self.ram@.len() == self.ram.len());
        }
        let x = read_le_u16(self.ram, BLAST_WALL_FRAGMENT_X + self.slot * 2).wrapping_add(x_delta as u16);
        let y = read_le_u16(self.ram, BLAST_WALL_FRAGMENT_Y + self.slot * 2).wrapping_add(y_delta as u16);
        self.set_position(x, y);
        (x, y)
    }
}

} // verus!
