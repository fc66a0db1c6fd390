use vstd::prelude::*;
use super::access;
use super::access::{byte};
use super::addresses::{
    BLAST_WALL_CENTER_X, BLAST_WALL_CENTER_Y, BLAST_WALL_DIRECTION, BLAST_WALL_ENTRY_STATE,
    BLAST_WALL_SECONDARY_STATE,
};
use crate::types;
use crate::types::{read_le_u16, write_le_u16};

verus! {

pub struct BlastWallScratchView<'a> {
    ram: &'a [u8],
}

impl<'a> BlastWallScratchView<'a> {
    /// The bytes of RAM this view reads and writes.
    pub closed spec fn ram(&self) -> Seq<u8> {
        self.ram@
    }

    pub fn new(ram: &'a [u8]) -> (view: Self)
        ensures
            view.ram() == ram@,
    {
        Self { ram }
    }

    pub fn direction(&self) -> (result: u8)
        ensures
            result == access::byte_at(self.ram(), BLAST_WALL_DIRECTION as int),
    {
        byte(self.ram, BLAST_WALL_DIRECTION)
    }

    pub fn center_x(&self) -> (result: u16)
        requires
            BLAST_WALL_CENTER_X + 1 < self.ram().len(),
        ensures
            result == types::u16_at(self.ram(), BLAST_WALL_CENTER_X as int),
    {
        read_le_u16(self.ram, BLAST_WALL_CENTER_X)
    }

    pub fn center_y(&self) -> (result: u16)
        requires
            BLAST_WALL_CENTER_Y + 1 < self.ram().len(),
        ensures
            result == types::u16_at(self.ram(), BLAST_WALL_CENTER_Y as int),
    {
        read_le_u16(self.ram, BLAST_WALL_CENTER_Y)
    }
}

pub struct BlastWallScratchViewMut<'a> {
    pub ram: &'a mut [u8],
}

impl<'a> BlastWallScratchViewMut<'a> {
    /// The bytes of RAM this view reads and writes.
    pub open spec fn ram(&self) -> Seq<u8> {
        self.ram@
    }

    pub fn new(ram: &'a mut [u8]) -> (view: Self)
        ensures
            view.ram() == old(ram)@,
            final(view.ram)@ == final(ram)@,
    {
        Self { ram }
    }

    pub fn clear_entry_state(&mut self)
        requires
            BLAST_WALL_ENTRY_STATE < old(self).ram().len(),
        ensures
            final(self).ram() == old(self).ram().update(BLAST_WALL_ENTRY_STATE as int, 0u8),
            final(final(self).ram)@ == final(old(self).ram)@,
    {
        self.ram[BLAST_WALL_ENTRY_STATE] = 0;
    }

    pub fn clear_secondary_state(&mut self)
        requires
            BLAST_WALL_SECONDARY_STATE < old(self).ram().len(),
        ensures
            final(self).ram() == old(self).ram().update(BLAST_WALL_SECONDARY_STATE as int, 0u8),
            final(final(self).ram)@ == final(old(self).ram)@,
    {
        self.ram[BLAST_WALL_SECONDARY_STATE] = 0;
    }

    pub fn offset_center(&mut self, x_delta: i8, y_delta: i8) -> (result: (u16, u16))
        requires
            BLAST_WALL_CENTER_Y + 1 < old(self).ram().len(),
            BLAST_WALL_CENTER_X + 1 < old(self).ram().len(),
        ensures
            result == (
                types::u16_at(old(self).ram(), BLAST_WALL_CENTER_X as int)
                    .wrapping_add((x_delta as i16) as u16),
                types::u16_at(old(self).ram(), BLAST_WALL_CENTER_Y as int)
                    .wrapping_add((y_delta as i16) as u16),
            ),
            final(self).ram() == types::with_u16(
                types::with_u16(
                    old(self).ram(),
                    BLAST_WALL_CENTER_Y as int,
                    types::u16_at(old(self).ram(), BLAST_WALL_CENTER_Y as int)
                        .wrapping_add((y_delta as i16) as u16),
                ),
                BLAST_WALL_CENTER_X as int,
                types::u16_at(old(self).ram(), BLAST_WALL_CENTER_X as int)
                    .wrapping_add((x_delta as i16) as u16),
            ),
            final(final(self).ram)@ == final(old(self).ram)@,
    {
        let y = read_le_u16(self.ram, BLAST_WALL_CENTER_Y).wrapping_add(y_delta as i16 as u16);
        let x = read_le_u16(self.ram, BLAST_WALL_CENTER_X).wrapping_add(x_delta as i16 as u16);
        write_le_u16(self.ram, BLAST_WALL_CENTER_Y, y);
        write_le_u16(self.ram, BLAST_WALL_CENTER_X, x);
        (x, y)
    }
}

} // verus!
