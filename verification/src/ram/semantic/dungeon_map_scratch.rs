use vstd::prelude::*;
use super::access;
use super::access::{byte, word};
use super::addresses::{
    DUNGEON_MAP_LOCATION_MARKER_BASE_Y, DUNGEON_MAP_MARKER_X_OFFSET, DUNGEON_MAP_MARKER_Y_OFFSET,
    DUNGEON_MAP_SCROLL_DRAW_OFFSET, DUNGEON_MAP_SCROLL_INPUT,
};
use crate::types;
use crate::types::{write_le_u16};

verus! {

pub struct DungeonMapScratchView<'a> {
    ram: &'a [u8],
}

impl<'a> DungeonMapScratchView<'a> {
    /// The bytes of RAM this view reads and writes.
    pub closed spec fn ram(&self) -> Seq<u8> {
        self.ram@
    }

    pub fn new(ram: &'a [u8]) -> (view: Self)
        ensures
            view.ram() == ram@,
    {
        Self { ram }
    }

    pub fn scroll_draw_offset(&self) -> (result: u16)
        ensures
            result == access::word_at(self.ram(), DUNGEON_MAP_SCROLL_DRAW_OFFSET as int),
    {
        word(self.ram, DUNGEON_MAP_SCROLL_DRAW_OFFSET)
    }

    pub fn scroll_input(&self) -> (result: u16)
        ensures
            result == access::word_at(self.ram(), DUNGEON_MAP_SCROLL_INPUT as int),
    {
        word(self.ram, DUNGEON_MAP_SCROLL_INPUT)
    }

    pub fn scroll_input_direction_index(&self) -> (result: usize)
        ensures
            result == (((access::word_at(self.ram(), DUNGEON_MAP_SCROLL_INPUT as int) >> 3) & 1u16) as usize),
    {
        ((self.scroll_input() >> 3) & 1) as usize
    }

    pub fn marker_x_offset(&self) -> (result: u16)
        ensures
            result == access::word_at(self.ram(), DUNGEON_MAP_MARKER_X_OFFSET as int),
    {
        word(self.ram, DUNGEON_MAP_MARKER_X_OFFSET)
    }

    pub fn marker_y_offset(&self) -> (result: u16)
        ensures
            result == access::word_at(self.ram(), DUNGEON_MAP_MARKER_Y_OFFSET as int),
    {
        word(self.ram, DUNGEON_MAP_MARKER_Y_OFFSET)
    }

    pub fn location_marker_base_y(&self) -> (result: u8)
        ensures
            result == access::byte_at(self.ram(), DUNGEON_MAP_LOCATION_MARKER_BASE_Y as int),
    {
        byte(self.ram, DUNGEON_MAP_LOCATION_MARKER_BASE_Y)
    }
}

pub struct DungeonMapScratchViewMut<'a> {
    pub ram: &'a mut [u8],
}

impl<'a> DungeonMapScratchViewMut<'a> {
    /// The bytes of RAM this view reads and writes.
    pub open spec fn ram(&self) -> Seq<u8> {
        self.ram@
    }

    pub fn new(ram: &'a mut [u8]) -> (view: Self)
        ensures
            view.ram() == old(ram)@,
            final(view.ram)@ == final(ram)@,
    {
        Self { ram }
    }

    pub fn clear_scroll_state(&mut self)
        requires
            DUNGEON_MAP_SCROLL_DRAW_OFFSET + 1 < old(self).ram().len(),
            DUNGEON_MAP_SCROLL_INPUT + 1 < old(self).ram().len(),
        ensures
            final(self).ram() == types::with_u16(
                types::with_u16(
                    old(self).ram(),
                    DUNGEON_MAP_SCROLL_DRAW_OFFSET as int,
                    0u16,
                ),
                DUNGEON_MAP_SCROLL_INPUT as int,
                0u16,
            ),
            final(final(self).ram)@ == final(old(self).ram)@,
    {
        write_le_u16(self.ram, DUNGEON_MAP_SCROLL_DRAW_OFFSET, 0);
        write_le_u16(self.ram, DUNGEON_MAP_SCROLL_INPUT, 0);
    }

    pub fn set_scroll_draw_offset(&mut self, value: u16)
        requires
            DUNGEON_MAP_SCROLL_DRAW_OFFSET + 1 < old(self).ram().len(),
        ensures
            final(self).ram() == types::with_u16(
                old(self).ram(),
                DUNGEON_MAP_SCROLL_DRAW_OFFSET as int,
                value,
            ),
            final(final(self).ram)@ == final(old(self).ram)@,
    {
        write_le_u16(self.ram, DUNGEON_MAP_SCROLL_DRAW_OFFSET, value);
    }

    pub fn set_scroll_input(&mut self, value: u16)
        requires
            DUNGEON_MAP_SCROLL_INPUT + 1 < old(self).ram().len(),
        ensures
            final(self).ram() == types::with_u16(
                old(self).ram(),
                DUNGEON_MAP_SCROLL_INPUT as int,
                value,
            ),
            final(final(self).ram)@ == final(old(self).ram)@,
    {
        write_le_u16(self.ram, DUNGEON_MAP_SCROLL_INPUT, value);
    }

    pub fn reset_marker_offsets(&mut self)
        requires
            DUNGEON_MAP_MARKER_X_OFFSET + 1 < old(self).ram().len(),
            DUNGEON_MAP_MARKER_Y_OFFSET + 1 < old(self).ram().len(),
        ensures
            final(self).ram() == types::with_u16(
                types::with_u16(
                    old(self).ram(),
                    DUNGEON_MAP_MARKER_X_OFFSET as int,
                    0x0040u16,
                ),
                DUNGEON_MAP_MARKER_Y_OFFSET as int,
                0x0040u16,
            ),
            final(final(self).ram)@ == final(old(self).ram)@,
    {
        write_le_u16(self.ram, DUNGEON_MAP_MARKER_X_OFFSET, 0x0040);
        write_le_u16(self.ram, DUNGEON_MAP_MARKER_Y_OFFSET, 0x0040);
    }

    pub fn set_marker_x_offset(&mut self, value: u16)
        requires
            DUNGEON_MAP_MARKER_X_OFFSET + 1 < old(self).ram().len(),
        ensures
            final(self).ram() == types::with_u16(
                old(self).ram(),
                DUNGEON_MAP_MARKER_X_OFFSET as int,
                value,
            ),
            final(final(self).ram)@ == final(old(self).ram)@,
    {
        write_le_u16(self.ram, DUNGEON_MAP_MARKER_X_OFFSET, value);
    }

    pub fn set_marker_y_offset(&mut self, value: u16)
        requires
            DUNGEON_MAP_MARKER_Y_OFFSET + 1 < old(self).ram().len(),
        ensures
            final(self).ram() == types::with_u16(
                old(self).ram(),
                DUNGEON_MAP_MARKER_Y_OFFSET as int,
                value,
            ),
            final(final(self).ram)@ == final(old(self).ram)@,
    {
        write_le_u16(self.ram, DUNGEON_MAP_MARKER_Y_OFFSET, value);
    }

    pub fn set_location_marker_base_y(&mut self, value: u8)
        requires
            DUNGEON_MAP_LOCATION_MARKER_BASE_Y < old(self).ram().len(),
            DUNGEON_MAP_LOCATION_MARKER_BASE_Y + 1 < old(self).ram().len(),
        ensures
            final(self).ram() == old(self).ram()
                .update(DUNGEON_MAP_LOCATION_MARKER_BASE_Y as int, value)
                .update(DUNGEON_MAP_LOCATION_MARKER_BASE_Y + 1, 0u8),
            final(final(self).ram)@ == final(old(self).ram)@,
    {
        self.ram[DUNGEON_MAP_LOCATION_MARKER_BASE_Y] = value;
        self.ram[DUNGEON_MAP_LOCATION_MARKER_BASE_Y + 1] = 0;
    }

    pub fn shift_marker_x_left(&mut self) -> (result: u16)
        requires
            DUNGEON_MAP_MARKER_X_OFFSET + 1 < old(self).ram().len(),
        ensures
            result == access::word_at(old(self).ram(), DUNGEON_MAP_MARKER_X_OFFSET as int)
                .wrapping_sub(0x10),
            final(self).ram() == types::with_u16(
                old(self).ram(),
                DUNGEON_MAP_MARKER_X_OFFSET as int,
                access::word_at(
                    old(self).ram(),
                    DUNGEON_MAP_MARKER_X_OFFSET as int,
                )
                    .wrapping_sub(0x10),
            ),
            final(final(self).ram)@ == final(old(self).ram)@,
    {
        let value = word(self.ram, DUNGEON_MAP_MARKER_X_OFFSET).wrapping_sub(0x10);
        write_le_u16(self.ram, DUNGEON_MAP_MARKER_X_OFFSET, value);
        value
    }

    pub fn reset_marker_x_offset(&mut self)
        requires
            DUNGEON_MAP_MARKER_X_OFFSET + 1 < old(self).ram().len(),
        ensures
            final(self).ram() == types::with_u16(
                old(self).ram(),
                DUNGEON_MAP_MARKER_X_OFFSET as int,
                0x0040u16,
            ),
            final(final(self).ram)@ == final(old(self).ram)@,
    {
        write_le_u16(self.ram, DUNGEON_MAP_MARKER_X_OFFSET, 0x0040);
    }

    pub fn shift_marker_y_low_up(&mut self)
        requires
            DUNGEON_MAP_MARKER_Y_OFFSET < old(self).ram().len(),
        ensures
            final(self).ram() == old(self).ram().update(
                DUNGEON_MAP_MARKER_Y_OFFSET as int,
                old(self).ram()[DUNGEON_MAP_MARKER_Y_OFFSET as int].wrapping_sub(0x10),
            ),
            final(final(self).ram)@ == final(old(self).ram)@,
    {
        self.ram[DUNGEON_MAP_MARKER_Y_OFFSET] = self.ram[DUNGEON_MAP_MARKER_Y_OFFSET].wrapping_sub(0x10);
    }

    pub fn add_marker_y_offset_signed(&mut self, value: i16) -> (result: u16)
        requires
            DUNGEON_MAP_MARKER_Y_OFFSET + 1 < old(self).ram().len(),
        ensures
            result == access::word_at(old(self).ram(), DUNGEON_MAP_MARKER_Y_OFFSET as int)
                .wrapping_add_signed(value),
            final(self).ram() == types::with_u16(
                old(self).ram(),
                DUNGEON_MAP_MARKER_Y_OFFSET as int,
                access::word_at(
                    old(self).ram(),
                    DUNGEON_MAP_MARKER_Y_OFFSET as int,
                )
                    .wrapping_add_signed(value),
            ),
            final(final(self).ram)@ == final(old(self).ram)@,
    {
        let value = word(self.ram, DUNGEON_MAP_MARKER_Y_OFFSET).wrapping_add_signed(value);
        write_le_u16(self.ram, DUNGEON_MAP_MARKER_Y_OFFSET, value);
        value
    }
}

} // verus!
