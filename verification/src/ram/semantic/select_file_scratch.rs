use vstd::prelude::*;
use super::access;
use super::access::{byte, word, fill_bytes};
use super::addresses::{
    SELECTFILE_SAVE_SLOT_FLAGS, SELECT_FILE_CHOICE_SCRATCH, SELECT_FILE_COPY_SOURCE_SLOT_X2,
    SELECT_FILE_CURSOR_SCRATCH, SELECT_FILE_NAME_COLUMN, SELECT_FILE_NAME_CURSOR_Y,
    SELECT_FILE_NAME_ROW, SELECT_FILE_NAME_SCROLL_X, SELECT_FILE_NAME_SCROLL_X_DIRECTION,
    SELECT_FILE_NAME_SCROLL_X_STEP, SELECT_FILE_NAME_SCROLL_Y_STEP, SELECT_FILE_NAME_SLOT,
    SELECT_FILE_REMEMBERED_CURSOR, SELECT_FILE_TARGET_SCRATCH, SELECT_FILE_TRANSITION_SCRATCH,
};
use crate::types;
use crate::types::{write_le_u16};

verus! {

pub struct SelectFileScratchView<'a> {
    ram: &'a [u8],
}

impl<'a> SelectFileScratchView<'a> {
    /// The bytes of RAM this view reads and writes.
    pub closed spec fn ram(&self) -> Seq<u8> {
        self.ram@
    }

    pub fn new(ram: &'a [u8]) -> (view: Self)
        ensures
            view.ram() == ram@,
    {
        Self { ram }
    }

    pub fn choice(&self, index: usize) -> (result: u8)
        requires
            SELECT_FILE_CHOICE_SCRATCH + index <= usize::MAX,
        ensures
            result == access::byte_at(self.ram(), SELECT_FILE_CHOICE_SCRATCH + index),
    {
        byte(self.ram, SELECT_FILE_CHOICE_SCRATCH + index)
    }

    pub fn cursor(&self) -> (result: u8)
        ensures
            result == access::byte_at(self.ram(), SELECT_FILE_CURSOR_SCRATCH as int),
    {
        byte(self.ram, SELECT_FILE_CURSOR_SCRATCH)
    }

    pub fn cursor_usize(&self) -> (result: usize)
        ensures
            result == (access::byte_at(self.ram(), SELECT_FILE_CURSOR_SCRATCH as int) as usize),
    {
        self.cursor() as usize
    }

    pub fn remembered_cursor(&self) -> (result: u8)
        ensures
            result == access::byte_at(self.ram(), SELECT_FILE_REMEMBERED_CURSOR as int),
    {
        byte(self.ram, SELECT_FILE_REMEMBERED_CURSOR)
    }

    pub fn target_word(&self) -> (result: u16)
        ensures
            result == access::word_at(self.ram(), SELECT_FILE_TARGET_SCRATCH as int),
    {
        word(self.ram, SELECT_FILE_TARGET_SCRATCH)
    }

    pub fn copy_source_slot_x2(&self) -> (result: u16)
        ensures
            result == access::word_at(self.ram(), SELECT_FILE_COPY_SOURCE_SLOT_X2 as int),
    {
        word(self.ram, SELECT_FILE_COPY_SOURCE_SLOT_X2)
    }

    pub fn copy_source_slot(&self) -> (result: usize)
        ensures
            result == ((access::word_at(self.ram(), SELECT_FILE_COPY_SOURCE_SLOT_X2 as int) >> 1) as usize),
    {
        (self.copy_source_slot_x2() >> 1) as usize
    }

    pub fn name_scroll_x(&self) -> (result: u16)
        ensures
            result == access::word_at(self.ram(), SELECT_FILE_NAME_SCROLL_X as int),
    {
        word(self.ram, SELECT_FILE_NAME_SCROLL_X)
    }

    pub fn name_column(&self) -> (result: u8)
        ensures
            result == access::byte_at(self.ram(), SELECT_FILE_NAME_COLUMN as int),
    {
        byte(self.ram, SELECT_FILE_NAME_COLUMN)
    }

    pub fn name_column_usize(&self) -> (result: usize)
        ensures
            result == (access::byte_at(self.ram(), SELECT_FILE_NAME_COLUMN as int) as usize),
    {
        self.name_column() as usize
    }

    pub fn name_cursor_y(&self) -> (result: u8)
        ensures
            result == access::byte_at(self.ram(), SELECT_FILE_NAME_CURSOR_Y as int),
    {
        byte(self.ram, SELECT_FILE_NAME_CURSOR_Y)
    }

    pub fn name_slot(&self) -> (result: u8)
        ensures
            result == access::byte_at(self.ram(), SELECT_FILE_NAME_SLOT as int),
    {
        byte(self.ram, SELECT_FILE_NAME_SLOT)
    }

    pub fn name_slot_usize(&self) -> (result: usize)
        ensures
            result == (access::byte_at(self.ram(), SELECT_FILE_NAME_SLOT as int) as usize),
    {
        self.name_slot() as usize
    }

    pub fn name_scroll_x_step(&self) -> (result: u8)
        ensures
            result == access::byte_at(self.ram(), SELECT_FILE_NAME_SCROLL_X_STEP as int),
    {
        byte(self.ram, SELECT_FILE_NAME_SCROLL_X_STEP)
    }

    pub fn name_scroll_y_step(&self) -> (result: u8)
        ensures
            result == access::byte_at(self.ram(), SELECT_FILE_NAME_SCROLL_Y_STEP as int),
    {
        byte(self.ram, SELECT_FILE_NAME_SCROLL_Y_STEP)
    }

    pub fn is_name_scrolling(&self) -> (result: bool)
        ensures
            result == ((access::byte_at(self.ram(), SELECT_FILE_NAME_SCROLL_X_STEP as int) | access::byte_at(self.ram(), SELECT_FILE_NAME_SCROLL_Y_STEP as int)) != 0),
    {
        (self.name_scroll_x_step() | self.name_scroll_y_step()) != 0
    }

    pub fn name_row(&self) -> (result: u8)
        ensures
            result == access::byte_at(self.ram(), SELECT_FILE_NAME_ROW as int),
    {
        byte(self.ram, SELECT_FILE_NAME_ROW)
    }

    pub fn name_row_usize(&self) -> (result: usize)
        ensures
            result == (access::byte_at(self.ram(), SELECT_FILE_NAME_ROW as int) as usize),
    {
        self.name_row() as usize
    }

    pub fn name_scroll_x_direction(&self) -> (result: u8)
        ensures
            result == access::byte_at(self.ram(), SELECT_FILE_NAME_SCROLL_X_DIRECTION as int),
    {
        byte(self.ram, SELECT_FILE_NAME_SCROLL_X_DIRECTION)
    }

    pub fn save_slot_flag(&self, slot: usize) -> (result: u16)
        requires
            (SELECTFILE_SAVE_SLOT_FLAGS + (slot * 2)) + 1 <= usize::MAX,
        ensures
            result == access::word_at(self.ram(), SELECTFILE_SAVE_SLOT_FLAGS + (slot * 2)),
    {
        word(self.ram, SELECTFILE_SAVE_SLOT_FLAGS + slot * 2)
    }

    pub fn save_slot_flags(&self) -> (result: [u16; 3])
        ensures
            result@ == seq![
                access::word_at(self.ram(), SELECTFILE_SAVE_SLOT_FLAGS as int),
                access::word_at(self.ram(), SELECTFILE_SAVE_SLOT_FLAGS + 2),
                access::word_at(self.ram(), SELECTFILE_SAVE_SLOT_FLAGS + 4),
            ],
    {
        [self.save_slot_flag(0), self.save_slot_flag(1), self.save_slot_flag(2)]
    }

    pub fn any_save_slot_flag(&self) -> (result: bool)
        ensures
            result == (access::word_at(self.ram(), SELECTFILE_SAVE_SLOT_FLAGS as int) != 0
                || access::word_at(self.ram(), SELECTFILE_SAVE_SLOT_FLAGS + 2) != 0
                || access::word_at(self.ram(), SELECTFILE_SAVE_SLOT_FLAGS + 4) != 0),
    {
        let flags = self.save_slot_flags();
        flags[0] != 0 || flags[1] != 0 || flags[2] != 0
    }
}

pub struct SelectFileScratchViewMut<'a> {
    pub ram: &'a mut [u8],
}

impl<'a> SelectFileScratchViewMut<'a> {
    /// The bytes of RAM this view reads and writes.
    pub open spec fn ram(&self) -> Seq<u8> {
        self.ram@
    }

    pub fn new(ram: &'a mut [u8]) -> (view: Self)
        ensures
            view.ram() == old(ram)@,
            final(view.ram)@ == final(ram)@,
    {
        Self { ram }
    }

    pub fn set_choice(&mut self, index: usize, value: u8)
        requires
            SELECT_FILE_CHOICE_SCRATCH + index < old(self).ram().len(),
        ensures
            final(self).ram() == old(self).ram().update(SELECT_FILE_CHOICE_SCRATCH + index, value),
            final(final(self).ram)@ == final(old(self).ram)@,
    {
        proof {
            assert(self.ram@.len() == self.ram.len());
        }
        self.ram[SELECT_FILE_CHOICE_SCRATCH + index] = value;
    }

    pub fn set_cursor(&mut self, value: u8)
        requires
            SELECT_FILE_CURSOR_SCRATCH < old(self).ram().len(),
        ensures
            final(self).ram() == old(self).ram().update(SELECT_FILE_CURSOR_SCRATCH as int, value),
            final(final(self).ram)@ == final(old(self).ram)@,
    {
        self.ram[SELECT_FILE_CURSOR_SCRATCH] = value;
    }

    pub fn clear_cursor(&mut self)
        requires
            SELECT_FILE_CURSOR_SCRATCH < old(self).ram().len(),
        ensures
            final(self).ram() == old(self).ram().update(SELECT_FILE_CURSOR_SCRATCH as int, 0),
            final(final(self).ram)@ == final(old(self).ram)@,
    {
        self.set_cursor(0);
    }

    pub fn clear_transition_scratch(&mut self)
        requires
            SELECT_FILE_TRANSITION_SCRATCH < old(self).ram().len(),
        ensures
            final(self).ram() == old(self).ram().update(SELECT_FILE_TRANSITION_SCRATCH as int, 0u8),
            final(final(self).ram)@ == final(old(self).ram)@,
    {
        self.ram[SELECT_FILE_TRANSITION_SCRATCH] = 0;
    }

    pub fn increment_cursor(&mut self) -> (result: u8)
        requires
            SELECT_FILE_CURSOR_SCRATCH < old(self).ram().len(),
        ensures
            result == old(self).ram()[SELECT_FILE_CURSOR_SCRATCH as int].wrapping_add(1),
            final(self).ram() == old(self).ram().update(
                SELECT_FILE_CURSOR_SCRATCH as int,
                old(self).ram()[SELECT_FILE_CURSOR_SCRATCH as int].wrapping_add(1),
            ),
            final(final(self).ram)@ == final(old(self).ram)@,
    {
        self.ram[SELECT_FILE_CURSOR_SCRATCH] = self.ram[SELECT_FILE_CURSOR_SCRATCH].wrapping_add(1);
        self.ram[SELECT_FILE_CURSOR_SCRATCH]
    }

    pub fn decrement_cursor(&mut self) -> (result: u8)
        requires
            SELECT_FILE_CURSOR_SCRATCH < old(self).ram().len(),
        ensures
            result == old(self).ram()[SELECT_FILE_CURSOR_SCRATCH as int].wrapping_sub(1),
            final(self).ram() == old(self).ram().update(
                SELECT_FILE_CURSOR_SCRATCH as int,
                old(self).ram()[SELECT_FILE_CURSOR_SCRATCH as int].wrapping_sub(1),
            ),
            final(final(self).ram)@ == final(old(self).ram)@,
    {
        self.ram[SELECT_FILE_CURSOR_SCRATCH] = self.ram[SELECT_FILE_CURSOR_SCRATCH].wrapping_sub(1);
        self.ram[SELECT_FILE_CURSOR_SCRATCH]
    }

    pub fn set_remembered_cursor(&mut self, value: u8)
        requires
            SELECT_FILE_REMEMBERED_CURSOR < old(self).ram().len(),
        ensures
            final(self).ram() == old(self).ram().update(
                SELECT_FILE_REMEMBERED_CURSOR as int,
                value,
            ),
            final(final(self).ram)@ == final(old(self).ram)@,
    {
        self.ram[SELECT_FILE_REMEMBERED_CURSOR] = value;
    }

    pub fn clear_remembered_cursor(&mut self)
        requires
            SELECT_FILE_REMEMBERED_CURSOR < old(self).ram().len(),
        ensures
            final(self).ram() == old(self).ram().update(SELECT_FILE_REMEMBERED_CURSOR as int, 0),
            final(final(self).ram)@ == final(old(self).ram)@,
    {
        self.set_remembered_cursor(0);
    }

    pub fn remember_current_cursor(&mut self)
        requires
            SELECT_FILE_REMEMBERED_CURSOR < old(self).ram().len(),
            SELECT_FILE_CURSOR_SCRATCH < old(self).ram().len(),
        ensures
            final(self).ram() == old(self).ram().update(
                SELECT_FILE_REMEMBERED_CURSOR as int,
                old(self).ram()[SELECT_FILE_CURSOR_SCRATCH as int],
            ),
            final(final(self).ram)@ == final(old(self).ram)@,
    {
        self.ram[SELECT_FILE_REMEMBERED_CURSOR] = self.ram[SELECT_FILE_CURSOR_SCRATCH];
    }

    pub fn restore_remembered_cursor(&mut self)
        requires
            SELECT_FILE_CURSOR_SCRATCH < old(self).ram().len(),
            SELECT_FILE_REMEMBERED_CURSOR < old(self).ram().len(),
        ensures
            final(self).ram() == old(self).ram().update(
                SELECT_FILE_CURSOR_SCRATCH as int,
                old(self).ram()[SELECT_FILE_REMEMBERED_CURSOR as int],
            ),
            final(final(self).ram)@ == final(old(self).ram)@,
    {
        self.ram[SELECT_FILE_CURSOR_SCRATCH] = self.ram[SELECT_FILE_REMEMBERED_CURSOR];
    }

    pub fn set_target_word(&mut self, value: u16)
        requires
            SELECT_FILE_TARGET_SCRATCH + 1 < old(self).ram().len(),
        ensures
            final(self).ram() == types::with_u16(
                old(self).ram(),
                SELECT_FILE_TARGET_SCRATCH as int,
                value,
            ),
            final(final(self).ram)@ == final(old(self).ram)@,
    {
        write_le_u16(self.ram, SELECT_FILE_TARGET_SCRATCH, value);
    }

    pub fn set_copy_source_slot_x2(&mut self, value: u16)
        requires
            SELECT_FILE_COPY_SOURCE_SLOT_X2 + 1 < old(self).ram().len(),
        ensures
            final(self).ram() == types::with_u16(
                old(self).ram(),
                SELECT_FILE_COPY_SOURCE_SLOT_X2 as int,
                value,
            ),
            final(final(self).ram)@ == final(old(self).ram)@,
    {
        write_le_u16(self.ram, SELECT_FILE_COPY_SOURCE_SLOT_X2, value);
    }

    pub fn set_copy_source_slot(&mut self, slot: u8)
        requires
            SELECT_FILE_COPY_SOURCE_SLOT_X2 + 1 < old(self).ram().len(),
        ensures
            final(self).ram() == types::with_u16(
                old(self).ram(),
                SELECT_FILE_COPY_SOURCE_SLOT_X2 as int,
                ((slot as u16) * 2) as u16,
            ),
            final(final(self).ram)@ == final(old(self).ram)@,
    {
        self.set_copy_source_slot_x2(slot as u16 * 2);
    }

    pub fn set_name_scroll_x(&mut self, value: u16)
        requires
            SELECT_FILE_NAME_SCROLL_X + 1 < old(self).ram().len(),
        ensures
            final(self).ram() == types::with_u16(
                old(self).ram(),
                SELECT_FILE_NAME_SCROLL_X as int,
                value,
            ),
            final(final(self).ram)@ == final(old(self).ram)@,
    {
        write_le_u16(self.ram, SELECT_FILE_NAME_SCROLL_X, value);
    }

    pub fn clear_name_entry_state(&mut self)
        requires
            SELECT_FILE_NAME_COLUMN < old(self).ram().len(),
            SELECT_FILE_NAME_SLOT < old(self).ram().len(),
            SELECT_FILE_NAME_ROW < old(self).ram().len(),
            SELECT_FILE_CHOICE_SCRATCH < old(self).ram().len(),
            SELECT_FILE_COPY_SOURCE_SLOT_X2 < old(self).ram().len(),
            SELECT_FILE_NAME_CURSOR_Y < old(self).ram().len(),
            SELECT_FILE_NAME_SCROLL_X + 1 < old(self).ram().len(),
        ensures
            final(self).ram() == types::with_u16(
                old(self).ram()
                    .update(SELECT_FILE_NAME_COLUMN as int, 0u8)
                    .update(SELECT_FILE_NAME_SLOT as int, 0u8)
                    .update(SELECT_FILE_NAME_ROW as int, 0u8)
                    .update(SELECT_FILE_CHOICE_SCRATCH as int, 0u8)
                    .update(SELECT_FILE_COPY_SOURCE_SLOT_X2 as int, 0u8)
                    .update(SELECT_FILE_NAME_CURSOR_Y as int, 0x83u8),
                SELECT_FILE_NAME_SCROLL_X as int,
                0x01f0u16,
            ),
            final(final(self).ram)@ == final(old(self).ram)@,
    {
        self.ram[SELECT_FILE_NAME_COLUMN] = 0;
        self.ram[SELECT_FILE_NAME_SLOT] = 0;
        self.ram[SELECT_FILE_NAME_ROW] = 0;
        self.ram[SELECT_FILE_CHOICE_SCRATCH] = 0;
        self.ram[SELECT_FILE_COPY_SOURCE_SLOT_X2] = 0;
        self.ram[SELECT_FILE_NAME_CURSOR_Y] = 0x83;
        write_le_u16(self.ram, SELECT_FILE_NAME_SCROLL_X, 0x01f0);
    }

    pub fn set_name_column(&mut self, value: u8)
        requires
            SELECT_FILE_NAME_COLUMN < old(self).ram().len(),
        ensures
            final(self).ram() == old(self).ram().update(SELECT_FILE_NAME_COLUMN as int, value),
            final(final(self).ram)@ == final(old(self).ram)@,
    {
        self.ram[SELECT_FILE_NAME_COLUMN] = value;
    }

    pub fn set_name_cursor_y(&mut self, value: u8)
        requires
            SELECT_FILE_NAME_CURSOR_Y < old(self).ram().len(),
        ensures
            final(self).ram() == old(self).ram().update(SELECT_FILE_NAME_CURSOR_Y as int, value),
            final(final(self).ram)@ == final(old(self).ram)@,
    {
        self.ram[SELECT_FILE_NAME_CURSOR_Y] = value;
    }

    pub fn step_name_cursor_y_toward(&mut self, target_y: u8) -> (result: bool)
        requires
            SELECT_FILE_NAME_CURSOR_Y < old(self).ram().len(),
        ensures
            result == (if old(self).ram()[SELECT_FILE_NAME_CURSOR_Y as int].wrapping_sub(target_y) == 0 {
                false
            } else {
                true
            }),
            final(self).ram() == (if old(self).ram()[SELECT_FILE_NAME_CURSOR_Y as int].wrapping_sub(target_y) == 0 {
                old(self).ram()
            } else {
                old(self).ram()
                    .update(
                        SELECT_FILE_NAME_CURSOR_Y as int,
                        if (old(self).ram()[SELECT_FILE_NAME_CURSOR_Y as int].wrapping_sub(target_y) & 0x80u8) != 0 {
                            old(self).ram()[SELECT_FILE_NAME_CURSOR_Y as int].wrapping_add(2)
                        } else {
                            old(self).ram()[SELECT_FILE_NAME_CURSOR_Y as int].wrapping_sub(2)
                        },
                    )
            }),
            final(final(self).ram)@ == final(old(self).ram)@,
    {
        let diff = self.ram[SELECT_FILE_NAME_CURSOR_Y].wrapping_sub(target_y);
        if diff == 0 {
            return false;
        }
        self.ram[SELECT_FILE_NAME_CURSOR_Y] = if diff & 0x80 != 0 {
            self.ram[SELECT_FILE_NAME_CURSOR_Y].wrapping_add(2)
        } else {
            self.ram[SELECT_FILE_NAME_CURSOR_Y].wrapping_sub(2)
        };
        true
    }

    pub fn set_name_slot(&mut self, value: u8)
        requires
            SELECT_FILE_NAME_SLOT < old(self).ram().len(),
        ensures
            final(self).ram() == old(self).ram().update(SELECT_FILE_NAME_SLOT as int, value),
            final(final(self).ram)@ == final(old(self).ram)@,
    {
        self.ram[SELECT_FILE_NAME_SLOT] = value;
    }

    pub fn move_name_slot_left_wrapped(&mut self) -> (result: u8)
        requires
            SELECT_FILE_NAME_SLOT < old(self).ram().len(),
        ensures
            result == (if old(self).ram()[SELECT_FILE_NAME_SLOT as int] == 0 {
                5u8
            } else {
                old(self).ram()[SELECT_FILE_NAME_SLOT as int].wrapping_sub(1)
            }),
            final(self).ram() == old(self).ram().update(
                SELECT_FILE_NAME_SLOT as int,
                if old(self).ram()[SELECT_FILE_NAME_SLOT as int] == 0 {
                    5u8
                } else {
                    old(self).ram()[SELECT_FILE_NAME_SLOT as int].wrapping_sub(1)
                },
            ),
            final(final(self).ram)@ == final(old(self).ram)@,
    {
        let next = if self.ram[SELECT_FILE_NAME_SLOT] == 0 {
            5
        } else {
            self.ram[SELECT_FILE_NAME_SLOT].wrapping_sub(1)
        };
        self.ram[SELECT_FILE_NAME_SLOT] = next;
        next
    }

    pub fn move_name_slot_right_wrapped(&mut self) -> (result: u8)
        requires
            SELECT_FILE_NAME_SLOT < old(self).ram().len(),
        ensures
            result == (if old(self).ram()[SELECT_FILE_NAME_SLOT as int].wrapping_add(1) == 6 {
                0u8
            } else {
                old(self).ram()[SELECT_FILE_NAME_SLOT as int].wrapping_add(1)
            }),
            final(self).ram() == (if old(self).ram()[SELECT_FILE_NAME_SLOT as int].wrapping_add(1) == 6 {
                old(self).ram()
                    .update(
                        SELECT_FILE_NAME_SLOT as int,
                        old(self).ram()[SELECT_FILE_NAME_SLOT as int].wrapping_add(1),
                    )
                    .update(SELECT_FILE_NAME_SLOT as int, 0u8)
            } else {
                old(self).ram()
                    .update(
                        SELECT_FILE_NAME_SLOT as int,
                        old(self).ram()[SELECT_FILE_NAME_SLOT as int].wrapping_add(1),
                    )
            }),
            final(final(self).ram)@ == final(old(self).ram)@,
    {
        self.ram[SELECT_FILE_NAME_SLOT] = self.ram[SELECT_FILE_NAME_SLOT].wrapping_add(1);
        if self.ram[SELECT_FILE_NAME_SLOT] == 6 {
            self.ram[SELECT_FILE_NAME_SLOT] = 0;
        }
        self.ram[SELECT_FILE_NAME_SLOT]
    }

    pub fn set_name_scroll_x_step(&mut self, value: u8)
        requires
            SELECT_FILE_NAME_SCROLL_X_STEP < old(self).ram().len(),
        ensures
            final(self).ram() == old(self).ram().update(
                SELECT_FILE_NAME_SCROLL_X_STEP as int,
                value,
            ),
            final(final(self).ram)@ == final(old(self).ram)@,
    {
        self.ram[SELECT_FILE_NAME_SCROLL_X_STEP] = value;
    }

    pub fn advance_name_scroll_x_step_by(&mut self, value: u8) -> (result: u8)
        requires
            SELECT_FILE_NAME_SCROLL_X_STEP < old(self).ram().len(),
        ensures
            result == old(self).ram()[SELECT_FILE_NAME_SCROLL_X_STEP as int].wrapping_add(value),
            final(self).ram() == old(self).ram().update(
                SELECT_FILE_NAME_SCROLL_X_STEP as int,
                old(self).ram()[SELECT_FILE_NAME_SCROLL_X_STEP as int].wrapping_add(value),
            ),
            final(final(self).ram)@ == final(old(self).ram)@,
    {
        self.ram[SELECT_FILE_NAME_SCROLL_X_STEP] = self.ram[SELECT_FILE_NAME_SCROLL_X_STEP].wrapping_add(value);
        self.ram[SELECT_FILE_NAME_SCROLL_X_STEP]
    }

    pub fn set_name_scroll_y_step(&mut self, value: u8)
        requires
            SELECT_FILE_NAME_SCROLL_Y_STEP < old(self).ram().len(),
        ensures
            final(self).ram() == old(self).ram().update(
                SELECT_FILE_NAME_SCROLL_Y_STEP as int,
                value,
            ),
            final(final(self).ram)@ == final(old(self).ram)@,
    {
        self.ram[SELECT_FILE_NAME_SCROLL_Y_STEP] = value;
    }

    pub fn clear_name_scroll_y_step(&mut self)
        requires
            SELECT_FILE_NAME_SCROLL_Y_STEP < old(self).ram().len(),
        ensures
            final(self).ram() == old(self).ram().update(SELECT_FILE_NAME_SCROLL_Y_STEP as int, 0u8),
            final(final(self).ram)@ == final(old(self).ram)@,
    {
        self.ram[SELECT_FILE_NAME_SCROLL_Y_STEP] = 0;
    }

    pub fn increment_name_scroll_y_step(&mut self) -> (result: u8)
        requires
            SELECT_FILE_NAME_SCROLL_Y_STEP < old(self).ram().len(),
        ensures
            result == old(self).ram()[SELECT_FILE_NAME_SCROLL_Y_STEP as int].wrapping_add(1),
            final(self).ram() == old(self).ram().update(
                SELECT_FILE_NAME_SCROLL_Y_STEP as int,
                old(self).ram()[SELECT_FILE_NAME_SCROLL_Y_STEP as int].wrapping_add(1),
            ),
            final(final(self).ram)@ == final(old(self).ram)@,
    {
        self.ram[SELECT_FILE_NAME_SCROLL_Y_STEP] = self.ram[SELECT_FILE_NAME_SCROLL_Y_STEP].wrapping_add(1);
        self.ram[SELECT_FILE_NAME_SCROLL_Y_STEP]
    }

    pub fn set_name_row(&mut self, value: u8)
        requires
            SELECT_FILE_NAME_ROW < old(self).ram().len(),
        ensures
            final(self).ram() == old(self).ram().update(SELECT_FILE_NAME_ROW as int, value),
            final(final(self).ram)@ == final(old(self).ram)@,
    {
        self.ram[SELECT_FILE_NAME_ROW] = value;
    }

    pub fn set_name_scroll_x_direction(&mut self, value: u8)
        requires
            SELECT_FILE_NAME_SCROLL_X_DIRECTION < old(self).ram().len(),
        ensures
            final(self).ram() == old(self).ram().update(
                SELECT_FILE_NAME_SCROLL_X_DIRECTION as int,
                value,
            ),
            final(final(self).ram)@ == final(old(self).ram)@,
    {
        self.ram[SELECT_FILE_NAME_SCROLL_X_DIRECTION] = value;
    }

    pub fn set_save_slot_flag(&mut self, slot: usize, value: u16)
        requires
            (SELECTFILE_SAVE_SLOT_FLAGS + (slot * 2)) + 1 < old(self).ram().len(),
        ensures
            final(self).ram() == types::with_u16(
                old(self).ram(),
                SELECTFILE_SAVE_SLOT_FLAGS + (slot * 2),
                value,
            ),
            final(final(self).ram)@ == final(old(self).ram)@,
    {
        proof {
            assert(self.ram@.len() == self.ram.len());
        }
        write_le_u16(self.ram, SELECTFILE_SAVE_SLOT_FLAGS + slot * 2, value);
    }

    pub fn mark_save_slot_present(&mut self, slot: usize)
        requires
            (SELECTFILE_SAVE_SLOT_FLAGS + (slot * 2)) + 1 < old(self).ram().len(),
        ensures
            final(self).ram() == types::with_u16(
                old(self).ram(),
                SELECTFILE_SAVE_SLOT_FLAGS + (slot * 2),
                1,
            ),
            final(final(self).ram)@ == final(old(self).ram)@,
    {
        proof {
            assert(self.ram@.len() == self.ram.len());
        }
        self.set_save_slot_flag(slot, 1);
    }

    pub fn clear_save_slot_flag(&mut self, slot: usize)
        requires
            (SELECTFILE_SAVE_SLOT_FLAGS + (slot * 2)) + 1 < old(self).ram().len(),
        ensures
            final(self).ram() == types::with_u16(
                old(self).ram(),
                SELECTFILE_SAVE_SLOT_FLAGS + (slot * 2),
                0,
            ),
            final(final(self).ram)@ == final(old(self).ram)@,
    {
        proof {
            assert(self.ram@.len() == self.ram.len());
        }
        self.set_save_slot_flag(slot, 0);
    }

    pub fn clear_save_slot_flags(&mut self)
        requires
            SELECTFILE_SAVE_SLOT_FLAGS + 6 <= old(self).ram().len(),
        ensures
            final(self).ram() == access::filled(
                old(self).ram(),
                SELECTFILE_SAVE_SLOT_FLAGS as int,
                SELECTFILE_SAVE_SLOT_FLAGS + 6,
                0u8,
            ),
            final(final(self).ram)@ == final(old(self).ram)@,
    {
        fill_bytes(self.ram, SELECTFILE_SAVE_SLOT_FLAGS, SELECTFILE_SAVE_SLOT_FLAGS + 6, 0);
    }
}

} // verus!
