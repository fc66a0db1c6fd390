use vstd::prelude::*;
use super::access;
use super::access::{byte, word, copy_word};
use super::addresses::{
    BG1_H_SCROLL_COPY, BG1_H_SCROLL_SUBPIXEL, BG1_V_SCROLL_COPY, BG1_V_SCROLL_SUBPIXEL,
    BG1_X_SCROLL, BG1_Y_SCROLL, BG2_H_SCROLL_COPY, BG2_H_SCROLL_COPY2_CACHED,
    BG2_H_SCROLL_COPY2_EXIT, BG2_H_SCROLL_COPY2_SPECIAL_EXIT, BG2_V_SCROLL_COPY,
    BG2_V_SCROLL_COPY2_CACHED, BG2_V_SCROLL_COPY2_EXIT, BG2_V_SCROLL_COPY2_SPECIAL_EXIT,
    BG2_X_SCROLL, BG2_Y_SCROLL, BG3_H_SCROLL_COPY2, BG3_V_SCROLL_COPY2,
    MAP_BACKUP_BG1_H_SCROLL_COPY2, MAP_BACKUP_BG1_V_SCROLL_COPY2, MAP_BACKUP_BG2_H_SCROLL_COPY2,
    MAP_BACKUP_BG2_V_SCROLL_COPY2, MODE7_CENTER_X_COPY, MODE7_CENTER_Y_COPY,
};
use crate::types;
use crate::types::{read_le_u16, write_le_u16};

verus! {

pub struct PpuScrollCopyView<'a> {
    ram: &'a [u8],
}

impl<'a> PpuScrollCopyView<'a> {
    /// The bytes of RAM this view reads and writes.
    pub closed spec fn ram(&self) -> Seq<u8> {
        self.ram@
    }

    pub fn new(ram: &'a [u8]) -> (view: Self)
        ensures
            view.ram() == ram@,
    {
        Self { ram }
    }

    pub fn bg2_h_copy2_offset() -> (result: usize)
        ensures
            result == BG2_X_SCROLL,
    {
        BG2_X_SCROLL
    }

    pub fn bg1_h_high(&self) -> (result: u8)
        ensures
            result == access::byte_at(self.ram(), BG1_H_SCROLL_COPY + 1),
    {
        byte(self.ram, BG1_H_SCROLL_COPY + 1)
    }

    pub fn bg1_h_copy(&self) -> (result: u16)
        ensures
            result == access::word_at(self.ram(), BG1_H_SCROLL_COPY as int),
    {
        word(self.ram, BG1_H_SCROLL_COPY)
    }

    pub fn bg1_h_copy_low(&self) -> (result: u8)
        ensures
            result == access::byte_at(self.ram(), BG1_H_SCROLL_COPY as int),
    {
        byte(self.ram, BG1_H_SCROLL_COPY)
    }

    pub fn bg1_v_high(&self) -> (result: u8)
        ensures
            result == access::byte_at(self.ram(), BG1_V_SCROLL_COPY + 1),
    {
        byte(self.ram, BG1_V_SCROLL_COPY + 1)
    }

    pub fn bg1_v_copy(&self) -> (result: u16)
        ensures
            result == access::word_at(self.ram(), BG1_V_SCROLL_COPY as int),
    {
        word(self.ram, BG1_V_SCROLL_COPY)
    }

    pub fn bg1_v_copy_low(&self) -> (result: u8)
        ensures
            result == access::byte_at(self.ram(), BG1_V_SCROLL_COPY as int),
    {
        byte(self.ram, BG1_V_SCROLL_COPY)
    }

    pub fn bg2_h_high(&self) -> (result: u8)
        ensures
            result == access::byte_at(self.ram(), BG2_H_SCROLL_COPY + 1),
    {
        byte(self.ram, BG2_H_SCROLL_COPY + 1)
    }

    pub fn bg2_h_copy(&self) -> (result: u16)
        ensures
            result == access::word_at(self.ram(), BG2_H_SCROLL_COPY as int),
    {
        word(self.ram, BG2_H_SCROLL_COPY)
    }

    pub fn bg2_h_copy_low(&self) -> (result: u8)
        ensures
            result == access::byte_at(self.ram(), BG2_H_SCROLL_COPY as int),
    {
        byte(self.ram, BG2_H_SCROLL_COPY)
    }

    pub fn bg2_v_high(&self) -> (result: u8)
        ensures
            result == access::byte_at(self.ram(), BG2_V_SCROLL_COPY + 1),
    {
        byte(self.ram, BG2_V_SCROLL_COPY + 1)
    }

    pub fn bg2_v_copy(&self) -> (result: u16)
        ensures
            result == access::word_at(self.ram(), BG2_V_SCROLL_COPY as int),
    {
        word(self.ram, BG2_V_SCROLL_COPY)
    }

    pub fn bg2_v_copy_low(&self) -> (result: u8)
        ensures
            result == access::byte_at(self.ram(), BG2_V_SCROLL_COPY as int),
    {
        byte(self.ram, BG2_V_SCROLL_COPY)
    }

    pub fn bg1_h_copy2(&self) -> (result: u16)
        ensures
            result == access::word_at(self.ram(), BG1_X_SCROLL as int),
    {
        word(self.ram, BG1_X_SCROLL)
    }

    pub fn bg1_v_copy2(&self) -> (result: u16)
        ensures
            result == access::word_at(self.ram(), BG1_Y_SCROLL as int),
    {
        word(self.ram, BG1_Y_SCROLL)
    }

    pub fn bg2_h_copy2(&self) -> (result: u16)
        ensures
            result == access::word_at(self.ram(), BG2_X_SCROLL as int),
    {
        word(self.ram, BG2_X_SCROLL)
    }

    pub fn bg2_v_copy2(&self) -> (result: u16)
        ensures
            result == access::word_at(self.ram(), BG2_Y_SCROLL as int),
    {
        word(self.ram, BG2_Y_SCROLL)
    }

    pub fn bg2_copy2_for_axis(&self, vertical: bool) -> (result: u16)
        ensures
            result == (if vertical {
                access::word_at(self.ram(), BG2_Y_SCROLL as int)
            } else {
                access::word_at(self.ram(), BG2_X_SCROLL as int)
            }),
    {
        if vertical {
            self.bg2_v_copy2()
        } else {
            self.bg2_h_copy2()
        }
    }

    pub fn bg3_h_high(&self) -> (result: u8)
        ensures
            result == access::byte_at(self.ram(), BG3_H_SCROLL_COPY2 + 1),
    {
        byte(self.ram, BG3_H_SCROLL_COPY2 + 1)
    }

    pub fn bg3_h_copy2(&self) -> (result: u16)
        ensures
            result == access::word_at(self.ram(), BG3_H_SCROLL_COPY2 as int),
    {
        word(self.ram, BG3_H_SCROLL_COPY2)
    }

    pub fn bg3_h_copy2_low(&self) -> (result: u8)
        ensures
            result == access::byte_at(self.ram(), BG3_H_SCROLL_COPY2 as int),
    {
        byte(self.ram, BG3_H_SCROLL_COPY2)
    }

    pub fn bg3_v_high(&self) -> (result: u8)
        ensures
            result == access::byte_at(self.ram(), BG3_V_SCROLL_COPY2 + 1),
    {
        byte(self.ram, BG3_V_SCROLL_COPY2 + 1)
    }

    pub fn bg3_v_copy2(&self) -> (result: u16)
        ensures
            result == access::word_at(self.ram(), BG3_V_SCROLL_COPY2 as int),
    {
        word(self.ram, BG3_V_SCROLL_COPY2)
    }

    pub fn bg3_v_copy2_low(&self) -> (result: u8)
        ensures
            result == access::byte_at(self.ram(), BG3_V_SCROLL_COPY2 as int),
    {
        byte(self.ram, BG3_V_SCROLL_COPY2)
    }

    pub fn bg2_h_copy2_cached(&self) -> (result: u16)
        ensures
            result == access::word_at(self.ram(), BG2_H_SCROLL_COPY2_CACHED as int),
    {
        word(self.ram, BG2_H_SCROLL_COPY2_CACHED)
    }

    pub fn bg2_v_copy2_cached(&self) -> (result: u16)
        ensures
            result == access::word_at(self.ram(), BG2_V_SCROLL_COPY2_CACHED as int),
    {
        word(self.ram, BG2_V_SCROLL_COPY2_CACHED)
    }

    pub fn map_backup_bg1_h_copy2(&self) -> (result: u16)
        ensures
            result == access::word_at(self.ram(), MAP_BACKUP_BG1_H_SCROLL_COPY2 as int),
    {
        word(self.ram, MAP_BACKUP_BG1_H_SCROLL_COPY2)
    }

    pub fn map_backup_bg2_h_copy2(&self) -> (result: u16)
        ensures
            result == access::word_at(self.ram(), MAP_BACKUP_BG2_H_SCROLL_COPY2 as int),
    {
        word(self.ram, MAP_BACKUP_BG2_H_SCROLL_COPY2)
    }

    pub fn map_backup_bg1_v_copy2(&self) -> (result: u16)
        ensures
            result == access::word_at(self.ram(), MAP_BACKUP_BG1_V_SCROLL_COPY2 as int),
    {
        word(self.ram, MAP_BACKUP_BG1_V_SCROLL_COPY2)
    }

    pub fn map_backup_bg2_v_copy2(&self) -> (result: u16)
        ensures
            result == access::word_at(self.ram(), MAP_BACKUP_BG2_V_SCROLL_COPY2 as int),
    {
        word(self.ram, MAP_BACKUP_BG2_V_SCROLL_COPY2)
    }

    pub fn special_exit_bg2_h_copy2(&self) -> (result: u16)
        ensures
            result == access::word_at(self.ram(), BG2_H_SCROLL_COPY2_SPECIAL_EXIT as int),
    {
        word(self.ram, BG2_H_SCROLL_COPY2_SPECIAL_EXIT)
    }

    pub fn special_exit_bg2_v_copy2(&self) -> (result: u16)
        ensures
            result == access::word_at(self.ram(), BG2_V_SCROLL_COPY2_SPECIAL_EXIT as int),
    {
        word(self.ram, BG2_V_SCROLL_COPY2_SPECIAL_EXIT)
    }

    pub fn exit_bg2_h_copy2(&self) -> (result: u16)
        ensures
            result == access::word_at(self.ram(), BG2_H_SCROLL_COPY2_EXIT as int),
    {
        word(self.ram, BG2_H_SCROLL_COPY2_EXIT)
    }

    pub fn exit_bg2_v_copy2(&self) -> (result: u16)
        ensures
            result == access::word_at(self.ram(), BG2_V_SCROLL_COPY2_EXIT as int),
    {
        word(self.ram, BG2_V_SCROLL_COPY2_EXIT)
    }

    pub fn mode7_center_x_high(&self) -> (result: u8)
        ensures
            result == access::byte_at(self.ram(), MODE7_CENTER_X_COPY + 1),
    {
        byte(self.ram, MODE7_CENTER_X_COPY + 1)
    }

    pub fn mode7_center_x(&self) -> (result: u16)
        ensures
            result == access::word_at(self.ram(), MODE7_CENTER_X_COPY as int),
    {
        word(self.ram, MODE7_CENTER_X_COPY)
    }

    pub fn mode7_center_y_high(&self) -> (result: u8)
        ensures
            result == access::byte_at(self.ram(), MODE7_CENTER_Y_COPY + 1),
    {
        byte(self.ram, MODE7_CENTER_Y_COPY + 1)
    }

    pub fn mode7_center_y(&self) -> (result: u16)
        ensures
            result == access::word_at(self.ram(), MODE7_CENTER_Y_COPY as int),
    {
        word(self.ram, MODE7_CENTER_Y_COPY)
    }

    pub fn bg1_h_subpixel(&self) -> (result: u16)
        ensures
            result == access::word_at(self.ram(), BG1_H_SCROLL_SUBPIXEL as int),
    {
        word(self.ram, BG1_H_SCROLL_SUBPIXEL)
    }

    pub fn bg1_v_subpixel(&self) -> (result: u16)
        ensures
            result == access::word_at(self.ram(), BG1_V_SCROLL_SUBPIXEL as int),
    {
        word(self.ram, BG1_V_SCROLL_SUBPIXEL)
    }
}

pub struct PpuScrollCopyViewMut<'a> {
    pub ram: &'a mut [u8],
}

impl<'a> PpuScrollCopyViewMut<'a> {
    /// The bytes of RAM this view reads and writes.
    pub open spec fn ram(&self) -> Seq<u8> {
        self.ram@
    }

    pub fn new(ram: &'a mut [u8]) -> (view: Self)
        ensures
            view.ram() == old(ram)@,
            final(view.ram)@ == final(ram)@,
    {
        Self { ram }
    }

    pub fn set_bg1_h_high(&mut self, value: u8)
        requires
            BG1_X_SCROLL + 1 < old(self).ram().len(),
        ensures
            final(self).ram() == old(self).ram().update(BG1_X_SCROLL + 1, value),
            final(final(self).ram)@ == final(old(self).ram)@,
    {
        self.ram[BG1_X_SCROLL + 1] = value;
    }

    pub fn set_bg1_h_copy(&mut self, value: u16)
        requires
            BG1_H_SCROLL_COPY + 1 < old(self).ram().len(),
        ensures
            final(self).ram() == types::with_u16(old(self).ram(), BG1_H_SCROLL_COPY as int, value),
            final(final(self).ram)@ == final(old(self).ram)@,
    {
        write_le_u16(self.ram, BG1_H_SCROLL_COPY, value);
    }

    pub fn set_bg1_v_copy(&mut self, value: u16)
        requires
            BG1_V_SCROLL_COPY + 1 < old(self).ram().len(),
        ensures
            final(self).ram() == types::with_u16(old(self).ram(), BG1_V_SCROLL_COPY as int, value),
            final(final(self).ram)@ == final(old(self).ram)@,
    {
        write_le_u16(self.ram, BG1_V_SCROLL_COPY, value);
    }

    pub fn set_bg2_h_copy(&mut self, value: u16)
        requires
            BG2_H_SCROLL_COPY + 1 < old(self).ram().len(),
        ensures
            final(self).ram() == types::with_u16(old(self).ram(), BG2_H_SCROLL_COPY as int, value),
            final(final(self).ram)@ == final(old(self).ram)@,
    {
        write_le_u16(self.ram, BG2_H_SCROLL_COPY, value);
    }

    pub fn set_bg2_v_copy(&mut self, value: u16)
        requires
            BG2_V_SCROLL_COPY + 1 < old(self).ram().len(),
        ensures
            final(self).ram() == types::with_u16(old(self).ram(), BG2_V_SCROLL_COPY as int, value),
            final(final(self).ram)@ == final(old(self).ram)@,
    {
        write_le_u16(self.ram, BG2_V_SCROLL_COPY, value);
    }

    pub fn set_bg1_h_copy_low(&mut self, value: u8)
        requires
            BG1_H_SCROLL_COPY < old(self).ram().len(),
        ensures
            final(self).ram() == old(self).ram().update(BG1_H_SCROLL_COPY as int, value),
            final(final(self).ram)@ == final(old(self).ram)@,
    {
        self.ram[BG1_H_SCROLL_COPY] = value;
    }

    pub fn set_bg1_v_copy_low(&mut self, value: u8)
        requires
            BG1_V_SCROLL_COPY < old(self).ram().len(),
        ensures
            final(self).ram() == old(self).ram().update(BG1_V_SCROLL_COPY as int, value),
            final(final(self).ram)@ == final(old(self).ram)@,
    {
        self.ram[BG1_V_SCROLL_COPY] = value;
    }

    pub fn set_bg2_h_copy_low(&mut self, value: u8)
        requires
            BG2_H_SCROLL_COPY < old(self).ram().len(),
        ensures
            final(self).ram() == old(self).ram().update(BG2_H_SCROLL_COPY as int, value),
            final(final(self).ram)@ == final(old(self).ram)@,
    {
        self.ram[BG2_H_SCROLL_COPY] = value;
    }

    pub fn set_bg2_v_copy_low(&mut self, value: u8)
        requires
            BG2_V_SCROLL_COPY < old(self).ram().len(),
        ensures
            final(self).ram() == old(self).ram().update(BG2_V_SCROLL_COPY as int, value),
            final(final(self).ram)@ == final(old(self).ram)@,
    {
        self.ram[BG2_V_SCROLL_COPY] = value;
    }

    pub fn set_bg1_h_copy2(&mut self, value: u16)
        requires
            BG1_X_SCROLL + 1 < old(self).ram().len(),
        ensures
            final(self).ram() == types::with_u16(old(self).ram(), BG1_X_SCROLL as int, value),
            final(final(self).ram)@ == final(old(self).ram)@,
    {
        write_le_u16(self.ram, BG1_X_SCROLL, value);
    }

    pub fn set_bg1_v_copy2(&mut self, value: u16)
        requires
            BG1_Y_SCROLL + 1 < old(self).ram().len(),
        ensures
            final(self).ram() == types::with_u16(old(self).ram(), BG1_Y_SCROLL as int, value),
            final(final(self).ram)@ == final(old(self).ram)@,
    {
        write_le_u16(self.ram, BG1_Y_SCROLL, value);
    }

    pub fn set_bg2_h_copy2(&mut self, value: u16)
        requires
            BG2_X_SCROLL + 1 < old(self).ram().len(),
        ensures
            final(self).ram() == types::with_u16(old(self).ram(), BG2_X_SCROLL as int, value),
            final(final(self).ram)@ == final(old(self).ram)@,
    {
        write_le_u16(self.ram, BG2_X_SCROLL, value);
    }

    pub fn set_bg2_v_copy2(&mut self, value: u16)
        requires
            BG2_Y_SCROLL + 1 < old(self).ram().len(),
        ensures
            final(self).ram() == types::with_u16(old(self).ram(), BG2_Y_SCROLL as int, value),
            final(final(self).ram)@ == final(old(self).ram)@,
    {
        write_le_u16(self.ram, BG2_Y_SCROLL, value);
    }

    pub fn set_bg3_h_copy2(&mut self, value: u16)
        requires
            BG3_H_SCROLL_COPY2 + 1 < old(self).ram().len(),
        ensures
            final(self).ram() == types::with_u16(old(self).ram(), BG3_H_SCROLL_COPY2 as int, value),
            final(final(self).ram)@ == final(old(self).ram)@,
    {
        write_le_u16(self.ram, BG3_H_SCROLL_COPY2, value);
    }

    pub fn set_bg3_v_copy2(&mut self, value: u16)
        requires
            BG3_V_SCROLL_COPY2 + 1 < old(self).ram().len(),
        ensures
            final(self).ram() == types::with_u16(old(self).ram(), BG3_V_SCROLL_COPY2 as int, value),
            final(final(self).ram)@ == final(old(self).ram)@,
    {
        write_le_u16(self.ram, BG3_V_SCROLL_COPY2, value);
    }

    pub fn set_bg3_v_copy2_low(&mut self, value: u8)
        requires
            BG3_V_SCROLL_COPY2 < old(self).ram().len(),
        ensures
            final(self).ram() == old(self).ram().update(BG3_V_SCROLL_COPY2 as int, value),
            final(final(self).ram)@ == final(old(self).ram)@,
    {
        self.ram[BG3_V_SCROLL_COPY2] = value;
    }

    pub fn set_mode7_center_x(&mut self, value: u16)
        requires
            MODE7_CENTER_X_COPY + 1 < old(self).ram().len(),
        ensures
            final(self).ram() == types::with_u16(old(self).ram(), MODE7_CENTER_X_COPY as int, value),
            final(final(self).ram)@ == final(old(self).ram)@,
    {
        write_le_u16(self.ram, MODE7_CENTER_X_COPY, value);
    }

    pub fn set_mode7_center_y(&mut self, value: u16)
        requires
            MODE7_CENTER_Y_COPY + 1 < old(self).ram().len(),
        ensures
            final(self).ram() == types::with_u16(old(self).ram(), MODE7_CENTER_Y_COPY as int, value),
            final(final(self).ram)@ == final(old(self).ram)@,
    {
        write_le_u16(self.ram, MODE7_CENTER_Y_COPY, value);
    }

    pub fn set_mode7_center(&mut self, x: u16, y: u16)
        requires
            MODE7_CENTER_X_COPY + 1 < old(self).ram().len(),
            MODE7_CENTER_Y_COPY + 1 < old(self).ram().len(),
        ensures
            final(self).ram() == types::with_u16(
                types::with_u16(
                    old(self).ram(),
                    MODE7_CENTER_X_COPY as int,
                    x,
                ),
                MODE7_CENTER_Y_COPY as int,
                y,
            ),
            final(final(self).ram)@ == final(old(self).ram)@,
    {
        self.set_mode7_center_x(x);
        self.set_mode7_center_y(y);
    }

    pub fn set_bg1_h_live_and_copy(&mut self, value: u16)
        requires
            BG1_X_SCROLL + 1 < old(self).ram().len(),
            BG1_H_SCROLL_COPY + 1 < old(self).ram().len(),
        ensures
            final(self).ram() == types::with_u16(
                types::with_u16(old(self).ram(), BG1_X_SCROLL as int, value),
                BG1_H_SCROLL_COPY as int,
                value,
            ),
            final(final(self).ram)@ == final(old(self).ram)@,
    {
        self.set_bg1_h_copy2(value);
        self.set_bg1_h_copy(value);
    }

    pub fn set_bg1_v_live_and_copy(&mut self, value: u16)
        requires
            BG1_Y_SCROLL + 1 < old(self).ram().len(),
            BG1_V_SCROLL_COPY + 1 < old(self).ram().len(),
        ensures
            final(self).ram() == types::with_u16(
                types::with_u16(old(self).ram(), BG1_Y_SCROLL as int, value),
                BG1_V_SCROLL_COPY as int,
                value,
            ),
            final(final(self).ram)@ == final(old(self).ram)@,
    {
        self.set_bg1_v_copy2(value);
        self.set_bg1_v_copy(value);
    }

    pub fn set_bg2_h_live_and_copy(&mut self, value: u16)
        requires
            BG2_X_SCROLL + 1 < old(self).ram().len(),
            BG2_H_SCROLL_COPY + 1 < old(self).ram().len(),
        ensures
            final(self).ram() == types::with_u16(
                types::with_u16(old(self).ram(), BG2_X_SCROLL as int, value),
                BG2_H_SCROLL_COPY as int,
                value,
            ),
            final(final(self).ram)@ == final(old(self).ram)@,
    {
        self.set_bg2_h_copy2(value);
        self.set_bg2_h_copy(value);
    }

    pub fn set_bg2_v_live_and_copy(&mut self, value: u16)
        requires
            BG2_Y_SCROLL + 1 < old(self).ram().len(),
            BG2_V_SCROLL_COPY + 1 < old(self).ram().len(),
        ensures
            final(self).ram() == types::with_u16(
                types::with_u16(old(self).ram(), BG2_Y_SCROLL as int, value),
                BG2_V_SCROLL_COPY as int,
                value,
            ),
            final(final(self).ram)@ == final(old(self).ram)@,
    {
        self.set_bg2_v_copy2(value);
        self.set_bg2_v_copy(value);
    }

    pub fn set_bg1_bg2_h_live_and_copy(&mut self, value: u16)
        requires
            BG2_X_SCROLL + 1 < old(self).ram().len(),
            BG2_H_SCROLL_COPY + 1 < old(self).ram().len(),
            BG1_X_SCROLL + 1 < old(self).ram().len(),
            BG1_H_SCROLL_COPY + 1 < old(self).ram().len(),
        ensures
            final(self).ram() == types::with_u16(
                types::with_u16(
                    types::with_u16(
                        types::with_u16(
                            old(self).ram(),
                            BG2_X_SCROLL as int,
                            value,
                        ),
                        BG2_H_SCROLL_COPY as int,
                        value,
                    ),
                    BG1_X_SCROLL as int,
                    value,
                ),
                BG1_H_SCROLL_COPY as int,
                value,
            ),
            final(final(self).ram)@ == final(old(self).ram)@,
    {
        self.set_bg2_h_live_and_copy(value);
        self.set_bg1_h_live_and_copy(value);
    }

    pub fn set_bg1_bg2_v_live_and_copy(&mut self, value: u16)
        requires
            BG2_Y_SCROLL + 1 < old(self).ram().len(),
            BG2_V_SCROLL_COPY + 1 < old(self).ram().len(),
            BG1_Y_SCROLL + 1 < old(self).ram().len(),
            BG1_V_SCROLL_COPY + 1 < old(self).ram().len(),
        ensures
            final(self).ram() == types::with_u16(
                types::with_u16(
                    types::with_u16(
                        types::with_u16(
                            old(self).ram(),
                            BG2_Y_SCROLL as int,
                            value,
                        ),
                        BG2_V_SCROLL_COPY as int,
                        value,
                    ),
                    BG1_Y_SCROLL as int,
                    value,
                ),
                BG1_V_SCROLL_COPY as int,
                value,
            ),
            final(final(self).ram)@ == final(old(self).ram)@,
    {
        self.set_bg2_v_live_and_copy(value);
        self.set_bg1_v_live_and_copy(value);
    }

    pub fn set_bg1_bg2_live_and_copy(&mut self, bg2_h: u16, bg2_v: u16, bg1_h: u16, bg1_v: u16)
        requires
            BG2_X_SCROLL + 1 < old(self).ram().len(),
            BG2_H_SCROLL_COPY + 1 < old(self).ram().len(),
            BG2_Y_SCROLL + 1 < old(self).ram().len(),
            BG2_V_SCROLL_COPY + 1 < old(self).ram().len(),
            BG1_X_SCROLL + 1 < old(self).ram().len(),
            BG1_H_SCROLL_COPY + 1 < old(self).ram().len(),
            BG1_Y_SCROLL + 1 < old(self).ram().len(),
            BG1_V_SCROLL_COPY + 1 < old(self).ram().len(),
        ensures
            final(self).ram() == types::with_u16(
                types::with_u16(
                    types::with_u16(
                        types::with_u16(
                            types::with_u16(
                                types::with_u16(
                                    types::with_u16(
                                        types::with_u16(
                                            old(self).ram(),
                                            BG2_X_SCROLL as int,
                                            bg2_h,
                                        ),
                                        BG2_H_SCROLL_COPY as int,
                                        bg2_h,
                                    ),
                                    BG2_Y_SCROLL as int,
                                    bg2_v,
                                ),
                                BG2_V_SCROLL_COPY as int,
                                bg2_v,
                            ),
                            BG1_X_SCROLL as int,
                            bg1_h,
                        ),
                        BG1_H_SCROLL_COPY as int,
                        bg1_h,
                    ),
                    BG1_Y_SCROLL as int,
                    bg1_v,
                ),
                BG1_V_SCROLL_COPY as int,
                bg1_v,
            ),
            final(final(self).ram)@ == final(old(self).ram)@,
    {
        self.set_bg2_h_live_and_copy(bg2_h);
        self.set_bg2_v_live_and_copy(bg2_v);
        self.set_bg1_h_live_and_copy(bg1_h);
        self.set_bg1_v_live_and_copy(bg1_v);
    }

    pub fn set_bg2_h_copy2_cached(&mut self, value: u16)
        requires
            BG2_H_SCROLL_COPY2_CACHED + 1 < old(self).ram().len(),
        ensures
            final(self).ram() == types::with_u16(
                old(self).ram(),
                BG2_H_SCROLL_COPY2_CACHED as int,
                value,
            ),
            final(final(self).ram)@ == final(old(self).ram)@,
    {
        write_le_u16(self.ram, BG2_H_SCROLL_COPY2_CACHED, value);
    }

    pub fn set_bg2_v_copy2_cached(&mut self, value: u16)
        requires
            BG2_V_SCROLL_COPY2_CACHED + 1 < old(self).ram().len(),
        ensures
            final(self).ram() == types::with_u16(
                old(self).ram(),
                BG2_V_SCROLL_COPY2_CACHED as int,
                value,
            ),
            final(final(self).ram)@ == final(old(self).ram)@,
    {
        write_le_u16(self.ram, BG2_V_SCROLL_COPY2_CACHED, value);
    }

    pub fn cache_bg2_live_scroll(&mut self)
        requires
            BG2_H_SCROLL_COPY2_CACHED + 1 < old(self).ram().len(),
            BG2_X_SCROLL + 1 < old(self).ram().len(),
            BG2_V_SCROLL_COPY2_CACHED + 1 < old(self).ram().len(),
            BG2_Y_SCROLL + 1 < old(self).ram().len(),
        ensures
            ({
                let ram1 = types::with_u16(
                    old(self).ram(),
                    BG2_H_SCROLL_COPY2_CACHED as int,
                    types::u16_at(old(self).ram(), BG2_X_SCROLL as int),
                );
                final(self).ram() == types::with_u16(
                    ram1,
                    BG2_V_SCROLL_COPY2_CACHED as int,
                    types::u16_at(ram1, BG2_Y_SCROLL as int),
                )
            }),
            final(final(self).ram)@ == final(old(self).ram)@,
    {
        copy_word(self.ram, BG2_H_SCROLL_COPY2_CACHED, BG2_X_SCROLL);
        copy_word(self.ram, BG2_V_SCROLL_COPY2_CACHED, BG2_Y_SCROLL);
    }

    pub fn save_special_exit_bg2_live_scroll(&mut self)
        requires
            BG2_H_SCROLL_COPY2_SPECIAL_EXIT + 1 < old(self).ram().len(),
            BG2_X_SCROLL + 1 < old(self).ram().len(),
            BG2_V_SCROLL_COPY2_SPECIAL_EXIT + 1 < old(self).ram().len(),
            BG2_Y_SCROLL + 1 < old(self).ram().len(),
        ensures
            ({
                let ram1 = types::with_u16(
                    old(self).ram(),
                    BG2_H_SCROLL_COPY2_SPECIAL_EXIT as int,
                    types::u16_at(old(self).ram(), BG2_X_SCROLL as int),
                );
                final(self).ram() == types::with_u16(
                    ram1,
                    BG2_V_SCROLL_COPY2_SPECIAL_EXIT as int,
                    types::u16_at(ram1, BG2_Y_SCROLL as int),
                )
            }),
            final(final(self).ram)@ == final(old(self).ram)@,
    {
        copy_word(self.ram, BG2_H_SCROLL_COPY2_SPECIAL_EXIT, BG2_X_SCROLL);
        copy_word(self.ram, BG2_V_SCROLL_COPY2_SPECIAL_EXIT, BG2_Y_SCROLL);
    }

    pub fn save_exit_bg2_live_scroll(&mut self)
        requires
            BG2_H_SCROLL_COPY2_EXIT + 1 < old(self).ram().len(),
            BG2_X_SCROLL + 1 < old(self).ram().len(),
            BG2_V_SCROLL_COPY2_EXIT + 1 < old(self).ram().len(),
            BG2_Y_SCROLL + 1 < old(self).ram().len(),
        ensures
            ({
                let ram1 = types::with_u16(
                    old(self).ram(),
                    BG2_H_SCROLL_COPY2_EXIT as int,
                    types::u16_at(old(self).ram(), BG2_X_SCROLL as int),
                );
                final(self).ram() == types::with_u16(
                    ram1,
                    BG2_V_SCROLL_COPY2_EXIT as int,
                    types::u16_at(ram1, BG2_Y_SCROLL as int),
                )
            }),
            final(final(self).ram)@ == final(old(self).ram)@,
    {
        copy_word(self.ram, BG2_H_SCROLL_COPY2_EXIT, BG2_X_SCROLL);
        copy_word(self.ram, BG2_V_SCROLL_COPY2_EXIT, BG2_Y_SCROLL);
    }

    pub fn restore_special_exit_bg2_scroll_to_all_layers(&mut self)
        requires
            BG2_H_SCROLL_COPY2_SPECIAL_EXIT + 1 < old(self).ram().len(),
            BG2_V_SCROLL_COPY2_SPECIAL_EXIT + 1 < old(self).ram().len(),
            BG2_X_SCROLL + 1 < old(self).ram().len(),
            BG2_H_SCROLL_COPY + 1 < old(self).ram().len(),
            BG1_X_SCROLL + 1 < old(self).ram().len(),
            BG1_H_SCROLL_COPY + 1 < old(self).ram().len(),
            BG2_Y_SCROLL + 1 < old(self).ram().len(),
            BG2_V_SCROLL_COPY + 1 < old(self).ram().len(),
            BG1_Y_SCROLL + 1 < old(self).ram().len(),
            BG1_V_SCROLL_COPY + 1 < old(self).ram().len(),
        ensures
            final(self).ram() == types::with_u16(
                types::with_u16(
                    types::with_u16(
                        types::with_u16(
                            types::with_u16(
                                types::with_u16(
                                    types::with_u16(
                                        types::with_u16(
                                            old(self).ram(),
                                            BG2_X_SCROLL as int,
                                            types::u16_at(
                                                old(self).ram(),
                                                BG2_H_SCROLL_COPY2_SPECIAL_EXIT as int,
                                            ),
                                        ),
                                        BG2_H_SCROLL_COPY as int,
                                        types::u16_at(
                                            old(self).ram(),
                                            BG2_H_SCROLL_COPY2_SPECIAL_EXIT as int,
                                        ),
                                    ),
                                    BG1_X_SCROLL as int,
                                    types::u16_at(
                                        old(self).ram(),
                                        BG2_H_SCROLL_COPY2_SPECIAL_EXIT as int,
                                    ),
                                ),
                                BG1_H_SCROLL_COPY as int,
                                types::u16_at(
                                    old(self).ram(),
                                    BG2_H_SCROLL_COPY2_SPECIAL_EXIT as int,
                                ),
                            ),
                            BG2_Y_SCROLL as int,
                            types::u16_at(
                                old(self).ram(),
                                BG2_V_SCROLL_COPY2_SPECIAL_EXIT as int,
                            ),
                        ),
                        BG2_V_SCROLL_COPY as int,
                        types::u16_at(
                            old(self).ram(),
                            BG2_V_SCROLL_COPY2_SPECIAL_EXIT as int,
                        ),
                    ),
                    BG1_Y_SCROLL as int,
                    types::u16_at(
                        old(self).ram(),
                        BG2_V_SCROLL_COPY2_SPECIAL_EXIT as int,
                    ),
                ),
                BG1_V_SCROLL_COPY as int,
                types::u16_at(
                    old(self).ram(),
                    BG2_V_SCROLL_COPY2_SPECIAL_EXIT as int,
                ),
            ),
            final(final(self).ram)@ == final(old(self).ram)@,
    {
        let h = read_le_u16(self.ram, BG2_H_SCROLL_COPY2_SPECIAL_EXIT);
        let v = read_le_u16(self.ram, BG2_V_SCROLL_COPY2_SPECIAL_EXIT);
        self.set_all_layer_h_scrolls(h);
        self.set_all_layer_v_scrolls(v);
    }

    pub fn restore_exit_bg2_scroll_to_all_layers(&mut self)
        requires
            BG2_H_SCROLL_COPY2_EXIT + 1 < old(self).ram().len(),
            BG2_V_SCROLL_COPY2_EXIT + 1 < old(self).ram().len(),
            BG2_X_SCROLL + 1 < old(self).ram().len(),
            BG2_H_SCROLL_COPY + 1 < old(self).ram().len(),
            BG1_X_SCROLL + 1 < old(self).ram().len(),
            BG1_H_SCROLL_COPY + 1 < old(self).ram().len(),
            BG2_Y_SCROLL + 1 < old(self).ram().len(),
            BG2_V_SCROLL_COPY + 1 < old(self).ram().len(),
            BG1_Y_SCROLL + 1 < old(self).ram().len(),
            BG1_V_SCROLL_COPY + 1 < old(self).ram().len(),
        ensures
            final(self).ram() == types::with_u16(
                types::with_u16(
                    types::with_u16(
                        types::with_u16(
                            types::with_u16(
                                types::with_u16(
                                    types::with_u16(
                                        types::with_u16(
                                            old(self).ram(),
                                            BG2_X_SCROLL as int,
                                            types::u16_at(
                                                old(self).ram(),
                                                BG2_H_SCROLL_COPY2_EXIT as int,
                                            ),
                                        ),
                                        BG2_H_SCROLL_COPY as int,
                                        types::u16_at(
                                            old(self).ram(),
                                            BG2_H_SCROLL_COPY2_EXIT as int,
                                        ),
                                    ),
                                    BG1_X_SCROLL as int,
                                    types::u16_at(
                                        old(self).ram(),
                                        BG2_H_SCROLL_COPY2_EXIT as int,
                                    ),
                                ),
                                BG1_H_SCROLL_COPY as int,
                                types::u16_at(
                                    old(self).ram(),
                                    BG2_H_SCROLL_COPY2_EXIT as int,
                                ),
                            ),
                            BG2_Y_SCROLL as int,
                            types::u16_at(
                                old(self).ram(),
                                BG2_V_SCROLL_COPY2_EXIT as int,
                            ),
                        ),
                        BG2_V_SCROLL_COPY as int,
                        types::u16_at(
                            old(self).ram(),
                            BG2_V_SCROLL_COPY2_EXIT as int,
                        ),
                    ),
                    BG1_Y_SCROLL as int,
                    types::u16_at(
                        old(self).ram(),
                        BG2_V_SCROLL_COPY2_EXIT as int,
                    ),
                ),
                BG1_V_SCROLL_COPY as int,
                types::u16_at(old(self).ram(), BG2_V_SCROLL_COPY2_EXIT as int),
            ),
            final(final(self).ram)@ == final(old(self).ram)@,
    {
        let h = read_le_u16(self.ram, BG2_H_SCROLL_COPY2_EXIT);
        let v = read_le_u16(self.ram, BG2_V_SCROLL_COPY2_EXIT);
        self.set_all_layer_h_scrolls(h);
        self.set_all_layer_v_scrolls(v);
    }

    pub fn set_all_layer_h_scrolls(&mut self, value: u16)
        requires
            BG2_X_SCROLL + 1 < old(self).ram().len(),
            BG2_H_SCROLL_COPY + 1 < old(self).ram().len(),
            BG1_X_SCROLL + 1 < old(self).ram().len(),
            BG1_H_SCROLL_COPY + 1 < old(self).ram().len(),
        ensures
            final(self).ram() == types::with_u16(
                types::with_u16(
                    types::with_u16(
                        types::with_u16(
                            old(self).ram(),
                            BG2_X_SCROLL as int,
                            value,
                        ),
                        BG2_H_SCROLL_COPY as int,
                        value,
                    ),
                    BG1_X_SCROLL as int,
                    value,
                ),
                BG1_H_SCROLL_COPY as int,
                value,
            ),
            final(final(self).ram)@ == final(old(self).ram)@,
    {
        self.set_bg2_h_copy2(value);
        self.set_bg2_h_copy(value);
        self.set_bg1_h_copy2(value);
        self.set_bg1_h_copy(value);
    }

    pub fn set_all_layer_v_scrolls(&mut self, value: u16)
        requires
            BG2_Y_SCROLL + 1 < old(self).ram().len(),
            BG2_V_SCROLL_COPY + 1 < old(self).ram().len(),
            BG1_Y_SCROLL + 1 < old(self).ram().len(),
            BG1_V_SCROLL_COPY + 1 < old(self).ram().len(),
        ensures
            final(self).ram() == types::with_u16(
                types::with_u16(
                    types::with_u16(
                        types::with_u16(
                            old(self).ram(),
                            BG2_Y_SCROLL as int,
                            value,
                        ),
                        BG2_V_SCROLL_COPY as int,
                        value,
                    ),
                    BG1_Y_SCROLL as int,
                    value,
                ),
                BG1_V_SCROLL_COPY as int,
                value,
            ),
            final(final(self).ram)@ == final(old(self).ram)@,
    {
        self.set_bg2_v_copy2(value);
        self.set_bg2_v_copy(value);
        self.set_bg1_v_copy2(value);
        self.set_bg1_v_copy(value);
    }

    pub fn set_map_backup_scrolls(&mut self, bg1_h: u16, bg2_h: u16, bg1_v: u16, bg2_v: u16)
        requires
            MAP_BACKUP_BG1_H_SCROLL_COPY2 + 1 < old(self).ram().len(),
            MAP_BACKUP_BG2_H_SCROLL_COPY2 + 1 < old(self).ram().len(),
            MAP_BACKUP_BG1_V_SCROLL_COPY2 + 1 < old(self).ram().len(),
            MAP_BACKUP_BG2_V_SCROLL_COPY2 + 1 < old(self).ram().len(),
        ensures
            final(self).ram() == types::with_u16(
                types::with_u16(
                    types::with_u16(
                        types::with_u16(
                            old(self).ram(),
                            MAP_BACKUP_BG1_H_SCROLL_COPY2 as int,
                            bg1_h,
                        ),
                        MAP_BACKUP_BG2_H_SCROLL_COPY2 as int,
                        bg2_h,
                    ),
                    MAP_BACKUP_BG1_V_SCROLL_COPY2 as int,
                    bg1_v,
                ),
                MAP_BACKUP_BG2_V_SCROLL_COPY2 as int,
                bg2_v,
            ),
            final(final(self).ram)@ == final(old(self).ram)@,
    {
        write_le_u16(self.ram, MAP_BACKUP_BG1_H_SCROLL_COPY2, bg1_h);
        write_le_u16(self.ram, MAP_BACKUP_BG2_H_SCROLL_COPY2, bg2_h);
        write_le_u16(self.ram, MAP_BACKUP_BG1_V_SCROLL_COPY2, bg1_v);
        write_le_u16(self.ram, MAP_BACKUP_BG2_V_SCROLL_COPY2, bg2_v);
    }

    pub fn clear_bg3_h_copy2(&mut self)
        requires
            BG3_H_SCROLL_COPY2 + 1 < old(self).ram().len(),
        ensures
            final(self).ram() == types::with_u16(old(self).ram(), BG3_H_SCROLL_COPY2 as int, 0),
            final(final(self).ram)@ == final(old(self).ram)@,
    {
        self.set_bg3_h_copy2(0);
    }

    pub fn clear_bg3_v_copy2(&mut self)
        requires
            BG3_V_SCROLL_COPY2 + 1 < old(self).ram().len(),
        ensures
            final(self).ram() == types::with_u16(old(self).ram(), BG3_V_SCROLL_COPY2 as int, 0),
            final(final(self).ram)@ == final(old(self).ram)@,
    {
        self.set_bg3_v_copy2(0);
    }

    pub fn add_bg1_h_copy_low(&mut self, value: u8)
        requires
            BG1_H_SCROLL_COPY < old(self).ram().len(),
        ensures
            final(self).ram() == old(self).ram().update(
                BG1_H_SCROLL_COPY as int,
                old(self).ram()[BG1_H_SCROLL_COPY as int].wrapping_add(value),
            ),
            final(final(self).ram)@ == final(old(self).ram)@,
    {
        self.ram[BG1_H_SCROLL_COPY] = self.ram[BG1_H_SCROLL_COPY].wrapping_add(value);
    }

    pub fn add_bg1_v_copy_low(&mut self, value: u8)
        requires
            BG1_V_SCROLL_COPY < old(self).ram().len(),
        ensures
            final(self).ram() == old(self).ram().update(
                BG1_V_SCROLL_COPY as int,
                old(self).ram()[BG1_V_SCROLL_COPY as int].wrapping_add(value),
            ),
            final(final(self).ram)@ == final(old(self).ram)@,
    {
        self.ram[BG1_V_SCROLL_COPY] = self.ram[BG1_V_SCROLL_COPY].wrapping_add(value);
    }

    pub fn add_bg2_v_copy_low(&mut self, value: u8)
        requires
            BG2_V_SCROLL_COPY < old(self).ram().len(),
        ensures
            final(self).ram() == old(self).ram().update(
                BG2_V_SCROLL_COPY as int,
                old(self).ram()[BG2_V_SCROLL_COPY as int].wrapping_add(value),
            ),
            final(final(self).ram)@ == final(old(self).ram)@,
    {
        self.ram[BG2_V_SCROLL_COPY] = self.ram[BG2_V_SCROLL_COPY].wrapping_add(value);
    }

    pub fn subtract_bg2_h_copy_low(&mut self, value: u8)
        requires
            BG2_H_SCROLL_COPY < old(self).ram().len(),
        ensures
            final(self).ram() == old(self).ram().update(
                BG2_H_SCROLL_COPY as int,
                old(self).ram()[BG2_H_SCROLL_COPY as int].wrapping_sub(value),
            ),
            final(final(self).ram)@ == final(old(self).ram)@,
    {
        self.ram[BG2_H_SCROLL_COPY] = self.ram[BG2_H_SCROLL_COPY].wrapping_sub(value);
    }

    pub fn add_bg2_h_copy2_signed(&mut self, value: i8)
        requires
            BG2_X_SCROLL + 1 < old(self).ram().len(),
        ensures
            final(self).ram() == types::with_u16(
                old(self).ram(),
                BG2_X_SCROLL as int,
                types::u16_at(old(self).ram(), BG2_X_SCROLL as int)
                    .wrapping_add((value as i16) as u16),
            ),
            final(final(self).ram)@ == final(old(self).ram)@,
    {
        let next = read_le_u16(self.ram, BG2_X_SCROLL).wrapping_add(value as i16 as u16);
        write_le_u16(self.ram, BG2_X_SCROLL, next);
    }

    pub fn add_bg2_v_copy2_signed(&mut self, value: i8)
        requires
            BG2_Y_SCROLL + 1 < old(self).ram().len(),
        ensures
            final(self).ram() == types::with_u16(
                old(self).ram(),
                BG2_Y_SCROLL as int,
                types::u16_at(old(self).ram(), BG2_Y_SCROLL as int)
                    .wrapping_add((value as i16) as u16),
            ),
            final(final(self).ram)@ == final(old(self).ram)@,
    {
        let next = read_le_u16(self.ram, BG2_Y_SCROLL).wrapping_add(value as i16 as u16);
        write_le_u16(self.ram, BG2_Y_SCROLL, next);
    }

    pub fn add_bg3_v_copy2_signed(&mut self, value: i8)
        requires
            BG3_V_SCROLL_COPY2 + 1 < old(self).ram().len(),
        ensures
            final(self).ram() == types::with_u16(
                old(self).ram(),
                BG3_V_SCROLL_COPY2 as int,
                types::u16_at(old(self).ram(), BG3_V_SCROLL_COPY2 as int)
                    .wrapping_add((value as i16) as u16),
            ),
            final(final(self).ram)@ == final(old(self).ram)@,
    {
        let next = read_le_u16(self.ram, BG3_V_SCROLL_COPY2).wrapping_add(value as i16 as u16);
        write_le_u16(self.ram, BG3_V_SCROLL_COPY2, next);
    }

    fn add_subpixel_scroll(&mut self, subpixel_addr: usize, scroll_addr: usize, value: u32)
        requires
            subpixel_addr + 1 < old(self).ram().len(),
            scroll_addr + 1 < old(self).ram().len(),
        ensures
            final(self).ram() == types::with_u16(
                types::with_u16(
                    old(self).ram(),
                    subpixel_addr as int,
                    ((types::u16_at(old(self).ram(), subpixel_addr as int) as u32) | ((types::u16_at(old(self).ram(), scroll_addr as int) as u32) << 16)).wrapping_add(value) as u16,
                ),
                scroll_addr as int,
                (((types::u16_at(old(self).ram(), subpixel_addr as int) as u32) | ((types::u16_at(old(self).ram(), scroll_addr as int) as u32) << 16)).wrapping_add(value) >> 16) as u16,
            ),
            final(final(self).ram)@ == final(old(self).ram)@,
    {
        let current = (read_le_u16(self.ram, subpixel_addr) as u32) | ((read_le_u16(self.ram, scroll_addr) as u32) << 16);
        let next = current.wrapping_add(value);
        write_le_u16(self.ram, subpixel_addr, next as u16);
        write_le_u16(self.ram, scroll_addr, (next >> 16) as u16);
    }

    fn subtract_subpixel_scroll(&mut self, subpixel_addr: usize, scroll_addr: usize, value: u32)
        requires
            subpixel_addr + 1 < old(self).ram().len(),
            scroll_addr + 1 < old(self).ram().len(),
        ensures
            final(self).ram() == types::with_u16(
                types::with_u16(
                    old(self).ram(),
                    subpixel_addr as int,
                    ((types::u16_at(old(self).ram(), subpixel_addr as int) as u32) | ((types::u16_at(old(self).ram(), scroll_addr as int) as u32) << 16)).wrapping_sub(value) as u16,
                ),
                scroll_addr as int,
                (((types::u16_at(old(self).ram(), subpixel_addr as int) as u32) | ((types::u16_at(old(self).ram(), scroll_addr as int) as u32) << 16)).wrapping_sub(value) >> 16) as u16,
            ),
            final(final(self).ram)@ == final(old(self).ram)@,
    {
        let current = (read_le_u16(self.ram, subpixel_addr) as u32) | ((read_le_u16(self.ram, scroll_addr) as u32) << 16);
        let next = current.wrapping_sub(value);
        write_le_u16(self.ram, subpixel_addr, next as u16);
        write_le_u16(self.ram, scroll_addr, (next >> 16) as u16);
    }

    pub fn clear_bg1_scroll_subpixels(&mut self)
        requires
            BG1_H_SCROLL_SUBPIXEL + 1 < old(self).ram().len(),
            BG1_V_SCROLL_SUBPIXEL + 1 < old(self).ram().len(),
        ensures
            final(self).ram() == types::with_u16(
                types::with_u16(
                    old(self).ram(),
                    BG1_H_SCROLL_SUBPIXEL as int,
                    0u16,
                ),
                BG1_V_SCROLL_SUBPIXEL as int,
                0u16,
            ),
            final(final(self).ram)@ == final(old(self).ram)@,
    {
        write_le_u16(self.ram, BG1_H_SCROLL_SUBPIXEL, 0);
        write_le_u16(self.ram, BG1_V_SCROLL_SUBPIXEL, 0);
    }

    pub fn add_bg1_h_live_subpixel(&mut self, subpixel: u16, scroll: u16)
        requires
            BG1_H_SCROLL_SUBPIXEL + 1 < old(self).ram().len(),
            BG1_X_SCROLL + 1 < old(self).ram().len(),
        ensures
            final(self).ram() == types::with_u16(
                types::with_u16(
                    old(self).ram(),
                    BG1_H_SCROLL_SUBPIXEL as int,
                    ((types::u16_at(old(self).ram(), BG1_H_SCROLL_SUBPIXEL as int) as u32) | ((types::u16_at(old(self).ram(), BG1_X_SCROLL as int) as u32) << 16)).wrapping_add((subpixel as u32) | ((scroll as u32) << 16)) as u16,
                ),
                BG1_X_SCROLL as int,
                (((types::u16_at(old(self).ram(), BG1_H_SCROLL_SUBPIXEL as int) as u32) | ((types::u16_at(old(self).ram(), BG1_X_SCROLL as int) as u32) << 16)).wrapping_add((subpixel as u32) | ((scroll as u32) << 16)) >> 16) as u16,
            ),
            final(final(self).ram)@ == final(old(self).ram)@,
    {
        self.add_subpixel_scroll(
            BG1_H_SCROLL_SUBPIXEL,
            BG1_X_SCROLL,
            (subpixel as u32) | ((scroll as u32) << 16),
        );
    }

    pub fn add_bg1_v_live_subpixel(&mut self, subpixel: u16, scroll: u16)
        requires
            BG1_V_SCROLL_SUBPIXEL + 1 < old(self).ram().len(),
            BG1_Y_SCROLL + 1 < old(self).ram().len(),
        ensures
            final(self).ram() == types::with_u16(
                types::with_u16(
                    old(self).ram(),
                    BG1_V_SCROLL_SUBPIXEL as int,
                    ((types::u16_at(old(self).ram(), BG1_V_SCROLL_SUBPIXEL as int) as u32) | ((types::u16_at(old(self).ram(), BG1_Y_SCROLL as int) as u32) << 16)).wrapping_add((subpixel as u32) | ((scroll as u32) << 16)) as u16,
                ),
                BG1_Y_SCROLL as int,
                (((types::u16_at(old(self).ram(), BG1_V_SCROLL_SUBPIXEL as int) as u32) | ((types::u16_at(old(self).ram(), BG1_Y_SCROLL as int) as u32) << 16)).wrapping_add((subpixel as u32) | ((scroll as u32) << 16)) >> 16) as u16,
            ),
            final(final(self).ram)@ == final(old(self).ram)@,
    {
        self.add_subpixel_scroll(
            BG1_V_SCROLL_SUBPIXEL,
            BG1_Y_SCROLL,
            (subpixel as u32) | ((scroll as u32) << 16),
        );
    }

    pub fn subtract_bg1_v_live_subpixel(&mut self, value: u32)
        requires
            BG1_V_SCROLL_SUBPIXEL + 1 < old(self).ram().len(),
            BG1_Y_SCROLL + 1 < old(self).ram().len(),
        ensures
            final(self).ram() == types::with_u16(
                types::with_u16(
                    old(self).ram(),
                    BG1_V_SCROLL_SUBPIXEL as int,
                    ((types::u16_at(old(self).ram(), BG1_V_SCROLL_SUBPIXEL as int) as u32) | ((types::u16_at(old(self).ram(), BG1_Y_SCROLL as int) as u32) << 16)).wrapping_sub(value) as u16,
                ),
                BG1_Y_SCROLL as int,
                (((types::u16_at(old(self).ram(), BG1_V_SCROLL_SUBPIXEL as int) as u32) | ((types::u16_at(old(self).ram(), BG1_Y_SCROLL as int) as u32) << 16)).wrapping_sub(value) >> 16) as u16,
            ),
            final(final(self).ram)@ == final(old(self).ram)@,
    {
        self.subtract_subpixel_scroll(BG1_V_SCROLL_SUBPIXEL, BG1_Y_SCROLL, value);
    }

    pub fn add_bg1_h_copy2_subpixel(&mut self, subpixel: u16, scroll: u16)
        requires
            BG1_H_SCROLL_SUBPIXEL + 1 < old(self).ram().len(),
            BG1_X_SCROLL + 1 < old(self).ram().len(),
        ensures
            final(self).ram() == types::with_u16(
                types::with_u16(
                    old(self).ram(),
                    BG1_H_SCROLL_SUBPIXEL as int,
                    ((types::u16_at(old(self).ram(), BG1_H_SCROLL_SUBPIXEL as int) as u32) | ((types::u16_at(old(self).ram(), BG1_X_SCROLL as int) as u32) << 16)).wrapping_add((subpixel as u32) | ((scroll as u32) << 16)) as u16,
                ),
                BG1_X_SCROLL as int,
                (((types::u16_at(old(self).ram(), BG1_H_SCROLL_SUBPIXEL as int) as u32) | ((types::u16_at(old(self).ram(), BG1_X_SCROLL as int) as u32) << 16)).wrapping_add((subpixel as u32) | ((scroll as u32) << 16)) >> 16) as u16,
            ),
            final(final(self).ram)@ == final(old(self).ram)@,
    {
        self.add_bg1_h_live_subpixel(subpixel, scroll);
    }

    pub fn add_bg1_v_copy2_subpixel(&mut self, subpixel: u16, scroll: u16)
        requires
            BG1_V_SCROLL_SUBPIXEL + 1 < old(self).ram().len(),
            BG1_Y_SCROLL + 1 < old(self).ram().len(),
        ensures
            final(self).ram() == types::with_u16(
                types::with_u16(
                    old(self).ram(),
                    BG1_V_SCROLL_SUBPIXEL as int,
                    ((types::u16_at(old(self).ram(), BG1_V_SCROLL_SUBPIXEL as int) as u32) | ((types::u16_at(old(self).ram(), BG1_Y_SCROLL as int) as u32) << 16)).wrapping_add((subpixel as u32) | ((scroll as u32) << 16)) as u16,
                ),
                BG1_Y_SCROLL as int,
                (((types::u16_at(old(self).ram(), BG1_V_SCROLL_SUBPIXEL as int) as u32) | ((types::u16_at(old(self).ram(), BG1_Y_SCROLL as int) as u32) << 16)).wrapping_add((subpixel as u32) | ((scroll as u32) << 16)) >> 16) as u16,
            ),
            final(final(self).ram)@ == final(old(self).ram)@,
    {
        self.add_bg1_v_live_subpixel(subpixel, scroll);
    }

    pub fn subtract_bg1_v_copy2_subpixel(&mut self, subpixel: u16, scroll: u16)
        requires
            BG1_V_SCROLL_SUBPIXEL + 1 < old(self).ram().len(),
            BG1_Y_SCROLL + 1 < old(self).ram().len(),
        ensures
            final(self).ram() == types::with_u16(
                types::with_u16(
                    old(self).ram(),
                    BG1_V_SCROLL_SUBPIXEL as int,
                    ((types::u16_at(old(self).ram(), BG1_V_SCROLL_SUBPIXEL as int) as u32) | ((types::u16_at(old(self).ram(), BG1_Y_SCROLL as int) as u32) << 16)).wrapping_sub((subpixel as u32) | ((scroll as u32) << 16)) as u16,
                ),
                BG1_Y_SCROLL as int,
                (((types::u16_at(old(self).ram(), BG1_V_SCROLL_SUBPIXEL as int) as u32) | ((types::u16_at(old(self).ram(), BG1_Y_SCROLL as int) as u32) << 16)).wrapping_sub((subpixel as u32) | ((scroll as u32) << 16)) >> 16) as u16,
            ),
            final(final(self).ram)@ == final(old(self).ram)@,
    {
        self.subtract_subpixel_scroll(
            BG1_V_SCROLL_SUBPIXEL,
            BG1_Y_SCROLL,
            (subpixel as u32) | ((scroll as u32) << 16),
        );
    }

    pub fn set_bg1_h_subpixel(&mut self, value: u16)
        requires
            BG1_H_SCROLL_SUBPIXEL + 1 < old(self).ram().len(),
        ensures
            final(self).ram() == types::with_u16(
                old(self).ram(),
                BG1_H_SCROLL_SUBPIXEL as int,
                value,
            ),
            final(final(self).ram)@ == final(old(self).ram)@,
    {
        write_le_u16(self.ram, BG1_H_SCROLL_SUBPIXEL, value);
    }

    pub fn set_bg1_v_subpixel(&mut self, value: u16)
        requires
            BG1_V_SCROLL_SUBPIXEL + 1 < old(self).ram().len(),
        ensures
            final(self).ram() == types::with_u16(
                old(self).ram(),
                BG1_V_SCROLL_SUBPIXEL as int,
                value,
            ),
            final(final(self).ram)@ == final(old(self).ram)@,
    {
        write_le_u16(self.ram, BG1_V_SCROLL_SUBPIXEL, value);
    }

    pub fn step_bg2_h_copy2_toward_cached(&mut self)
        requires
            BG2_X_SCROLL + 1 < old(self).ram().len(),
            BG2_H_SCROLL_COPY2_CACHED + 1 < old(self).ram().len(),
        ensures
            final(self).ram() == (if types::u16_at(old(self).ram(), BG2_X_SCROLL as int) != types::u16_at(old(self).ram(), BG2_H_SCROLL_COPY2_CACHED as int) {
                types::with_u16(
                    old(self).ram(),
                    BG2_X_SCROLL as int,
                    if types::u16_at(old(self).ram(), BG2_X_SCROLL as int) < types::u16_at(old(self).ram(), BG2_H_SCROLL_COPY2_CACHED as int) {
                        types::u16_at(old(self).ram(), BG2_X_SCROLL as int).wrapping_add(1)
                    } else {
                        types::u16_at(old(self).ram(), BG2_X_SCROLL as int).wrapping_sub(1)
                    },
                )
            } else {
                old(self).ram()
            }),
            final(final(self).ram)@ == final(old(self).ram)@,
    {
        let h = read_le_u16(self.ram, BG2_X_SCROLL);
        let cached = read_le_u16(self.ram, BG2_H_SCROLL_COPY2_CACHED);
        if h != cached {
            write_le_u16(
                self.ram,
                BG2_X_SCROLL,
                if h < cached { h.wrapping_add(1) } else { h.wrapping_sub(1) },
            );
        }
    }

    pub fn step_bg2_v_copy2_toward_cached(&mut self)
        requires
            BG2_Y_SCROLL + 1 < old(self).ram().len(),
            BG2_V_SCROLL_COPY2_CACHED + 1 < old(self).ram().len(),
        ensures
            final(self).ram() == (if types::u16_at(old(self).ram(), BG2_Y_SCROLL as int) != types::u16_at(old(self).ram(), BG2_V_SCROLL_COPY2_CACHED as int) {
                types::with_u16(
                    old(self).ram(),
                    BG2_Y_SCROLL as int,
                    if types::u16_at(old(self).ram(), BG2_Y_SCROLL as int) < types::u16_at(old(self).ram(), BG2_V_SCROLL_COPY2_CACHED as int) {
                        types::u16_at(old(self).ram(), BG2_Y_SCROLL as int).wrapping_add(1)
                    } else {
                        types::u16_at(old(self).ram(), BG2_Y_SCROLL as int).wrapping_sub(1)
                    },
                )
            } else {
                old(self).ram()
            }),
            final(final(self).ram)@ == final(old(self).ram)@,
    {
        let v = read_le_u16(self.ram, BG2_Y_SCROLL);
        let cached = read_le_u16(self.ram, BG2_V_SCROLL_COPY2_CACHED);
        if v != cached {
            write_le_u16(
                self.ram,
                BG2_Y_SCROLL,
                if v < cached { v.wrapping_add(1) } else { v.wrapping_sub(1) },
            );
        }
    }

    pub fn add_bg2_h_copy2(&mut self, value: u16)
        requires
            BG2_X_SCROLL + 1 < old(self).ram().len(),
        ensures
            final(self).ram() == types::with_u16(
                old(self).ram(),
                BG2_X_SCROLL as int,
                types::u16_at(old(self).ram(), BG2_X_SCROLL as int)
                    .wrapping_add(value),
            ),
            final(final(self).ram)@ == final(old(self).ram)@,
    {
        let next = read_le_u16(self.ram, BG2_X_SCROLL).wrapping_add(value);
        write_le_u16(self.ram, BG2_X_SCROLL, next);
    }

    pub fn add_bg2_v_copy2(&mut self, value: u16)
        requires
            BG2_Y_SCROLL + 1 < old(self).ram().len(),
        ensures
            final(self).ram() == types::with_u16(
                old(self).ram(),
                BG2_Y_SCROLL as int,
                types::u16_at(old(self).ram(), BG2_Y_SCROLL as int)
                    .wrapping_add(value),
            ),
            final(final(self).ram)@ == final(old(self).ram)@,
    {
        let next = read_le_u16(self.ram, BG2_Y_SCROLL).wrapping_add(value);
        write_le_u16(self.ram, BG2_Y_SCROLL, next);
    }

    pub fn add_bg2_copy2_for_axis_signed(&mut self, vertical: bool, value: i16)
        requires
            vertical ==> BG2_Y_SCROLL + 1 < old(self).ram().len(),
            !vertical ==> BG2_X_SCROLL + 1 < old(self).ram().len(),
        ensures
            final(self).ram() == (if vertical {
                types::with_u16(
                    old(self).ram(),
                    BG2_Y_SCROLL as int,
                    types::u16_at(old(self).ram(), BG2_Y_SCROLL as int)
                        .wrapping_add_signed(value),
                )
            } else {
                types::with_u16(
                    old(self).ram(),
                    BG2_X_SCROLL as int,
                    types::u16_at(old(self).ram(), BG2_X_SCROLL as int)
                        .wrapping_add_signed(value),
                )
            }),
            final(final(self).ram)@ == final(old(self).ram)@,
    {
        if vertical {
            let next = read_le_u16(self.ram, BG2_Y_SCROLL).wrapping_add_signed(value);
            write_le_u16(self.ram, BG2_Y_SCROLL, next);
        } else {
            let next = read_le_u16(self.ram, BG2_X_SCROLL).wrapping_add_signed(value);
            write_le_u16(self.ram, BG2_X_SCROLL, next);
        }
    }

    pub fn copy_bg1_live_to_ppu_copy(&mut self)
        requires
            BG1_H_SCROLL_COPY + 1 < old(self).ram().len(),
            BG1_X_SCROLL + 1 < old(self).ram().len(),
            BG1_V_SCROLL_COPY + 1 < old(self).ram().len(),
            BG1_Y_SCROLL + 1 < old(self).ram().len(),
        ensures
            ({
                let ram1 = types::with_u16(
                    old(self).ram(),
                    BG1_H_SCROLL_COPY as int,
                    types::u16_at(old(self).ram(), BG1_X_SCROLL as int),
                );
                final(self).ram() == types::with_u16(
                    ram1,
                    BG1_V_SCROLL_COPY as int,
                    types::u16_at(ram1, BG1_Y_SCROLL as int),
                )
            }),
            final(final(self).ram)@ == final(old(self).ram)@,
    {
        copy_word(self.ram, BG1_H_SCROLL_COPY, BG1_X_SCROLL);
        copy_word(self.ram, BG1_V_SCROLL_COPY, BG1_Y_SCROLL);
    }

    pub fn copy_bg2_live_to_ppu_copy(&mut self)
        requires
            BG2_H_SCROLL_COPY + 1 < old(self).ram().len(),
            BG2_X_SCROLL + 1 < old(self).ram().len(),
            BG2_V_SCROLL_COPY + 1 < old(self).ram().len(),
            BG2_Y_SCROLL + 1 < old(self).ram().len(),
        ensures
            ({
                let ram1 = types::with_u16(
                    old(self).ram(),
                    BG2_H_SCROLL_COPY as int,
                    types::u16_at(old(self).ram(), BG2_X_SCROLL as int),
                );
                final(self).ram() == types::with_u16(
                    ram1,
                    BG2_V_SCROLL_COPY as int,
                    types::u16_at(ram1, BG2_Y_SCROLL as int),
                )
            }),
            final(final(self).ram)@ == final(old(self).ram)@,
    {
        copy_word(self.ram, BG2_H_SCROLL_COPY, BG2_X_SCROLL);
        copy_word(self.ram, BG2_V_SCROLL_COPY, BG2_Y_SCROLL);
    }

    pub fn copy_live_to_ppu_copy(&mut self)
        requires
            BG1_H_SCROLL_COPY + 1 < old(self).ram().len(),
            BG1_X_SCROLL + 1 < old(self).ram().len(),
            BG1_V_SCROLL_COPY + 1 < old(self).ram().len(),
            BG1_Y_SCROLL + 1 < old(self).ram().len(),
            BG2_H_SCROLL_COPY + 1 < old(self).ram().len(),
            BG2_X_SCROLL + 1 < old(self).ram().len(),
            BG2_V_SCROLL_COPY + 1 < old(self).ram().len(),
            BG2_Y_SCROLL + 1 < old(self).ram().len(),
        ensures
            ({
                let ram1 = types::with_u16(
                    old(self).ram(),
                    BG1_H_SCROLL_COPY as int,
                    types::u16_at(old(self).ram(), BG1_X_SCROLL as int),
                );
                let ram2 = types::with_u16(
                    ram1,
                    BG1_V_SCROLL_COPY as int,
                    types::u16_at(ram1, BG1_Y_SCROLL as int),
                );
                let ram3 = types::with_u16(
                    ram2,
                    BG2_H_SCROLL_COPY as int,
                    types::u16_at(ram2, BG2_X_SCROLL as int),
                );
                final(self).ram() == types::with_u16(
                    ram3,
                    BG2_V_SCROLL_COPY as int,
                    types::u16_at(ram3, BG2_Y_SCROLL as int),
                )
            }),
            final(final(self).ram)@ == final(old(self).ram)@,
    {
        self.copy_bg1_live_to_ppu_copy();
        self.copy_bg2_live_to_ppu_copy();
    }

    pub fn copy_bg2_live_to_bg1_live(&mut self)
        requires
            BG1_X_SCROLL + 1 < old(self).ram().len(),
            BG2_X_SCROLL + 1 < old(self).ram().len(),
            BG1_Y_SCROLL + 1 < old(self).ram().len(),
            BG2_Y_SCROLL + 1 < old(self).ram().len(),
        ensures
            ({
                let ram1 = types::with_u16(
                    old(self).ram(),
                    BG1_X_SCROLL as int,
                    types::u16_at(old(self).ram(), BG2_X_SCROLL as int),
                );
                final(self).ram() == types::with_u16(
                    ram1,
                    BG1_Y_SCROLL as int,
                    types::u16_at(ram1, BG2_Y_SCROLL as int),
                )
            }),
            final(final(self).ram)@ == final(old(self).ram)@,
    {
        copy_word(self.ram, BG1_X_SCROLL, BG2_X_SCROLL);
        copy_word(self.ram, BG1_Y_SCROLL, BG2_Y_SCROLL);
    }

    pub fn copy_bg2_h_live_to_bg1_h_live(&mut self)
        requires
            BG1_X_SCROLL + 1 < old(self).ram().len(),
            BG2_X_SCROLL + 1 < old(self).ram().len(),
        ensures
            final(self).ram() == types::with_u16(
                old(self).ram(),
                BG1_X_SCROLL as int,
                types::u16_at(old(self).ram(), BG2_X_SCROLL as int),
            ),
            final(final(self).ram)@ == final(old(self).ram)@,
    {
        copy_word(self.ram, BG1_X_SCROLL, BG2_X_SCROLL);
    }

    pub fn copy_bg2_v_live_to_bg1_v_live(&mut self)
        requires
            BG1_Y_SCROLL + 1 < old(self).ram().len(),
            BG2_Y_SCROLL + 1 < old(self).ram().len(),
        ensures
            final(self).ram() == types::with_u16(
                old(self).ram(),
                BG1_Y_SCROLL as int,
                types::u16_at(old(self).ram(), BG2_Y_SCROLL as int),
            ),
            final(final(self).ram)@ == final(old(self).ram)@,
    {
        copy_word(self.ram, BG1_Y_SCROLL, BG2_Y_SCROLL);
    }
}

} // verus!
