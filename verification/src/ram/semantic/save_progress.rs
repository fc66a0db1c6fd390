use vstd::prelude::*;
use super::access;
use super::access::{byte, word, fill_bytes, copy_bytes};
use super::addresses::{
    CUR_PALACE_INDEX_X2, DEATHS_PER_PALACE, HUD_CUR_ITEM, HUD_CUR_ITEM_L, HUD_CUR_ITEM_R,
    HUD_CUR_ITEM_X, HUD_POST_MESSAGE_REFRESH_FLAG, PENDING_DEATH_SAVE_COUNTER,
    SAVEGAME_IS_DARKWORLD, SAVEGAME_MAP_ICONS_INDICATOR, SAVE_DUNG_INFO, SRAM_PROGRESS_FLAGS,
    SRAM_PROGRESS_INDICATOR, SRAM_PROGRESS_INDICATOR_3, TOTAL_DEATH_SAVE_COUNTER,
    WHICH_STARTING_POINT,
};
use vstd::slice::{slice_subrange};
use crate::types;
use crate::types::{read_le_u16, write_le_u16};

verus! {

pub struct SaveProgressView<'a> {
    ram: &'a [u8],
}

impl<'a> SaveProgressView<'a> {
    /// The bytes of RAM this view reads and writes.
    pub closed spec fn ram(&self) -> Seq<u8> {
        self.ram@
    }

    pub fn new(ram: &'a [u8]) -> (view: Self)
        ensures
            view.ram() == ram@,
    {
        Self { ram }
    }

    pub fn palace_index_x2(&self) -> (result: u8)
        ensures
            result == access::byte_at(self.ram(), CUR_PALACE_INDEX_X2 as int),
    {
        byte(self.ram, CUR_PALACE_INDEX_X2)
    }

    pub fn palace_index_x2_word(&self) -> (result: u16)
        ensures
            result == access::word_at(self.ram(), CUR_PALACE_INDEX_X2 as int),
    {
        word(self.ram, CUR_PALACE_INDEX_X2)
    }

    pub fn palace_index(&self) -> (result: usize)
        ensures
            result == ((access::byte_at(self.ram(), CUR_PALACE_INDEX_X2 as int) >> 1) as usize),
    {
        (self.palace_index_x2() >> 1) as usize
    }

    pub fn progress_indicator(&self) -> (result: u8)
        ensures
            result == access::byte_at(self.ram(), SRAM_PROGRESS_INDICATOR as int),
    {
        byte(self.ram, SRAM_PROGRESS_INDICATOR)
    }

    pub fn progress_indicator_word(&self) -> (result: u16)
        ensures
            result == access::word_at(self.ram(), SRAM_PROGRESS_INDICATOR as int),
    {
        word(self.ram, SRAM_PROGRESS_INDICATOR)
    }

    pub fn progress_flags(&self) -> (result: u8)
        ensures
            result == access::byte_at(self.ram(), SRAM_PROGRESS_FLAGS as int),
    {
        byte(self.ram, SRAM_PROGRESS_FLAGS)
    }

    pub fn progress_flags_has(&self, mask: u8) -> (result: bool)
        ensures
            result == ((access::byte_at(self.ram(), SRAM_PROGRESS_FLAGS as int) & mask) != 0),
    {
        self.progress_flags() & mask != 0
    }

    pub fn map_icons_indicator(&self) -> (result: u8)
        ensures
            result == access::byte_at(self.ram(), SAVEGAME_MAP_ICONS_INDICATOR as int),
    {
        byte(self.ram, SAVEGAME_MAP_ICONS_INDICATOR)
    }

    pub fn dark_world_state(&self) -> (result: u8)
        ensures
            result == access::byte_at(self.ram(), SAVEGAME_IS_DARKWORLD as int),
    {
        byte(self.ram, SAVEGAME_IS_DARKWORLD)
    }

    pub fn is_dark_world(&self) -> (result: bool)
        ensures
            result == (access::byte_at(self.ram(), SAVEGAME_IS_DARKWORLD as int) != 0),
    {
        self.dark_world_state() != 0
    }

    pub fn dark_world_bit6(&self) -> (result: u8)
        ensures
            result == ((access::byte_at(self.ram(), SAVEGAME_IS_DARKWORLD as int) >> 6) & 1u8),
    {
        (self.dark_world_state() >> 6) & 1
    }

    pub fn hud_current_item(&self) -> (result: u8)
        ensures
            result == access::byte_at(self.ram(), HUD_CUR_ITEM as int),
    {
        byte(self.ram, HUD_CUR_ITEM)
    }

    pub fn hud_current_item_slot(&self, slot: usize) -> (result: u8)
        ensures
            result == access::byte_at(
                self.ram(),
                (if slot == 1 { HUD_CUR_ITEM_X } else { if slot == 2 { HUD_CUR_ITEM_L } else { if slot == 3 { HUD_CUR_ITEM_R } else { HUD_CUR_ITEM } } }) as int,
            ),
    {
        let address = match slot { 1 => HUD_CUR_ITEM_X, 2 => HUD_CUR_ITEM_L, 3 => HUD_CUR_ITEM_R, _ => HUD_CUR_ITEM };
        byte(self.ram, address)
    }

    pub fn dungeon_info_word(&self, room: usize) -> (result: u16)
        requires
            (SAVE_DUNG_INFO + (room * 2)) + 1 <= usize::MAX,
        ensures
            result == access::word_at(self.ram(), SAVE_DUNG_INFO + (room * 2)),
    {
        word(self.ram, SAVE_DUNG_INFO + room * 2)
    }

    pub fn death_count_for_palace(&self, palace: usize) -> (result: u16)
        requires
            (DEATHS_PER_PALACE + (palace * 2)) + 1 <= usize::MAX,
        ensures
            result == access::word_at(self.ram(), DEATHS_PER_PALACE + (palace * 2)),
    {
        word(self.ram, DEATHS_PER_PALACE + palace * 2)
    }

    pub fn pending_death_save_counter(&self) -> (result: u16)
        ensures
            result == access::word_at(self.ram(), PENDING_DEATH_SAVE_COUNTER as int),
    {
        word(self.ram, PENDING_DEATH_SAVE_COUNTER)
    }

    pub fn total_death_save_counter(&self) -> (result: u16)
        ensures
            result == access::word_at(self.ram(), TOTAL_DEATH_SAVE_COUNTER as int),
    {
        word(self.ram, TOTAL_DEATH_SAVE_COUNTER)
    }

    pub fn total_death_save_counter_is_uninitialized(&self) -> (result: bool)
        ensures
            result == (access::word_at(self.ram(), TOTAL_DEATH_SAVE_COUNTER as int) == 0xffff),
    {
        self.total_death_save_counter() == 0xffff
    }

    pub fn dungeon_info_slice(&self) -> (result: &[u8])
        requires
            SAVE_DUNG_INFO + 0x500 <= self.ram().len(),
        ensures
            result@ == self.ram().subrange(SAVE_DUNG_INFO as int, SAVE_DUNG_INFO + 0x500),
    {
        slice_subrange(self.ram, SAVE_DUNG_INFO, SAVE_DUNG_INFO + 0x500)
    }

    pub fn which_starting_point(&self) -> (result: u8)
        ensures
            result == access::byte_at(self.ram(), WHICH_STARTING_POINT as int),
    {
        byte(self.ram, WHICH_STARTING_POINT)
    }

    pub fn progress_indicator_3(&self) -> (result: u8)
        ensures
            result == access::byte_at(self.ram(), SRAM_PROGRESS_INDICATOR_3 as int),
    {
        byte(self.ram, SRAM_PROGRESS_INDICATOR_3)
    }
}

pub struct SaveProgressViewMut<'a> {
    pub ram: &'a mut [u8],
}

impl<'a> SaveProgressViewMut<'a> {
    /// The bytes of RAM this view reads and writes.
    pub open spec fn ram(&self) -> Seq<u8> {
        self.ram@
    }

    pub fn new(ram: &'a mut [u8]) -> (view: Self)
        ensures
            view.ram() == old(ram)@,
            final(view.ram)@ == final(ram)@,
    {
        Self { ram }
    }

    pub fn set_palace_index_x2(&mut self, value: u8)
        requires
            CUR_PALACE_INDEX_X2 < old(self).ram().len(),
        ensures
            final(self).ram() == old(self).ram().update(CUR_PALACE_INDEX_X2 as int, value),
            final(final(self).ram)@ == final(old(self).ram)@,
    {
        self.ram[CUR_PALACE_INDEX_X2] = value;
    }

    pub fn set_which_starting_point(&mut self, value: u8)
        requires
            WHICH_STARTING_POINT < old(self).ram().len(),
        ensures
            final(self).ram() == old(self).ram().update(WHICH_STARTING_POINT as int, value),
            final(final(self).ram)@ == final(old(self).ram)@,
    {
        self.ram[WHICH_STARTING_POINT] = value;
    }

    pub fn xor_palace_index_x2(&mut self, value: u8)
        requires
            CUR_PALACE_INDEX_X2 < old(self).ram().len(),
        ensures
            final(self).ram() == old(self).ram().update(
                CUR_PALACE_INDEX_X2 as int,
                old(self).ram()[CUR_PALACE_INDEX_X2 as int] ^ value,
            ),
            final(final(self).ram)@ == final(old(self).ram)@,
    {
        self.ram[CUR_PALACE_INDEX_X2] ^= value;
    }

    pub fn set_progress_indicator(&mut self, value: u8)
        requires
            SRAM_PROGRESS_INDICATOR < old(self).ram().len(),
        ensures
            final(self).ram() == old(self).ram().update(SRAM_PROGRESS_INDICATOR as int, value),
            final(final(self).ram)@ == final(old(self).ram)@,
    {
        self.ram[SRAM_PROGRESS_INDICATOR] = value;
    }

    pub fn or_progress_flags(&mut self, value: u8)
        requires
            SRAM_PROGRESS_FLAGS < old(self).ram().len(),
        ensures
            final(self).ram() == old(self).ram().update(
                SRAM_PROGRESS_FLAGS as int,
                old(self).ram()[SRAM_PROGRESS_FLAGS as int] | value,
            ),
            final(final(self).ram)@ == final(old(self).ram)@,
    {
        self.ram[SRAM_PROGRESS_FLAGS] |= value;
    }

    pub fn or_progress_indicator_3(&mut self, bits: u8)
        requires
            SRAM_PROGRESS_INDICATOR_3 < old(self).ram().len(),
        ensures
            final(self).ram() == old(self).ram().update(
                SRAM_PROGRESS_INDICATOR_3 as int,
                old(self).ram()[SRAM_PROGRESS_INDICATOR_3 as int] | bits,
            ),
            final(final(self).ram)@ == final(old(self).ram)@,
    {
        self.ram[SRAM_PROGRESS_INDICATOR_3] |= bits;
    }

    pub fn clear_progress_indicator_3_bits(&mut self, bits: u8)
        requires
            SRAM_PROGRESS_INDICATOR_3 < old(self).ram().len(),
        ensures
            final(self).ram() == old(self).ram().update(
                SRAM_PROGRESS_INDICATOR_3 as int,
                old(self).ram()[SRAM_PROGRESS_INDICATOR_3 as int] & (!bits),
            ),
            final(final(self).ram)@ == final(old(self).ram)@,
    {
        self.ram[SRAM_PROGRESS_INDICATOR_3] &= !bits;
    }

    pub fn xor_progress_flags(&mut self, value: u8)
        requires
            SRAM_PROGRESS_FLAGS < old(self).ram().len(),
        ensures
            final(self).ram() == old(self).ram().update(
                SRAM_PROGRESS_FLAGS as int,
                old(self).ram()[SRAM_PROGRESS_FLAGS as int] ^ value,
            ),
            final(final(self).ram)@ == final(old(self).ram)@,
    {
        self.ram[SRAM_PROGRESS_FLAGS] ^= value;
    }

    pub fn set_progress_flags(&mut self, value: u8)
        requires
            SRAM_PROGRESS_FLAGS < old(self).ram().len(),
        ensures
            final(self).ram() == old(self).ram().update(SRAM_PROGRESS_FLAGS as int, value),
            final(final(self).ram)@ == final(old(self).ram)@,
    {
        self.ram[SRAM_PROGRESS_FLAGS] = value;
    }

    pub fn set_map_icons_indicator(&mut self, value: u8)
        requires
            SAVEGAME_MAP_ICONS_INDICATOR < old(self).ram().len(),
        ensures
            final(self).ram() == old(self).ram().update(SAVEGAME_MAP_ICONS_INDICATOR as int, value),
            final(final(self).ram)@ == final(old(self).ram)@,
    {
        self.ram[SAVEGAME_MAP_ICONS_INDICATOR] = value;
    }

    pub fn set_dark_world_state(&mut self, value: u8)
        requires
            SAVEGAME_IS_DARKWORLD < old(self).ram().len(),
        ensures
            final(self).ram() == old(self).ram().update(SAVEGAME_IS_DARKWORLD as int, value),
            final(final(self).ram)@ == final(old(self).ram)@,
    {
        self.ram[SAVEGAME_IS_DARKWORLD] = value;
    }

    pub fn xor_dark_world_state(&mut self, value: u8)
        requires
            SAVEGAME_IS_DARKWORLD < old(self).ram().len(),
        ensures
            final(self).ram() == old(self).ram().update(
                SAVEGAME_IS_DARKWORLD as int,
                old(self).ram()[SAVEGAME_IS_DARKWORLD as int] ^ value,
            ),
            final(final(self).ram)@ == final(old(self).ram)@,
    {
        self.ram[SAVEGAME_IS_DARKWORLD] ^= value;
    }

    pub fn set_hud_current_item(&mut self, value: u8)
        requires
            HUD_CUR_ITEM < old(self).ram().len(),
        ensures
            final(self).ram() == old(self).ram().update(HUD_CUR_ITEM as int, value),
            final(final(self).ram)@ == final(old(self).ram)@,
    {
        self.ram[HUD_CUR_ITEM] = value;
    }

    pub fn set_hud_current_item_slot(&mut self, slot: usize, value: u8)
        requires
            if slot == 1 { HUD_CUR_ITEM_X } else { if slot == 2 { HUD_CUR_ITEM_L } else { if slot == 3 { HUD_CUR_ITEM_R } else { HUD_CUR_ITEM } } } < old(self)
                .ram()
                .len(),
        ensures
            final(self).ram() == old(self).ram().update(
                (if slot == 1 { HUD_CUR_ITEM_X } else { if slot == 2 { HUD_CUR_ITEM_L } else { if slot == 3 { HUD_CUR_ITEM_R } else { HUD_CUR_ITEM } } }) as int,
                value,
            ),
            final(final(self).ram)@ == final(old(self).ram)@,
    {
        let address = match slot { 1 => HUD_CUR_ITEM_X, 2 => HUD_CUR_ITEM_L, 3 => HUD_CUR_ITEM_R, _ => HUD_CUR_ITEM };
        self.ram[address] = value;
    }

    pub fn set_death_count_for_palace(&mut self, palace: usize, value: u16)
        requires
            (DEATHS_PER_PALACE + (palace * 2)) + 1 < old(self).ram().len(),
        ensures
            final(self).ram() == types::with_u16(
                old(self).ram(),
                DEATHS_PER_PALACE + (palace * 2),
                value,
            ),
            final(final(self).ram)@ == final(old(self).ram)@,
    {
        proof {
            assert(self.ram@.len() == self.ram.len());
        }
        write_le_u16(self.ram, DEATHS_PER_PALACE + palace * 2, value);
    }

    pub fn increment_pending_death_save_counter(&mut self) -> (result: u16)
        requires
            PENDING_DEATH_SAVE_COUNTER + 1 < old(self).ram().len(),
        ensures
            result == access::word_at(old(self).ram(), PENDING_DEATH_SAVE_COUNTER as int)
                .wrapping_add(1),
            final(self).ram() == types::with_u16(
                old(self).ram(),
                PENDING_DEATH_SAVE_COUNTER as int,
                access::word_at(
                    old(self).ram(),
                    PENDING_DEATH_SAVE_COUNTER as int,
                )
                    .wrapping_add(1),
            ),
            final(final(self).ram)@ == final(old(self).ram)@,
    {
        let deaths = word(self.ram, PENDING_DEATH_SAVE_COUNTER).wrapping_add(1);
        write_le_u16(self.ram, PENDING_DEATH_SAVE_COUNTER, deaths);
        deaths
    }

    pub fn clear_pending_death_save_counter(&mut self)
        requires
            PENDING_DEATH_SAVE_COUNTER + 1 < old(self).ram().len(),
        ensures
            final(self).ram() == types::with_u16(
                old(self).ram(),
                PENDING_DEATH_SAVE_COUNTER as int,
                0u16,
            ),
            final(final(self).ram)@ == final(old(self).ram)@,
    {
        write_le_u16(self.ram, PENDING_DEATH_SAVE_COUNTER, 0);
    }

    pub fn set_total_death_save_counter(&mut self, value: u16)
        requires
            TOTAL_DEATH_SAVE_COUNTER + 1 < old(self).ram().len(),
        ensures
            final(self).ram() == types::with_u16(
                old(self).ram(),
                TOTAL_DEATH_SAVE_COUNTER as int,
                value,
            ),
            final(final(self).ram)@ == final(old(self).ram)@,
    {
        write_le_u16(self.ram, TOTAL_DEATH_SAVE_COUNTER, value);
    }

    pub fn clear_post_message_refresh_flag(&mut self)
        requires
            HUD_POST_MESSAGE_REFRESH_FLAG < old(self).ram().len(),
        ensures
            final(self).ram() == old(self).ram().update(HUD_POST_MESSAGE_REFRESH_FLAG as int, 0u8),
            final(final(self).ram)@ == final(old(self).ram)@,
    {
        self.ram[HUD_POST_MESSAGE_REFRESH_FLAG] = 0;
    }

    pub fn request_post_message_refresh(&mut self)
        requires
            HUD_POST_MESSAGE_REFRESH_FLAG < old(self).ram().len(),
        ensures
            final(self).ram() == old(self).ram().update(
                HUD_POST_MESSAGE_REFRESH_FLAG as int,
                0x80u8,
            ),
            final(final(self).ram)@ == final(old(self).ram)@,
    {
        self.ram[HUD_POST_MESSAGE_REFRESH_FLAG] = 0x80;
    }

    pub fn clear_dungeon_info(&mut self)
        requires
            SAVE_DUNG_INFO + 0x500 <= old(self).ram().len(),
        ensures
            final(self).ram() == access::filled(
                old(self).ram(),
                SAVE_DUNG_INFO as int,
                SAVE_DUNG_INFO + 0x500,
                0u8,
            ),
            final(final(self).ram)@ == final(old(self).ram)@,
    {
        fill_bytes(self.ram, SAVE_DUNG_INFO, SAVE_DUNG_INFO + 0x500, 0);
    }

    pub fn copy_dungeon_info_from(&mut self, source: &[u8])
        requires
            SAVE_DUNG_INFO + 0x500 <= old(self).ram().len(),
            source@.len() == 0x500,
        ensures
            final(self).ram() == access::copied(old(self).ram(), SAVE_DUNG_INFO as int, source@),
            final(final(self).ram)@ == final(old(self).ram)@,
    {
        copy_bytes(self.ram, SAVE_DUNG_INFO, source);
    }

    pub fn set_dungeon_info_word(&mut self, room: usize, value: u16)
        requires
            (SAVE_DUNG_INFO + (room * 2)) + 1 < old(self).ram().len(),
        ensures
            final(self).ram() == types::with_u16(
                old(self).ram(),
                SAVE_DUNG_INFO + (room * 2),
                value,
            ),
            final(final(self).ram)@ == final(old(self).ram)@,
    {
        proof {
            assert(self.ram@.len() == self.ram.len());
        }
        write_le_u16(self.ram, SAVE_DUNG_INFO + room * 2, value);
    }

    pub fn or_dungeon_info_word(&mut self, room: usize, value: u16) -> (result: u16)
        requires
            (SAVE_DUNG_INFO + (room * 2)) + 1 < old(self).ram().len(),
        ensures
            result == (types::u16_at(old(self).ram(), SAVE_DUNG_INFO + (room * 2)) | value),
            final(self).ram() == types::with_u16(
                old(self).ram(),
                SAVE_DUNG_INFO + (room * 2),
                types::u16_at(old(self).ram(), SAVE_DUNG_INFO + (room * 2))
                    | value,
            ),
            final(final(self).ram)@ == final(old(self).ram)@,
    {
        proof {
            assert(self.ram@.len() == self.ram.len());
        }
        let word = read_le_u16(self.ram, SAVE_DUNG_INFO + room * 2) | value;
        write_le_u16(self.ram, SAVE_DUNG_INFO + room * 2, word);
        word
    }
}

} // verus!
