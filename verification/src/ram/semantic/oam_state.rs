use vstd::prelude::*;
use super::access;
use super::access::{byte, word, copy_bytes};
use super::addresses::{
    BYTEWISE_EXTENDED_OAM, EXTENDED_OAM, OAM_BUF, OAM_CUR_PTR, OAM_EXT_CUR_PTR, OAM_PRIORITY_VALUE,
    OAM_PRIORITY_VALUE_2, OAM_REGION_ALLOC, OAM_REGION_BASE, SORT_SPRITES_OFFSET_INTO_OAM_BUFFER,
    SORT_SPRITES_SETTING, TURTLE_ROCK_OAM_PRIORITY_FLAG, VALUE_COMPUTED_FOR_PLAYER_OAM,
};
use crate::types;
use crate::types::{read_le_u16, write_le_u16};

verus! {

pub struct OamStateView<'a> {
    ram: &'a [u8],
}

impl<'a> OamStateView<'a> {
    /// The bytes of RAM this view reads and writes.
    pub closed spec fn ram(&self) -> Seq<u8> {
        self.ram@
    }

    pub fn new(ram: &'a [u8]) -> (view: Self)
        ensures
            view.ram() == ram@,
    {
        Self { ram }
    }

    pub fn priority_word(&self) -> (result: u16)
        ensures
            result == access::word_at(self.ram(), OAM_PRIORITY_VALUE as int),
    {
        word(self.ram, OAM_PRIORITY_VALUE)
    }

    pub fn priority_high(&self) -> (result: u8)
        ensures
            result == access::byte_at(self.ram(), OAM_PRIORITY_VALUE + 1),
    {
        byte(self.ram, OAM_PRIORITY_VALUE + 1)
    }

    pub fn current_pointer(&self) -> (result: u16)
        ensures
            result == access::word_at(self.ram(), OAM_CUR_PTR as int),
    {
        word(self.ram, OAM_CUR_PTR)
    }

    pub fn current_pointer_usize(&self) -> (result: usize)
        ensures
            result == (access::word_at(self.ram(), OAM_CUR_PTR as int) as usize),
    {
        self.current_pointer() as usize
    }

    pub fn current_extended_pointer(&self) -> (result: u16)
        ensures
            result == access::word_at(self.ram(), OAM_EXT_CUR_PTR as int),
    {
        word(self.ram, OAM_EXT_CUR_PTR)
    }

    pub fn current_extended_pointer_usize(&self) -> (result: usize)
        ensures
            result == (access::word_at(self.ram(), OAM_EXT_CUR_PTR as int) as usize),
    {
        self.current_extended_pointer() as usize
    }

    pub fn extended_byte(&self, index: usize) -> (result: u8)
        requires
            BYTEWISE_EXTENDED_OAM + index <= usize::MAX,
        ensures
            result == access::byte_at(self.ram(), BYTEWISE_EXTENDED_OAM + index),
    {
        byte(self.ram, BYTEWISE_EXTENDED_OAM + index)
    }

    pub fn sprite_sorting_setting(&self) -> (result: u8)
        ensures
            result == access::byte_at(self.ram(), SORT_SPRITES_SETTING as int),
    {
        byte(self.ram, SORT_SPRITES_SETTING)
    }

    pub fn sprite_sorting_offset_index(&self) -> (result: usize)
        ensures
            result == (access::byte_at(self.ram(), SORT_SPRITES_SETTING as int) as usize),
    {
        self.sprite_sorting_setting() as usize
    }

    pub fn has_sprite_sorting(&self) -> (result: bool)
        ensures
            result == (access::byte_at(self.ram(), SORT_SPRITES_SETTING as int) != 0),
    {
        self.sprite_sorting_setting() != 0
    }

    pub fn packed_extended_oam_byte(&self, index: usize) -> (result: u8)
        requires
            BYTEWISE_EXTENDED_OAM + (3 + (index * 4)) <= usize::MAX,
            BYTEWISE_EXTENDED_OAM + (2 + (index * 4)) <= usize::MAX,
            BYTEWISE_EXTENDED_OAM + (1 + (index * 4)) <= usize::MAX,
            BYTEWISE_EXTENDED_OAM + (index * 4) <= usize::MAX,
        ensures
            result == ((((access::byte_at(
                    self.ram(),
                    BYTEWISE_EXTENDED_OAM + (3 + (index * 4)),
                ) << 6)
                   | (access::byte_at(
                        self.ram(),
                        BYTEWISE_EXTENDED_OAM + (2 + (index * 4)),
                    ) << 4))
                  | (access::byte_at(
                       self.ram(),
                       BYTEWISE_EXTENDED_OAM + (1 + (index * 4)),
                   ) << 2))
                 | access::byte_at(self.ram(), BYTEWISE_EXTENDED_OAM + (index * 4))),
    {
        (self.extended_byte(3 + index * 4) << 6) | (self.extended_byte(2 + index * 4) << 4) | (self.extended_byte(1 + index * 4) << 2) | self.extended_byte(index * 4)
    }

    pub fn priority_value_2(&self) -> (result: u16)
        ensures
            result == access::word_at(self.ram(), OAM_PRIORITY_VALUE_2 as int),
    {
        word(self.ram, OAM_PRIORITY_VALUE_2)
    }

    pub fn sort_sprites_offset(&self) -> (result: u16)
        ensures
            result == access::word_at(self.ram(), SORT_SPRITES_OFFSET_INTO_OAM_BUFFER as int),
    {
        word(self.ram, SORT_SPRITES_OFFSET_INTO_OAM_BUFFER)
    }

    pub fn player_oam_computed_value(&self) -> (result: u8)
        ensures
            result == access::byte_at(self.ram(), VALUE_COMPUTED_FOR_PLAYER_OAM as int),
    {
        byte(self.ram, VALUE_COMPUTED_FOR_PLAYER_OAM)
    }

    pub fn turtle_rock_priority_flag(&self) -> (result: u8)
        ensures
            result == access::byte_at(self.ram(), TURTLE_ROCK_OAM_PRIORITY_FLAG as int),
    {
        byte(self.ram, TURTLE_ROCK_OAM_PRIORITY_FLAG)
    }

    pub fn entry_x(&self, addr: usize) -> (result: u8)
        ensures
            result == access::byte_at(self.ram(), addr as int),
    {
        byte(self.ram, addr)
    }

    pub fn entry_y(&self, addr: usize) -> (result: u8)
        requires
            addr + 1 <= usize::MAX,
        ensures
            result == access::byte_at(self.ram(), addr + 1),
    {
        byte(self.ram, addr + 1)
    }

    pub fn entry_char(&self, addr: usize) -> (result: u8)
        requires
            addr + 2 <= usize::MAX,
        ensures
            result == access::byte_at(self.ram(), addr + 2),
    {
        byte(self.ram, addr + 2)
    }

    pub fn entry_flags(&self, addr: usize) -> (result: u8)
        requires
            addr + 3 <= usize::MAX,
        ensures
            result == access::byte_at(self.ram(), addr + 3),
    {
        byte(self.ram, addr + 3)
    }

    /// Reads a byte from the bytewise extended OAM region at a byte
    /// address.
    pub fn extended_byte_at(&self, addr: usize) -> (result: u8)
        ensures
            result == access::byte_at(self.ram(), addr as int),
    {
        byte(self.ram, addr)
    }

    pub fn region_base_word(&self, region: usize) -> (result: u16)
        requires
            (OAM_REGION_BASE + (region * 2)) + 1 <= usize::MAX,
        ensures
            result == access::word_at(self.ram(), OAM_REGION_BASE + (region * 2)),
    {
        word(self.ram, OAM_REGION_BASE + region * 2)
    }

    pub fn region_alloc_counter(&self, region: usize) -> (result: u16)
        requires
            (OAM_REGION_ALLOC + (region * 2)) + 1 <= usize::MAX,
        ensures
            result == access::word_at(self.ram(), OAM_REGION_ALLOC + (region * 2)),
    {
        word(self.ram, OAM_REGION_ALLOC + region * 2)
    }
}

pub struct OamStateViewMut<'a> {
    pub ram: &'a mut [u8],
}

impl<'a> OamStateViewMut<'a> {
    /// The bytes of RAM this view reads and writes.
    pub open spec fn ram(&self) -> Seq<u8> {
        self.ram@
    }

    pub fn new(ram: &'a mut [u8]) -> (view: Self)
        ensures
            view.ram() == old(ram)@,
            final(view.ram)@ == final(ram)@,
    {
        Self { ram }
    }

    pub fn set_priority_word(&mut self, value: u16)
        requires
            OAM_PRIORITY_VALUE + 1 < old(self).ram().len(),
        ensures
            final(self).ram() == types::with_u16(old(self).ram(), OAM_PRIORITY_VALUE as int, value),
            final(final(self).ram)@ == final(old(self).ram)@,
    {
        write_le_u16(self.ram, OAM_PRIORITY_VALUE, value);
    }

    pub fn subtract_priority_word(&mut self, value: u16)
        requires
            OAM_PRIORITY_VALUE + 1 < old(self).ram().len(),
        ensures
            final(self).ram() == types::with_u16(
                old(self).ram(),
                OAM_PRIORITY_VALUE as int,
                types::u16_at(old(self).ram(), OAM_PRIORITY_VALUE as int)
                    .wrapping_sub(value),
            ),
            final(final(self).ram)@ == final(old(self).ram)@,
    {
        let priority = read_le_u16(self.ram, OAM_PRIORITY_VALUE);
        write_le_u16(self.ram, OAM_PRIORITY_VALUE, priority.wrapping_sub(value));
    }

    pub fn set_priority_high(&mut self, value: u8)
        requires
            OAM_PRIORITY_VALUE + 1 < old(self).ram().len(),
        ensures
            final(self).ram() == old(self).ram().update(OAM_PRIORITY_VALUE + 1, value),
            final(final(self).ram)@ == final(old(self).ram)@,
    {
        self.ram[OAM_PRIORITY_VALUE + 1] = value;
    }

    pub fn set_current_pointer(&mut self, value: u16)
        requires
            OAM_CUR_PTR + 1 < old(self).ram().len(),
        ensures
            final(self).ram() == types::with_u16(old(self).ram(), OAM_CUR_PTR as int, value),
            final(final(self).ram)@ == final(old(self).ram)@,
    {
        write_le_u16(self.ram, OAM_CUR_PTR, value);
    }

    pub fn add_current_pointer(&mut self, value: u16)
        requires
            OAM_CUR_PTR + 1 < old(self).ram().len(),
        ensures
            final(self).ram() == types::with_u16(
                old(self).ram(),
                OAM_CUR_PTR as int,
                types::u16_at(old(self).ram(), OAM_CUR_PTR as int)
                    .wrapping_add(value),
            ),
            final(final(self).ram)@ == final(old(self).ram)@,
    {
        let pointer = read_le_u16(self.ram, OAM_CUR_PTR);
        write_le_u16(self.ram, OAM_CUR_PTR, pointer.wrapping_add(value));
    }

    pub fn subtract_current_pointer(&mut self, value: u16)
        requires
            OAM_CUR_PTR + 1 < old(self).ram().len(),
        ensures
            final(self).ram() == types::with_u16(
                old(self).ram(),
                OAM_CUR_PTR as int,
                types::u16_at(old(self).ram(), OAM_CUR_PTR as int)
                    .wrapping_sub(value),
            ),
            final(final(self).ram)@ == final(old(self).ram)@,
    {
        let pointer = read_le_u16(self.ram, OAM_CUR_PTR);
        write_le_u16(self.ram, OAM_CUR_PTR, pointer.wrapping_sub(value));
    }

    pub fn set_current_extended_pointer(&mut self, value: u16)
        requires
            OAM_EXT_CUR_PTR + 1 < old(self).ram().len(),
        ensures
            final(self).ram() == types::with_u16(old(self).ram(), OAM_EXT_CUR_PTR as int, value),
            final(final(self).ram)@ == final(old(self).ram)@,
    {
        write_le_u16(self.ram, OAM_EXT_CUR_PTR, value);
    }

    pub fn set_sprite_sorting_setting(&mut self, value: u8)
        requires
            SORT_SPRITES_SETTING < old(self).ram().len(),
        ensures
            final(self).ram() == old(self).ram().update(SORT_SPRITES_SETTING as int, value),
            final(final(self).ram)@ == final(old(self).ram)@,
    {
        self.ram[SORT_SPRITES_SETTING] = value;
    }

    pub fn set_priority_value_2(&mut self, value: u16)
        requires
            OAM_PRIORITY_VALUE_2 + 1 < old(self).ram().len(),
        ensures
            final(self).ram() == types::with_u16(
                old(self).ram(),
                OAM_PRIORITY_VALUE_2 as int,
                value,
            ),
            final(final(self).ram)@ == final(old(self).ram)@,
    {
        write_le_u16(self.ram, OAM_PRIORITY_VALUE_2, value);
    }

    pub fn set_sort_sprites_offset(&mut self, value: u16)
        requires
            SORT_SPRITES_OFFSET_INTO_OAM_BUFFER + 1 < old(self).ram().len(),
        ensures
            final(self).ram() == types::with_u16(
                old(self).ram(),
                SORT_SPRITES_OFFSET_INTO_OAM_BUFFER as int,
                value,
            ),
            final(final(self).ram)@ == final(old(self).ram)@,
    {
        write_le_u16(self.ram, SORT_SPRITES_OFFSET_INTO_OAM_BUFFER, value);
    }

    pub fn clear_sort_sprites_offset(&mut self)
        requires
            SORT_SPRITES_OFFSET_INTO_OAM_BUFFER + 1 < old(self).ram().len(),
        ensures
            final(self).ram() == types::with_u16(
                old(self).ram(),
                SORT_SPRITES_OFFSET_INTO_OAM_BUFFER as int,
                0u16,
            ),
            final(final(self).ram)@ == final(old(self).ram)@,
    {
        write_le_u16(self.ram, SORT_SPRITES_OFFSET_INTO_OAM_BUFFER, 0);
    }

    pub fn set_player_oam_computed_value(&mut self, value: u8)
        requires
            VALUE_COMPUTED_FOR_PLAYER_OAM < old(self).ram().len(),
        ensures
            final(self).ram() == old(self).ram().update(
                VALUE_COMPUTED_FOR_PLAYER_OAM as int,
                value,
            ),
            final(final(self).ram)@ == final(old(self).ram)@,
    {
        self.ram[VALUE_COMPUTED_FOR_PLAYER_OAM] = value;
    }

    pub fn clear_sprite_sorting_setting(&mut self)
        requires
            SORT_SPRITES_SETTING < old(self).ram().len(),
        ensures
            final(self).ram() == old(self).ram().update(SORT_SPRITES_SETTING as int, 0),
            final(final(self).ram)@ == final(old(self).ram)@,
    {
        self.set_sprite_sorting_setting(0);
    }

    pub fn add_current_extended_pointer(&mut self, value: u16)
        requires
            OAM_EXT_CUR_PTR + 1 < old(self).ram().len(),
        ensures
            final(self).ram() == types::with_u16(
                old(self).ram(),
                OAM_EXT_CUR_PTR as int,
                types::u16_at(old(self).ram(), OAM_EXT_CUR_PTR as int)
                    .wrapping_add(value),
            ),
            final(final(self).ram)@ == final(old(self).ram)@,
    {
        let pointer = read_le_u16(self.ram, OAM_EXT_CUR_PTR);
        write_le_u16(self.ram, OAM_EXT_CUR_PTR, pointer.wrapping_add(value));
    }

    pub fn subtract_current_extended_pointer(&mut self, value: u16)
        requires
            OAM_EXT_CUR_PTR + 1 < old(self).ram().len(),
        ensures
            final(self).ram() == types::with_u16(
                old(self).ram(),
                OAM_EXT_CUR_PTR as int,
                types::u16_at(old(self).ram(), OAM_EXT_CUR_PTR as int)
                    .wrapping_sub(value),
            ),
            final(final(self).ram)@ == final(old(self).ram)@,
    {
        let pointer = read_le_u16(self.ram, OAM_EXT_CUR_PTR);
        write_le_u16(self.ram, OAM_EXT_CUR_PTR, pointer.wrapping_sub(value));
    }

    pub fn set_extended_byte(&mut self, index: usize, value: u8)
        requires
            BYTEWISE_EXTENDED_OAM + index < old(self).ram().len(),
        ensures
            final(self).ram() == old(self).ram().update(BYTEWISE_EXTENDED_OAM + index, value),
            final(final(self).ram)@ == final(old(self).ram)@,
    {
        proof {
            assert(self.ram@.len() == self.ram.len());
        }
        self.ram[BYTEWISE_EXTENDED_OAM + index] = value;
    }

    /// Writes a byte into the bytewise extended OAM region at a byte
    /// address.
    pub fn set_extended_byte_at(&mut self, addr: usize, value: u8)
        requires
            addr < old(self).ram().len(),
        ensures
            final(self).ram() == old(self).ram().update(addr as int, value),
            final(final(self).ram)@ == final(old(self).ram)@,
    {
        self.ram[addr] = value;
    }

    pub fn set_extended_word(&mut self, index: usize, value: u16)
        requires
            (BYTEWISE_EXTENDED_OAM + index) + 1 < old(self).ram().len(),
        ensures
            final(self).ram() == types::with_u16(
                old(self).ram(),
                BYTEWISE_EXTENDED_OAM + index,
                value,
            ),
            final(final(self).ram)@ == final(old(self).ram)@,
    {
        proof {
            assert(self.ram@.len() == self.ram.len());
        }
        write_le_u16(self.ram, BYTEWISE_EXTENDED_OAM + index, value);
    }

    pub fn set_packed_extended_oam_byte(&mut self, index: usize, value: u8)
        requires
            EXTENDED_OAM + index < old(self).ram().len(),
        ensures
            final(self).ram() == old(self).ram().update(EXTENDED_OAM + index, value),
            final(final(self).ram)@ == final(old(self).ram)@,
    {
        proof {
            assert(self.ram@.len() == self.ram.len());
        }
        self.ram[EXTENDED_OAM + index] = value;
    }

    pub fn hide_sprite_row(&mut self, oam_index: usize)
        requires
            (OAM_BUF + (oam_index * 4)) + 1 < old(self).ram().len(),
        ensures
            final(self).ram() == old(self).ram().update((OAM_BUF + (oam_index * 4)) + 1, 0xf0u8),
            final(final(self).ram)@ == final(old(self).ram)@,
    {
        proof {
            assert(self.ram@.len() == self.ram.len());
        }
        self.ram[OAM_BUF + oam_index * 4 + 1] = 0xf0;
    }

    /// Writes a full 4-byte OAM entry (x, y, char, flags) at a byte
    /// address into the OAM buffer.
    pub fn write_entry(&mut self, addr: usize, x: u8, y: u8, charnum: u8, flags: u8)
        requires
            addr < old(self).ram().len(),
            addr + 1 < old(self).ram().len(),
            addr + 2 < old(self).ram().len(),
            addr + 3 < old(self).ram().len(),
        ensures
            final(self).ram() == old(self).ram()
                .update(addr as int, x)
                .update(addr + 1, y)
                .update(addr + 2, charnum)
                .update(addr + 3, flags),
            final(final(self).ram)@ == final(old(self).ram)@,
    {
        proof {
            assert(self.ram@.len() == self.ram.len());
        }
        self.ram[addr] = x;
        self.ram[addr + 1] = y;
        self.ram[addr + 2] = charnum;
        self.ram[addr + 3] = flags;
    }

    pub fn set_entry_x(&mut self, addr: usize, x: u8)
        requires
            addr < old(self).ram().len(),
        ensures
            final(self).ram() == old(self).ram().update(addr as int, x),
            final(final(self).ram)@ == final(old(self).ram)@,
    {
        self.ram[addr] = x;
    }

    pub fn set_entry_y(&mut self, addr: usize, y: u8)
        requires
            addr + 1 < old(self).ram().len(),
        ensures
            final(self).ram() == old(self).ram().update(addr + 1, y),
            final(final(self).ram)@ == final(old(self).ram)@,
    {
        proof {
            assert(self.ram@.len() == self.ram.len());
        }
        self.ram[addr + 1] = y;
    }

    pub fn set_entry_xy(&mut self, addr: usize, x: u8, y: u8)
        requires
            addr < old(self).ram().len(),
            addr + 1 < old(self).ram().len(),
        ensures
            final(self).ram() == old(self).ram().update(addr as int, x).update(addr + 1, y),
            final(final(self).ram)@ == final(old(self).ram)@,
    {
        proof {
            assert(self.ram@.len() == self.ram.len());
        }
        self.ram[addr] = x;
        self.ram[addr + 1] = y;
    }

    /// Writes the char (low byte) and flags (high byte) of an entry as a
    /// single little-endian word.
    pub fn set_entry_char_flags(&mut self, addr: usize, value: u16)
        requires
            (addr + 2) + 1 < old(self).ram().len(),
        ensures
            final(self).ram() == types::with_u16(old(self).ram(), addr + 2, value),
            final(final(self).ram)@ == final(old(self).ram)@,
    {
        proof {
            assert(self.ram@.len() == self.ram.len());
        }
        write_le_u16(self.ram, addr + 2, value);
    }

    /// Moves the entry off-screen by setting its y coordinate below the
    /// visible area.
    pub fn hide_entry(&mut self, addr: usize)
        requires
            addr + 1 < old(self).ram().len(),
        ensures
            final(self).ram() == old(self).ram().update(addr + 1, 0xf0u8),
            final(final(self).ram)@ == final(old(self).ram)@,
    {
        proof {
            assert(self.ram@.len() == self.ram.len());
        }
        self.ram[addr + 1] = 0xf0;
    }

    pub fn set_entry_char(&mut self, addr: usize, charnum: u8)
        requires
            addr + 2 < old(self).ram().len(),
        ensures
            final(self).ram() == old(self).ram().update(addr + 2, charnum),
            final(final(self).ram)@ == final(old(self).ram)@,
    {
        proof {
            assert(self.ram@.len() == self.ram.len());
        }
        self.ram[addr + 2] = charnum;
    }

    pub fn set_entry_flags(&mut self, addr: usize, flags: u8)
        requires
            addr + 3 < old(self).ram().len(),
        ensures
            final(self).ram() == old(self).ram().update(addr + 3, flags),
            final(final(self).ram)@ == final(old(self).ram)@,
    {
        proof {
            assert(self.ram@.len() == self.ram.len());
        }
        self.ram[addr + 3] = flags;
    }

    pub fn or_entry_flags(&mut self, addr: usize, bits: u8)
        requires
            addr + 3 < old(self).ram().len(),
        ensures
            final(self).ram() == old(self).ram().update(addr + 3, old(self).ram()[addr + 3] | bits),
            final(final(self).ram)@ == final(old(self).ram)@,
    {
        proof {
            assert(self.ram@.len() == self.ram.len());
        }
        self.ram[addr + 3] |= bits;
    }

    /// Keeps the flag bits selected by `keep_mask` and ors in `bits`.
    pub fn merge_entry_flags(&mut self, addr: usize, keep_mask: u8, bits: u8)
        requires
            addr + 3 < old(self).ram().len(),
        ensures
            final(self).ram() == old(self).ram().update(
                addr + 3,
                (old(self).ram()[addr + 3] & keep_mask) | bits,
            ),
            final(final(self).ram)@ == final(old(self).ram)@,
    {
        proof {
            assert(self.ram@.len() == self.ram.len());
        }
        self.ram[addr + 3] = (self.ram[addr + 3] & keep_mask) | bits;
    }

    /// Writes consecutive bytes into the bytewise extended OAM region at
    /// a byte address.
    pub fn set_extended_bytes_at(&mut self, addr: usize, values: &[u8])
        requires
            addr + values@.len() <= old(self).ram().len(),
        ensures
            final(self).ram() == access::copied(old(self).ram(), addr as int, values@),
            final(final(self).ram)@ == final(old(self).ram)@,
    {
        proof {
            assert(self.ram@.len() == self.ram.len());
        }
        copy_bytes(self.ram, addr, values);
    }

    pub fn init_credits_region_base(&mut self)
        requires
            OAM_REGION_BASE + 1 < old(self).ram().len(),
            (OAM_REGION_BASE + 2) + 1 < old(self).ram().len(),
            (OAM_REGION_BASE + 4) + 1 < old(self).ram().len(),
        ensures
            final(self).ram() == types::with_u16(
                types::with_u16(
                    types::with_u16(
                        old(self).ram(),
                        OAM_REGION_BASE as int,
                        0x30u16,
                    ),
                    OAM_REGION_BASE + 2,
                    0x1d0u16,
                ),
                OAM_REGION_BASE + 4,
                0u16,
            ),
            final(final(self).ram)@ == final(old(self).ram)@,
    {
        write_le_u16(self.ram, OAM_REGION_BASE, 0x30);
        write_le_u16(self.ram, OAM_REGION_BASE + 2, 0x1d0);
        write_le_u16(self.ram, OAM_REGION_BASE + 4, 0);
    }

    pub fn set_region_base_word(&mut self, region: usize, value: u16)
        requires
            (OAM_REGION_BASE + (region * 2)) + 1 < old(self).ram().len(),
        ensures
            final(self).ram() == types::with_u16(
                old(self).ram(),
                OAM_REGION_BASE + (region * 2),
                value,
            ),
            final(final(self).ram)@ == final(old(self).ram)@,
    {
        proof {
            assert(self.ram@.len() == self.ram.len());
        }
        write_le_u16(self.ram, OAM_REGION_BASE + region * 2, value);
    }

    pub fn set_region_alloc_counter(&mut self, region: usize, value: u16)
        requires
            (OAM_REGION_ALLOC + (region * 2)) + 1 < old(self).ram().len(),
        ensures
            final(self).ram() == types::with_u16(
                old(self).ram(),
                OAM_REGION_ALLOC + (region * 2),
                value,
            ),
            final(final(self).ram)@ == final(old(self).ram)@,
    {
        proof {
            assert(self.ram@.len() == self.ram.len());
        }
        write_le_u16(self.ram, OAM_REGION_ALLOC + region * 2, value);
    }
}

} // verus!
