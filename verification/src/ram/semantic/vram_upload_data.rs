use vstd::prelude::*;
use super::access;
use super::access::{byte, word, copy_bytes};
use super::addresses::{VRAM_UPLOAD_DATA, VRAM_UPLOAD_OFFSET};
use vstd::slice::{slice_subrange};
use crate::types;
use crate::types::{read_le_u16, write_le_u16};

verus! {

pub struct VramUploadDataView<'a> {
    ram: &'a [u8],
}

impl<'a> VramUploadDataView<'a> {
    /// The bytes of RAM this view reads and writes.
    pub closed spec fn ram(&self) -> Seq<u8> {
        self.ram@
    }

    pub fn new(ram: &'a [u8]) -> (view: Self)
        ensures
            view.ram() == ram@,
    {
        Self { ram }
    }

    pub fn offset(&self) -> (result: u16)
        ensures
            result == access::word_at(self.ram(), VRAM_UPLOAD_OFFSET as int),
    {
        word(self.ram, VRAM_UPLOAD_OFFSET)
    }

    pub fn offset_usize(&self) -> (result: usize)
        ensures
            result == (access::word_at(self.ram(), VRAM_UPLOAD_OFFSET as int) as usize),
    {
        self.offset() as usize
    }

    pub fn data_base(&self) -> (result: usize)
        ensures
            result == VRAM_UPLOAD_DATA,
    {
        VRAM_UPLOAD_DATA
    }

    pub fn data_address(&self, offset: usize) -> (result: usize)
        requires
            VRAM_UPLOAD_DATA + offset <= usize::MAX,
        ensures
            result == (VRAM_UPLOAD_DATA + offset),
    {
        VRAM_UPLOAD_DATA + offset
    }

    pub fn current_data_address(&self) -> (result: usize)
        requires
            VRAM_UPLOAD_DATA + (access::word_at(self.ram(), VRAM_UPLOAD_OFFSET as int) as usize) <= usize::MAX,
        ensures
            result == (VRAM_UPLOAD_DATA + (access::word_at(self.ram(), VRAM_UPLOAD_OFFSET as int) as usize)),
    {
        self.data_address(self.offset_usize())
    }

    pub fn word(&self, offset: usize) -> (result: u16)
        requires
            (VRAM_UPLOAD_DATA + offset) + 1 <= usize::MAX,
        ensures
            result == access::word_at(self.ram(), VRAM_UPLOAD_DATA + offset),
    {
        word(self.ram, VRAM_UPLOAD_DATA + offset)
    }

    pub fn tilemap_word(&self, offset: usize) -> (result: u16)
        requires
            (VRAM_UPLOAD_OFFSET + offset) + 1 <= usize::MAX,
        ensures
            result == access::word_at(self.ram(), VRAM_UPLOAD_OFFSET + offset),
    {
        word(self.ram, VRAM_UPLOAD_OFFSET + offset)
    }

    pub fn byte(&self, offset: usize) -> (result: u8)
        requires
            VRAM_UPLOAD_DATA + offset <= usize::MAX,
        ensures
            result == access::byte_at(self.ram(), VRAM_UPLOAD_DATA + offset),
    {
        byte(self.ram, VRAM_UPLOAD_DATA + offset)
    }

    pub fn remaining_data(&self) -> (result: &[u8])
        requires
            VRAM_UPLOAD_DATA <= self.ram().len(),
        ensures
            result@ == self.ram().subrange(VRAM_UPLOAD_DATA as int, self.ram().len() as int),
    {
        slice_subrange(self.ram, VRAM_UPLOAD_DATA, self.ram.len())
    }
}

pub struct VramUploadDataViewMut<'a> {
    pub ram: &'a mut [u8],
}

impl<'a> VramUploadDataViewMut<'a> {
    /// The bytes of RAM this view reads and writes.
    pub open spec fn ram(&self) -> Seq<u8> {
        self.ram@
    }

    pub fn new(ram: &'a mut [u8]) -> (view: Self)
        ensures
            view.ram() == old(ram)@,
            final(view.ram)@ == final(ram)@,
    {
        Self { ram }
    }

    pub fn set_offset(&mut self, value: u16)
        requires
            VRAM_UPLOAD_OFFSET + 1 < old(self).ram().len(),
        ensures
            final(self).ram() == types::with_u16(old(self).ram(), VRAM_UPLOAD_OFFSET as int, value),
            final(final(self).ram)@ == final(old(self).ram)@,
    {
        write_le_u16(self.ram, VRAM_UPLOAD_OFFSET, value);
    }

    pub fn clear_offset(&mut self)
        requires
            VRAM_UPLOAD_OFFSET + 1 < old(self).ram().len(),
        ensures
            final(self).ram() == types::with_u16(old(self).ram(), VRAM_UPLOAD_OFFSET as int, 0),
            final(final(self).ram)@ == final(old(self).ram)@,
    {
        self.set_offset(0);
    }

    pub fn advance_offset_by(&mut self, value: u16) -> (result: u16)
        requires
            VRAM_UPLOAD_OFFSET + 1 < old(self).ram().len(),
        ensures
            result == types::u16_at(old(self).ram(), VRAM_UPLOAD_OFFSET as int).wrapping_add(value),
            final(self).ram() == types::with_u16(
                old(self).ram(),
                VRAM_UPLOAD_OFFSET as int,
                types::u16_at(old(self).ram(), VRAM_UPLOAD_OFFSET as int)
                    .wrapping_add(value),
            ),
            final(final(self).ram)@ == final(old(self).ram)@,
    {
        let next = read_le_u16(self.ram, VRAM_UPLOAD_OFFSET).wrapping_add(value);
        write_le_u16(self.ram, VRAM_UPLOAD_OFFSET, next);
        next
    }

    pub fn set_byte(&mut self, offset: usize, value: u8)
        requires
            VRAM_UPLOAD_DATA + offset < old(self).ram().len(),
        ensures
            final(self).ram() == old(self).ram().update(VRAM_UPLOAD_DATA + offset, value),
            final(final(self).ram)@ == final(old(self).ram)@,
    {
        proof {
            assert(self.ram@.len() == self.ram.len());
        }
        self.ram[VRAM_UPLOAD_DATA + offset] = value;
    }

    pub fn set_word(&mut self, offset: usize, value: u16)
        requires
            (VRAM_UPLOAD_DATA + offset) + 1 < old(self).ram().len(),
        ensures
            final(self).ram() == types::with_u16(old(self).ram(), VRAM_UPLOAD_DATA + offset, value),
            final(final(self).ram)@ == final(old(self).ram)@,
    {
        proof {
            assert(self.ram@.len() == self.ram.len());
        }
        write_le_u16(self.ram, VRAM_UPLOAD_DATA + offset, value);
    }

    pub fn set_tilemap_word(&mut self, offset: usize, value: u16)
        requires
            (VRAM_UPLOAD_OFFSET + offset) + 1 < old(self).ram().len(),
        ensures
            final(self).ram() == types::with_u16(
                old(self).ram(),
                VRAM_UPLOAD_OFFSET + offset,
                value,
            ),
            final(final(self).ram)@ == final(old(self).ram)@,
    {
        proof {
            assert(self.ram@.len() == self.ram.len());
        }
        write_le_u16(self.ram, VRAM_UPLOAD_OFFSET + offset, value);
    }

    #[verifier::rlimit(40)]
    pub fn set_level_label_tiles(&mut self, left: &[u8; 14], right: &[u8; 14])
        requires
            VRAM_UPLOAD_DATA + 32 < old(self).ram().len(),
            VRAM_UPLOAD_DATA + 13 < old(self).ram().len(),
            (VRAM_UPLOAD_DATA + 13) + 16 < old(self).ram().len(),
            VRAM_UPLOAD_DATA + 12 < old(self).ram().len(),
            (VRAM_UPLOAD_DATA + 12) + 16 < old(self).ram().len(),
            VRAM_UPLOAD_DATA + 11 < old(self).ram().len(),
            (VRAM_UPLOAD_DATA + 11) + 16 < old(self).ram().len(),
            VRAM_UPLOAD_DATA + 10 < old(self).ram().len(),
            (VRAM_UPLOAD_DATA + 10) + 16 < old(self).ram().len(),
            VRAM_UPLOAD_DATA + 9 < old(self).ram().len(),
            (VRAM_UPLOAD_DATA + 9) + 16 < old(self).ram().len(),
            VRAM_UPLOAD_DATA + 8 < old(self).ram().len(),
            (VRAM_UPLOAD_DATA + 8) + 16 < old(self).ram().len(),
            VRAM_UPLOAD_DATA + 7 < old(self).ram().len(),
            (VRAM_UPLOAD_DATA + 7) + 16 < old(self).ram().len(),
            VRAM_UPLOAD_DATA + 6 < old(self).ram().len(),
            (VRAM_UPLOAD_DATA + 6) + 16 < old(self).ram().len(),
            VRAM_UPLOAD_DATA + 5 < old(self).ram().len(),
            (VRAM_UPLOAD_DATA + 5) + 16 < old(self).ram().len(),
            VRAM_UPLOAD_DATA + 4 < old(self).ram().len(),
            (VRAM_UPLOAD_DATA + 4) + 16 < old(self).ram().len(),
            VRAM_UPLOAD_DATA + 3 < old(self).ram().len(),
            (VRAM_UPLOAD_DATA + 3) + 16 < old(self).ram().len(),
            VRAM_UPLOAD_DATA + 2 < old(self).ram().len(),
            (VRAM_UPLOAD_DATA + 2) + 16 < old(self).ram().len(),
            VRAM_UPLOAD_DATA + 1 < old(self).ram().len(),
            (VRAM_UPLOAD_DATA + 1) + 16 < old(self).ram().len(),
            VRAM_UPLOAD_DATA < old(self).ram().len(),
            VRAM_UPLOAD_DATA + 16 < old(self).ram().len(),
        ensures
            final(self).ram() == old(self).ram()
                .update(VRAM_UPLOAD_DATA + 32, 0xffu8)
                .update(VRAM_UPLOAD_DATA + 13, left@[13 as int])
                .update((VRAM_UPLOAD_DATA + 13) + 16, right@[13 as int])
                .update(VRAM_UPLOAD_DATA + 12, left@[12 as int])
                .update((VRAM_UPLOAD_DATA + 12) + 16, right@[12 as int])
                .update(VRAM_UPLOAD_DATA + 11, left@[11 as int])
                .update((VRAM_UPLOAD_DATA + 11) + 16, right@[11 as int])
                .update(VRAM_UPLOAD_DATA + 10, left@[10 as int])
                .update((VRAM_UPLOAD_DATA + 10) + 16, right@[10 as int])
                .update(VRAM_UPLOAD_DATA + 9, left@[9 as int])
                .update((VRAM_UPLOAD_DATA + 9) + 16, right@[9 as int])
                .update(VRAM_UPLOAD_DATA + 8, left@[8 as int])
                .update((VRAM_UPLOAD_DATA + 8) + 16, right@[8 as int])
                .update(VRAM_UPLOAD_DATA + 7, left@[7 as int])
                .update((VRAM_UPLOAD_DATA + 7) + 16, right@[7 as int])
                .update(VRAM_UPLOAD_DATA + 6, left@[6 as int])
                .update((VRAM_UPLOAD_DATA + 6) + 16, right@[6 as int])
                .update(VRAM_UPLOAD_DATA + 5, left@[5 as int])
                .update((VRAM_UPLOAD_DATA + 5) + 16, right@[5 as int])
                .update(VRAM_UPLOAD_DATA + 4, left@[4 as int])
                .update((VRAM_UPLOAD_DATA + 4) + 16, right@[4 as int])
                .update(VRAM_UPLOAD_DATA + 3, left@[3 as int])
                .update((VRAM_UPLOAD_DATA + 3) + 16, right@[3 as int])
                .update(VRAM_UPLOAD_DATA + 2, left@[2 as int])
                .update((VRAM_UPLOAD_DATA + 2) + 16, right@[2 as int])
                .update(VRAM_UPLOAD_DATA + 1, left@[1 as int])
                .update((VRAM_UPLOAD_DATA + 1) + 16, right@[1 as int])
                .update(VRAM_UPLOAD_DATA as int, left@[0 as int])
                .update(VRAM_UPLOAD_DATA + 16, right@[0 as int]),
            final(final(self).ram)@ == final(old(self).ram)@,
    {
        self.ram[VRAM_UPLOAD_DATA + 32] = 0xff;
        self.ram[VRAM_UPLOAD_DATA + 13] = left[13];
        self.ram[VRAM_UPLOAD_DATA + 13 + 16] = right[13];
        self.ram[VRAM_UPLOAD_DATA + 12] = left[12];
        self.ram[VRAM_UPLOAD_DATA + 12 + 16] = right[12];
        self.ram[VRAM_UPLOAD_DATA + 11] = left[11];
        self.ram[VRAM_UPLOAD_DATA + 11 + 16] = right[11];
        self.ram[VRAM_UPLOAD_DATA + 10] = left[10];
        self.ram[VRAM_UPLOAD_DATA + 10 + 16] = right[10];
        self.ram[VRAM_UPLOAD_DATA + 9] = left[9];
        self.ram[VRAM_UPLOAD_DATA + 9 + 16] = right[9];
        self.ram[VRAM_UPLOAD_DATA + 8] = left[8];
        self.ram[VRAM_UPLOAD_DATA + 8 + 16] = right[8];
        self.ram[VRAM_UPLOAD_DATA + 7] = left[7];
        self.ram[VRAM_UPLOAD_DATA + 7 + 16] = right[7];
        self.ram[VRAM_UPLOAD_DATA + 6] = left[6];
        self.ram[VRAM_UPLOAD_DATA + 6 + 16] = right[6];
        self.ram[VRAM_UPLOAD_DATA + 5] = left[5];
        self.ram[VRAM_UPLOAD_DATA + 5 + 16] = right[5];
        self.ram[VRAM_UPLOAD_DATA + 4] = left[4];
        self.ram[VRAM_UPLOAD_DATA + 4 + 16] = right[4];
        self.ram[VRAM_UPLOAD_DATA + 3] = left[3];
        self.ram[VRAM_UPLOAD_DATA + 3 + 16] = right[3];
        self.ram[VRAM_UPLOAD_DATA + 2] = left[2];
        self.ram[VRAM_UPLOAD_DATA + 2 + 16] = right[2];
        self.ram[VRAM_UPLOAD_DATA + 1] = left[1];
        self.ram[VRAM_UPLOAD_DATA + 1 + 16] = right[1];
        self.ram[VRAM_UPLOAD_DATA] = left[0];
        self.ram[VRAM_UPLOAD_DATA + 16] = right[0];
    }

    pub fn terminate_at(&mut self, offset: usize)
        requires
            VRAM_UPLOAD_DATA + offset < old(self).ram().len(),
        ensures
            final(self).ram() == old(self).ram().update(VRAM_UPLOAD_DATA + offset, 0xffu8),
            final(final(self).ram)@ == final(old(self).ram)@,
    {
        proof {
            assert(self.ram@.len() == self.ram.len());
        }
        self.ram[VRAM_UPLOAD_DATA + offset] = 0xff;
    }

    pub fn copy_bytes(&mut self, offset: usize, data: &[u8])
        requires
            VRAM_UPLOAD_DATA + offset <= usize::MAX,
            (VRAM_UPLOAD_DATA + offset) + data@.len() <= old(self).ram().len(),
        ensures
            final(self).ram() == access::copied(old(self).ram(), VRAM_UPLOAD_DATA + offset, data@),
            final(final(self).ram)@ == final(old(self).ram)@,
    {
        proof {
            assert(self.ram@.len() == self.ram.len());
        }
        copy_bytes(self.ram, VRAM_UPLOAD_DATA + offset, data);
    }
}

} // verus!
