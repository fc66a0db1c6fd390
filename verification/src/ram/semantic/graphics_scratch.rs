use vstd::prelude::*;
use super::access;
use super::access::{fill_bytes, copy_bytes};
use super::addresses::{
    AGAHNIM_PAL_SETTING, AUX_BG_SUBSET_0, BG_DECOMP_BUFFER_LOAD_GFX, GRAPHICS_DECOMP_BUFFER_END,
    MESSAGING_RENDER_BUFFER, PRIMARY_DECOMP_BUFFER_LOAD_GFX, SECONDARY_DECOMP_BUFFER_LOAD_GFX,
    SPRITE_DECOMP_BUFFER_LOAD_GFX,
};
use vstd::slice::{slice_subrange, slice_to_vec};

verus! {

pub struct GraphicsScratchViewMut<'a> {
    pub ram: &'a mut [u8],
}

impl<'a> GraphicsScratchViewMut<'a> {
    /// The bytes of RAM this view reads and writes.
    pub open spec fn ram(&self) -> Seq<u8> {
        self.ram@
    }

    pub fn new(ram: &'a mut [u8]) -> (view: Self)
        ensures
            view.ram() == old(ram)@,
            final(view.ram)@ == final(ram)@,
    {
        Self { ram }
    }

    pub fn set_aux_bg_subset_pack(&mut self, index: usize, value: u8)
        requires
            AUX_BG_SUBSET_0 + index < old(self).ram().len(),
        ensures
            final(self).ram() == old(self).ram().update(AUX_BG_SUBSET_0 + index, value),
            final(final(self).ram)@ == final(old(self).ram)@,
    {
        proof {
            assert(self.ram@.len() == self.ram.len());
        }
        self.ram[AUX_BG_SUBSET_0 + index] = value;
    }

    pub fn primary_decomp_buffer_offset() -> (result: usize)
        ensures
            result == PRIMARY_DECOMP_BUFFER_LOAD_GFX,
    {
        PRIMARY_DECOMP_BUFFER_LOAD_GFX
    }

    pub fn secondary_decomp_buffer_offset() -> (result: usize)
        ensures
            result == SECONDARY_DECOMP_BUFFER_LOAD_GFX,
    {
        SECONDARY_DECOMP_BUFFER_LOAD_GFX
    }

    pub fn primary_decomp_buffer(&self, len: usize) -> (result: Vec<u8>)
        requires
            PRIMARY_DECOMP_BUFFER_LOAD_GFX + len <= self.ram().len(),
        ensures
            result@ == self.ram()
                .subrange(
                    PRIMARY_DECOMP_BUFFER_LOAD_GFX as int,
                    PRIMARY_DECOMP_BUFFER_LOAD_GFX + len,
                ),
    {
        proof {
            assert(self.ram@.len() == self.ram.len());
        }
        slice_to_vec(
            slice_subrange(
                self.ram,
                PRIMARY_DECOMP_BUFFER_LOAD_GFX,
                PRIMARY_DECOMP_BUFFER_LOAD_GFX + len,
            ),
        )
    }

    pub fn combined_decomp_buffers(&self) -> (result: Vec<u8>)
        requires
            PRIMARY_DECOMP_BUFFER_LOAD_GFX + 0x0c00 <= self.ram().len(),
        ensures
            result@ == self.ram()
                .subrange(
                    PRIMARY_DECOMP_BUFFER_LOAD_GFX as int,
                    PRIMARY_DECOMP_BUFFER_LOAD_GFX + 0x0c00,
                ),
    {
        self.primary_decomp_buffer(0x0c00)
    }

    pub fn copy_to_primary_decomp_buffer(&mut self, data: &[u8])
        requires
            PRIMARY_DECOMP_BUFFER_LOAD_GFX <= old(self).ram().len(),
        ensures
            final(self).ram() == access::copied(
                old(self).ram(),
                PRIMARY_DECOMP_BUFFER_LOAD_GFX as int,
                data@.subrange(
                    0,
                    if data@.len() <= old(self).ram().len() - PRIMARY_DECOMP_BUFFER_LOAD_GFX {
                        data@.len() as int
                    } else {
                        old(self).ram().len() - PRIMARY_DECOMP_BUFFER_LOAD_GFX
                    },
                ),
            ),
            final(final(self).ram)@ == final(old(self).ram)@,
    {
        let room = self.ram.len().saturating_sub(PRIMARY_DECOMP_BUFFER_LOAD_GFX);
        let len = if data.len() <= room {
            data.len()
        } else {
            room
        };
        copy_bytes(self.ram, PRIMARY_DECOMP_BUFFER_LOAD_GFX, slice_subrange(data, 0, len));
    }

    pub fn copy_message_rows(&mut self, dst: usize, src0: usize, src1: usize, len: usize)
        requires
            len > 0 ==> MESSAGING_RENDER_BUFFER + dst + 2 * len - 1 < old(self).ram().len(),
            len > 0 ==> src0 + len - 1 < old(self).ram().len(),
            len > 0 ==> src1 + len - 1 < old(self).ram().len(),
        ensures
            final(self).ram() == access::row_pair_copy(
                old(self).ram(),
                MESSAGING_RENDER_BUFFER + dst,
                MESSAGING_RENDER_BUFFER + dst + len,
                src0 as int,
                src1 as int,
                len as nat,
            ),
            final(final(self).ram)@ == final(old(self).ram)@,
    {
        proof {
            assert(self.ram@.len() == self.ram.len());
        }
        for i in 0..len
            invariant
                final(self.ram)@ == final(old(self).ram)@,
                old(self).ram().len() <= usize::MAX,
                len > 0 ==> MESSAGING_RENDER_BUFFER + dst + 2 * len - 1 < old(self).ram().len(),
                len > 0 ==> src0 + len - 1 < old(self).ram().len(),
                len > 0 ==> src1 + len - 1 < old(self).ram().len(),
                self.ram().len() == old(self).ram().len(),
                self.ram() == access::row_pair_copy(
                    old(self).ram(),
                    MESSAGING_RENDER_BUFFER + dst,
                    MESSAGING_RENDER_BUFFER + dst + len,
                    src0 as int,
                    src1 as int,
                    i as nat,
                ),
        {
            self.ram[MESSAGING_RENDER_BUFFER + dst + i] = self.ram[src0 + i];
            self.ram[MESSAGING_RENDER_BUFFER + dst + len + i] = self.ram[src1 + i];
        }
    }

    pub fn clear_agahnim_palette_settings(&mut self, len: usize)
        requires
            AGAHNIM_PAL_SETTING + len <= old(self).ram().len(),
        ensures
            final(self).ram() == access::filled(
                old(self).ram(),
                AGAHNIM_PAL_SETTING as int,
                AGAHNIM_PAL_SETTING + len,
                0u8,
            ),
            final(final(self).ram)@ == final(old(self).ram)@,
    {
        proof {
            assert(self.ram@.len() == self.ram.len());
        }
        fill_bytes(self.ram, AGAHNIM_PAL_SETTING, AGAHNIM_PAL_SETTING + len, 0);
    }

    pub fn sprite_decomp_buffer_tail(&self) -> (result: Vec<u8>)
        requires
            GRAPHICS_DECOMP_BUFFER_END <= self.ram().len(),
        ensures
            result@ == self.ram()
                .subrange(
                    SPRITE_DECOMP_BUFFER_LOAD_GFX as int,
                    GRAPHICS_DECOMP_BUFFER_END as int,
                ),
    {
        slice_to_vec(
            slice_subrange(self.ram, SPRITE_DECOMP_BUFFER_LOAD_GFX, GRAPHICS_DECOMP_BUFFER_END),
        )
    }

    pub fn staged_bg_and_sprite_decomp_buffers(&self) -> (result: Vec<u8>)
        requires
            GRAPHICS_DECOMP_BUFFER_END <= self.ram().len(),
        ensures
            result@ == self.ram()
                .subrange(
                    BG_DECOMP_BUFFER_LOAD_GFX as int,
                    GRAPHICS_DECOMP_BUFFER_END as int,
                ),
    {
        slice_to_vec(
            slice_subrange(self.ram, BG_DECOMP_BUFFER_LOAD_GFX, GRAPHICS_DECOMP_BUFFER_END),
        )
    }
}

} // verus!
