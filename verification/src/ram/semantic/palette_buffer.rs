use vstd::prelude::*;
use super::access;
use super::access::{word, fill_bytes, copy_bytes};
use super::addresses::{
    AUX_PALETTE_BUFFER, BG_TILE_ANIMATION_COUNTDOWN, HUD_PALETTE, MAIN_PALETTE_BUFFER,
    OVERWORLD_PALETTE_AUX2_BP5TO7_HI, OVERWORLD_PALETTE_AUX3_BP7_LO, OVERWORLD_PALETTE_AUX_OR_MAIN,
    OVERWORLD_PALETTE_MODE, PALETTE_MAIN_INDOORS, PALETTE_SP0L, PALETTE_SP5L, PALETTE_SP6L,
    PALETTE_SP6R_INDOORS,
};
use vstd::slice::{slice_subrange};
use crate::types;
use crate::types::{write_le_u16};

verus! {

pub struct PaletteBufferView<'a> {
    ram: &'a [u8],
}

impl<'a> PaletteBufferView<'a> {
    /// The bytes of RAM this view reads and writes.
    pub closed spec fn ram(&self) -> Seq<u8> {
        self.ram@
    }

    pub fn new(ram: &'a [u8]) -> (view: Self)
        ensures
            view.ram() == ram@,
    {
        Self { ram }
    }

    pub fn main_color(&self, index: usize) -> (result: u16)
        requires
            (MAIN_PALETTE_BUFFER + (index * 2)) + 1 <= usize::MAX,
        ensures
            result == access::word_at(self.ram(), MAIN_PALETTE_BUFFER + (index * 2)),
    {
        word(self.ram, MAIN_PALETTE_BUFFER + index * 2)
    }

    pub fn aux_color(&self, index: usize) -> (result: u16)
        requires
            (AUX_PALETTE_BUFFER + (index * 2)) + 1 <= usize::MAX,
        ensures
            result == access::word_at(self.ram(), AUX_PALETTE_BUFFER + (index * 2)),
    {
        word(self.ram, AUX_PALETTE_BUFFER + index * 2)
    }

    pub fn aux_visible_slice(&self) -> (result: &[u8])
        requires
            AUX_PALETTE_BUFFER + 256 <= self.ram().len(),
        ensures
            result@ == self.ram().subrange(AUX_PALETTE_BUFFER as int, AUX_PALETTE_BUFFER + 256),
    {
        slice_subrange(self.ram, AUX_PALETTE_BUFFER, AUX_PALETTE_BUFFER + 256)
    }

    pub fn main_full_slice(&self) -> (result: &[u8])
        requires
            MAIN_PALETTE_BUFFER + 512 <= self.ram().len(),
        ensures
            result@ == self.ram().subrange(MAIN_PALETTE_BUFFER as int, MAIN_PALETTE_BUFFER + 512),
    {
        slice_subrange(self.ram, MAIN_PALETTE_BUFFER, MAIN_PALETTE_BUFFER + 512)
    }

    pub fn aux_full_slice(&self) -> (result: &[u8])
        requires
            AUX_PALETTE_BUFFER + 512 <= self.ram().len(),
        ensures
            result@ == self.ram().subrange(AUX_PALETTE_BUFFER as int, AUX_PALETTE_BUFFER + 512),
    {
        slice_subrange(self.ram, AUX_PALETTE_BUFFER, AUX_PALETTE_BUFFER + 512)
    }

    pub fn overworld_aux_or_main_offset(&self) -> (result: u16)
        ensures
            result == access::word_at(self.ram(), OVERWORLD_PALETTE_AUX_OR_MAIN as int),
    {
        word(self.ram, OVERWORLD_PALETTE_AUX_OR_MAIN)
    }
}

pub struct PaletteBufferViewMut<'a> {
    pub ram: &'a mut [u8],
}

impl<'a> PaletteBufferViewMut<'a> {
    /// The bytes of RAM this view reads and writes.
    pub open spec fn ram(&self) -> Seq<u8> {
        self.ram@
    }

    pub fn new(ram: &'a mut [u8]) -> (view: Self)
        ensures
            view.ram() == old(ram)@,
            final(view.ram)@ == final(ram)@,
    {
        Self { ram }
    }

    pub fn clear_aux_visible_subpalettes(&mut self)
        requires
            (AUX_PALETTE_BUFFER + (32 * 2)) + 192 <= old(self).ram().len(),
        ensures
            final(self).ram() == access::filled(
                old(self).ram(),
                AUX_PALETTE_BUFFER + (32 * 2),
                (AUX_PALETTE_BUFFER + (32 * 2)) + 192,
                0u8,
            ),
            final(final(self).ram)@ == final(old(self).ram)@,
    {
        fill_bytes(self.ram, AUX_PALETTE_BUFFER + 32 * 2, AUX_PALETTE_BUFFER + 32 * 2 + 192, 0);
    }

    pub fn clear_main_visible_subpalettes(&mut self)
        requires
            (MAIN_PALETTE_BUFFER + (32 * 2)) + 192 <= old(self).ram().len(),
        ensures
            final(self).ram() == access::filled(
                old(self).ram(),
                MAIN_PALETTE_BUFFER + (32 * 2),
                (MAIN_PALETTE_BUFFER + (32 * 2)) + 192,
                0u8,
            ),
            final(final(self).ram)@ == final(old(self).ram)@,
    {
        fill_bytes(self.ram, MAIN_PALETTE_BUFFER + 32 * 2, MAIN_PALETTE_BUFFER + 32 * 2 + 192, 0);
    }

    pub fn clear_aux_sprite_subpalettes(&mut self)
        requires
            AUX_PALETTE_BUFFER + 0x200 <= old(self).ram().len(),
        ensures
            final(self).ram() == access::filled(
                old(self).ram(),
                AUX_PALETTE_BUFFER + 0x180,
                AUX_PALETTE_BUFFER + 0x200,
                0u8,
            ),
            final(final(self).ram)@ == final(old(self).ram)@,
    {
        fill_bytes(self.ram, AUX_PALETTE_BUFFER + 0x180, AUX_PALETTE_BUFFER + 0x200, 0);
    }

    pub fn set_main_color(&mut self, index: usize, value: u16)
        requires
            (MAIN_PALETTE_BUFFER + (index * 2)) + 1 < old(self).ram().len(),
        ensures
            final(self).ram() == types::with_u16(
                old(self).ram(),
                MAIN_PALETTE_BUFFER + (index * 2),
                value,
            ),
            final(final(self).ram)@ == final(old(self).ram)@,
    {
        proof {
            assert(self.ram@.len() == self.ram.len());
        }
        write_le_u16(self.ram, MAIN_PALETTE_BUFFER + index * 2, value);
    }

    pub fn set_aux_color(&mut self, index: usize, value: u16)
        requires
            (AUX_PALETTE_BUFFER + (index * 2)) + 1 < old(self).ram().len(),
        ensures
            final(self).ram() == types::with_u16(
                old(self).ram(),
                AUX_PALETTE_BUFFER + (index * 2),
                value,
            ),
            final(final(self).ram)@ == final(old(self).ram)@,
    {
        proof {
            assert(self.ram@.len() == self.ram.len());
        }
        write_le_u16(self.ram, AUX_PALETTE_BUFFER + index * 2, value);
    }

    pub fn set_overworld_aux_or_main_offset(&mut self, value: u16)
        requires
            OVERWORLD_PALETTE_AUX_OR_MAIN + 1 < old(self).ram().len(),
        ensures
            final(self).ram() == types::with_u16(
                old(self).ram(),
                OVERWORLD_PALETTE_AUX_OR_MAIN as int,
                value,
            ),
            final(final(self).ram)@ == final(old(self).ram)@,
    {
        write_le_u16(self.ram, OVERWORLD_PALETTE_AUX_OR_MAIN, value);
    }

    pub fn clear_overworld_aux_or_main_offset(&mut self)
        requires
            OVERWORLD_PALETTE_AUX_OR_MAIN + 1 < old(self).ram().len(),
        ensures
            final(self).ram() == types::with_u16(
                old(self).ram(),
                OVERWORLD_PALETTE_AUX_OR_MAIN as int,
                0,
            ),
            final(final(self).ram)@ == final(old(self).ram)@,
    {
        self.set_overworld_aux_or_main_offset(0);
    }

    pub fn select_overworld_aux_palette_offset(&mut self)
        requires
            OVERWORLD_PALETTE_AUX_OR_MAIN + 1 < old(self).ram().len(),
        ensures
            final(self).ram() == types::with_u16(
                old(self).ram(),
                OVERWORLD_PALETTE_AUX_OR_MAIN as int,
                0x0200,
            ),
            final(final(self).ram)@ == final(old(self).ram)@,
    {
        self.set_overworld_aux_or_main_offset(0x0200);
    }

    pub fn keep_overworld_aux_or_main_low_byte(&mut self)
        requires
            OVERWORLD_PALETTE_AUX_OR_MAIN + 1 < old(self).ram().len(),
        ensures
            final(self).ram() == types::with_u16(
                old(self).ram(),
                OVERWORLD_PALETTE_AUX_OR_MAIN as int,
                access::word_at(
                    old(self).ram(),
                    OVERWORLD_PALETTE_AUX_OR_MAIN as int,
                ) & 0x00ffu16,
            ),
            final(final(self).ram)@ == final(old(self).ram)@,
    {
        let value = word(self.ram, OVERWORLD_PALETTE_AUX_OR_MAIN) & 0x00ff;
        self.set_overworld_aux_or_main_offset(value);
    }

    pub fn clear_main_full(&mut self)
        requires
            MAIN_PALETTE_BUFFER + 0x200 <= old(self).ram().len(),
        ensures
            final(self).ram() == access::filled(
                old(self).ram(),
                MAIN_PALETTE_BUFFER as int,
                MAIN_PALETTE_BUFFER + 0x200,
                0u8,
            ),
            final(final(self).ram)@ == final(old(self).ram)@,
    {
        fill_bytes(self.ram, MAIN_PALETTE_BUFFER, MAIN_PALETTE_BUFFER + 0x200, 0);
    }

    pub fn copy_aux_visible_from(&mut self, palette: &[u8])
        requires
            AUX_PALETTE_BUFFER + 256 <= old(self).ram().len(),
            palette@.len() == 256,
        ensures
            final(self).ram() == access::copied(
                old(self).ram(),
                AUX_PALETTE_BUFFER as int,
                palette@,
            ),
            final(final(self).ram)@ == final(old(self).ram)@,
    {
        copy_bytes(self.ram, AUX_PALETTE_BUFFER, palette);
    }

    pub fn copy_aux_full_from(&mut self, palette: &[u8])
        requires
            AUX_PALETTE_BUFFER + 512 <= old(self).ram().len(),
            palette@.len() == 512,
        ensures
            final(self).ram() == access::copied(
                old(self).ram(),
                AUX_PALETTE_BUFFER as int,
                palette@,
            ),
            final(final(self).ram)@ == final(old(self).ram)@,
    {
        copy_bytes(self.ram, AUX_PALETTE_BUFFER, palette);
    }

    pub fn copy_main_full_from(&mut self, palette: &[u8])
        requires
            MAIN_PALETTE_BUFFER + 512 <= old(self).ram().len(),
            palette@.len() == 512,
        ensures
            final(self).ram() == access::copied(
                old(self).ram(),
                MAIN_PALETTE_BUFFER as int,
                palette@,
            ),
            final(final(self).ram)@ == final(old(self).ram)@,
    {
        copy_bytes(self.ram, MAIN_PALETTE_BUFFER, palette);
    }

    pub fn set_sp0l(&mut self, value: u8)
        requires
            PALETTE_SP0L < old(self).ram().len(),
        ensures
            final(self).ram() == old(self).ram().update(PALETTE_SP0L as int, value),
            final(final(self).ram)@ == final(old(self).ram)@,
    {
        self.ram[PALETTE_SP0L] = value;
    }

    pub fn set_sp5l(&mut self, value: u8)
        requires
            PALETTE_SP5L < old(self).ram().len(),
        ensures
            final(self).ram() == old(self).ram().update(PALETTE_SP5L as int, value),
            final(final(self).ram)@ == final(old(self).ram)@,
    {
        self.ram[PALETTE_SP5L] = value;
    }

    pub fn set_sp6l(&mut self, value: u8)
        requires
            PALETTE_SP6L < old(self).ram().len(),
        ensures
            final(self).ram() == old(self).ram().update(PALETTE_SP6L as int, value),
            final(final(self).ram)@ == final(old(self).ram)@,
    {
        self.ram[PALETTE_SP6L] = value;
    }

    pub fn set_palette_main_indoors(&mut self, value: u8)
        requires
            PALETTE_MAIN_INDOORS < old(self).ram().len(),
        ensures
            final(self).ram() == old(self).ram().update(PALETTE_MAIN_INDOORS as int, value),
            final(final(self).ram)@ == final(old(self).ram)@,
    {
        self.ram[PALETTE_MAIN_INDOORS] = value;
    }

    pub fn set_hud_palette(&mut self, value: u8)
        requires
            HUD_PALETTE < old(self).ram().len(),
        ensures
            final(self).ram() == old(self).ram().update(HUD_PALETTE as int, value),
            final(final(self).ram)@ == final(old(self).ram)@,
    {
        self.ram[HUD_PALETTE] = value;
    }

    pub fn set_sp6r_indoors(&mut self, value: u8)
        requires
            PALETTE_SP6R_INDOORS < old(self).ram().len(),
        ensures
            final(self).ram() == old(self).ram().update(PALETTE_SP6R_INDOORS as int, value),
            final(final(self).ram)@ == final(old(self).ram)@,
    {
        self.ram[PALETTE_SP6R_INDOORS] = value;
    }

    pub fn set_overworld_palette_aux2_hi(&mut self, value: u8)
        requires
            OVERWORLD_PALETTE_AUX2_BP5TO7_HI < old(self).ram().len(),
        ensures
            final(self).ram() == old(self).ram().update(
                OVERWORLD_PALETTE_AUX2_BP5TO7_HI as int,
                value,
            ),
            final(final(self).ram)@ == final(old(self).ram)@,
    {
        self.ram[OVERWORLD_PALETTE_AUX2_BP5TO7_HI] = value;
    }

    pub fn set_overworld_palette_aux3_lo(&mut self, value: u8)
        requires
            OVERWORLD_PALETTE_AUX3_BP7_LO < old(self).ram().len(),
        ensures
            final(self).ram() == old(self).ram().update(
                OVERWORLD_PALETTE_AUX3_BP7_LO as int,
                value,
            ),
            final(final(self).ram)@ == final(old(self).ram)@,
    {
        self.ram[OVERWORLD_PALETTE_AUX3_BP7_LO] = value;
    }

    pub fn set_bg_tile_animation_countdown(&mut self, value: u16)
        requires
            BG_TILE_ANIMATION_COUNTDOWN + 1 < old(self).ram().len(),
        ensures
            final(self).ram() == types::with_u16(
                old(self).ram(),
                BG_TILE_ANIMATION_COUNTDOWN as int,
                value,
            ),
            final(final(self).ram)@ == final(old(self).ram)@,
    {
        write_le_u16(self.ram, BG_TILE_ANIMATION_COUNTDOWN, value);
    }

    pub fn set_overworld_palette_mode(&mut self, value: u8)
        requires
            OVERWORLD_PALETTE_MODE < old(self).ram().len(),
        ensures
            final(self).ram() == old(self).ram().update(OVERWORLD_PALETTE_MODE as int, value),
            final(final(self).ram)@ == final(old(self).ram)@,
    {
        self.ram[OVERWORLD_PALETTE_MODE] = value;
    }
}

} // verus!
