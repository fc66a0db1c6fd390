use vstd::prelude::*;
use super::access;
use super::access::{byte, word};
use super::addresses::{
    ANIMATED_TILE_DATA_SRC, ANIMATED_TILE_VRAM_ADDR, BGMODE_COPY, DMA_BODY_POINTER,
    DMA_HEAD_POINTER, DUNGEON_BG1_ATTR_TABLE, DUNGEON_BG2_ATTR_TABLE, FLAG_TRAVEL_BIRD,
    HDMAEN_COPY, HUD_TILE_INDICES_BUFFER, INIDISP_COPY, IRQ_FLAG, LOAD_CHR_HALFSLOT_EVEN_ODD,
    MOSAIC_COPY, MOSAIC_LEVEL, MOSAIC_TARGET_LEVEL, NMI_BOOLEAN, NMI_COPY_PACKETS_FLAG,
    NMI_DISABLE_CORE_UPDATES, NMI_FLAG_UPDATE_POLYHEDRAL, NMI_LOAD_BG_FROM_VRAM,
    NMI_LOAD_TARGET_ADDR, NMI_SUBROUTINE_INDEX, NMI_THREAD_ACTIVE, NMI_UPDATE_TILEMAP_DST,
    NMI_UPDATE_TILEMAP_SRC, OAM_BUF, OVERWORLD_FIXED_COLOR_PLUSMINUS, POLYHEDRAL_BUFFER,
    POLY_THREAD_STACK, TMW_COPY, TM_COPY, TSW_COPY, TS_COPY, VIRQ_TRIGGER, W12SEL_COPY,
    W34SEL_COPY, WOBJSEL_COPY,
};
use vstd::slice::{slice_subrange};
use crate::types;
use crate::types::{write_le_u16};
use crate::ram::nmi;
use crate::ram::messaging;

verus! {

pub struct DisplayNmiView<'a> {
    ram: &'a [u8],
}

impl<'a> DisplayNmiView<'a> {
    /// The bytes of RAM this view reads and writes.
    pub closed spec fn ram(&self) -> Seq<u8> {
        self.ram@
    }

    pub fn new(ram: &'a [u8]) -> (view: Self)
        ensures
            view.ram() == ram@,
    {
        Self { ram }
    }

    pub fn screen_brightness(&self) -> (result: u8)
        ensures
            result == access::byte_at(self.ram(), INIDISP_COPY as int),
    {
        byte(self.ram, INIDISP_COPY)
    }

    pub fn bg_vram_load_mode(&self) -> (result: u8)
        ensures
            result == access::byte_at(self.ram(), NMI_LOAD_BG_FROM_VRAM as int),
    {
        byte(self.ram, NMI_LOAD_BG_FROM_VRAM)
    }

    pub fn has_bg_vram_load(&self) -> (result: bool)
        ensures
            result == (access::byte_at(self.ram(), NMI_LOAD_BG_FROM_VRAM as int) != 0),
    {
        self.bg_vram_load_mode() != 0
    }

    pub fn core_updates_disabled(&self) -> (result: bool)
        ensures
            result == (access::byte_at(self.ram(), NMI_DISABLE_CORE_UPDATES as int) != 0),
    {
        byte(self.ram, NMI_DISABLE_CORE_UPDATES) != 0
    }

    pub fn core_update_disable_flag(&self) -> (result: u8)
        ensures
            result == access::byte_at(self.ram(), NMI_DISABLE_CORE_UPDATES as int),
    {
        byte(self.ram, NMI_DISABLE_CORE_UPDATES)
    }

    pub fn subroutine_index(&self) -> (result: u8)
        ensures
            result == access::byte_at(self.ram(), NMI_SUBROUTINE_INDEX as int),
    {
        byte(self.ram, NMI_SUBROUTINE_INDEX)
    }

    pub fn load_target_addr(&self) -> (result: u8)
        ensures
            result == access::byte_at(self.ram(), NMI_LOAD_TARGET_ADDR as int),
    {
        byte(self.ram, NMI_LOAD_TARGET_ADDR)
    }

    pub fn load_target_addr_word(&self) -> (result: u16)
        ensures
            result == access::word_at(self.ram(), NMI_LOAD_TARGET_ADDR as int),
    {
        word(self.ram, NMI_LOAD_TARGET_ADDR)
    }

    pub fn main_screen_layers(&self) -> (result: u8)
        ensures
            result == access::byte_at(self.ram(), TM_COPY as int),
    {
        byte(self.ram, TM_COPY)
    }

    pub fn sub_screen_layers(&self) -> (result: u8)
        ensures
            result == access::byte_at(self.ram(), TS_COPY as int),
    {
        byte(self.ram, TS_COPY)
    }

    pub fn layer_masks_word(&self) -> (result: u16)
        ensures
            result == access::word_at(self.ram(), TM_COPY as int),
    {
        word(self.ram, TM_COPY)
    }

    pub fn bg_mode(&self) -> (result: u8)
        ensures
            result == access::byte_at(self.ram(), BGMODE_COPY as int),
    {
        byte(self.ram, BGMODE_COPY)
    }

    pub fn mosaic_copy(&self) -> (result: u8)
        ensures
            result == access::byte_at(self.ram(), MOSAIC_COPY as int),
    {
        byte(self.ram, MOSAIC_COPY)
    }

    pub fn hdma_enable_mask(&self) -> (result: u8)
        ensures
            result == access::byte_at(self.ram(), HDMAEN_COPY as int),
    {
        byte(self.ram, HDMAEN_COPY)
    }

    pub fn is_hdma_channel_enabled(&self, channel: usize) -> (result: bool)
        requires
            channel < 8,
        ensures
            result == (access::byte_at(self.ram(), HDMAEN_COPY as int) & (1u8 << channel) != 0),
    {
        self.hdma_enable_mask() & (1 << channel) != 0
    }

    pub fn mosaic_level(&self) -> (result: u8)
        ensures
            result == access::byte_at(self.ram(), MOSAIC_LEVEL as int),
    {
        byte(self.ram, MOSAIC_LEVEL)
    }

    pub fn nmi_copy_packets_flag(&self) -> (result: u8)
        ensures
            result == access::byte_at(self.ram(), NMI_COPY_PACKETS_FLAG as int),
    {
        byte(self.ram, NMI_COPY_PACKETS_FLAG)
    }

    pub fn has_nmi_copy_packets(&self) -> (result: bool)
        ensures
            result == (access::byte_at(self.ram(), NMI_COPY_PACKETS_FLAG as int) != 0),
    {
        self.nmi_copy_packets_flag() != 0
    }

    pub fn chr_halfslot_state(&self) -> (result: u8)
        ensures
            result == access::byte_at(self.ram(), LOAD_CHR_HALFSLOT_EVEN_ODD as int),
    {
        byte(self.ram, LOAD_CHR_HALFSLOT_EVEN_ODD)
    }

    pub fn mosaic_target_level(&self) -> (result: u8)
        ensures
            result == access::byte_at(self.ram(), MOSAIC_TARGET_LEVEL as int),
    {
        byte(self.ram, MOSAIC_TARGET_LEVEL)
    }

    pub fn nmi_boolean(&self) -> (result: u8)
        ensures
            result == access::byte_at(self.ram(), NMI_BOOLEAN as int),
    {
        byte(self.ram, NMI_BOOLEAN)
    }

    pub fn is_nmi_thread_active(&self) -> (result: bool)
        ensures
            result == (access::byte_at(self.ram(), NMI_THREAD_ACTIVE as int) != 0),
    {
        byte(self.ram, NMI_THREAD_ACTIVE) != 0
    }

    pub fn nmi_flag_update_polyhedral(&self) -> (result: u8)
        ensures
            result == access::byte_at(self.ram(), NMI_FLAG_UPDATE_POLYHEDRAL as int),
    {
        byte(self.ram, NMI_FLAG_UPDATE_POLYHEDRAL)
    }

    pub fn thread_other_stack(&self) -> (result: u16)
        ensures
            result == access::word_at(self.ram(), POLY_THREAD_STACK as int),
    {
        word(self.ram, POLY_THREAD_STACK)
    }

    pub fn update_tilemap_dst(&self) -> (result: u8)
        ensures
            result == access::byte_at(self.ram(), NMI_UPDATE_TILEMAP_DST as int),
    {
        byte(self.ram, NMI_UPDATE_TILEMAP_DST)
    }

    pub fn update_tilemap_src_data(&self) -> (result: &[u8])
        requires
            nmi::BG_CHAR_BUFFER + (access::word_at(self.ram(), NMI_UPDATE_TILEMAP_SRC as int) as usize) <= usize::MAX,
        ensures
            result@ == self.ram()
                .subrange(
                    if (nmi::BG_CHAR_BUFFER + (access::word_at(self.ram(), NMI_UPDATE_TILEMAP_SRC as int) as usize)) <= self.ram().len() {
                        nmi::BG_CHAR_BUFFER + (access::word_at(self.ram(), NMI_UPDATE_TILEMAP_SRC as int) as usize)
                    } else {
                        self.ram().len() as int
                    },
                    self.ram().len() as int,
                ),
    {
        let offset = word(self.ram, NMI_UPDATE_TILEMAP_SRC) as usize;
        let start = nmi::BG_CHAR_BUFFER + offset;
        slice_subrange(
            self.ram,
            if start <= self.ram.len() { start } else { self.ram.len() },
            self.ram.len(),
        )
    }

    pub fn animated_tile_data_src(&self) -> (result: u16)
        ensures
            result == access::word_at(self.ram(), ANIMATED_TILE_DATA_SRC as int),
    {
        word(self.ram, ANIMATED_TILE_DATA_SRC)
    }

    pub fn animated_tile_vram_addr(&self) -> (result: u16)
        ensures
            result == access::word_at(self.ram(), ANIMATED_TILE_VRAM_ADDR as int),
    {
        word(self.ram, ANIMATED_TILE_VRAM_ADDR)
    }

    pub fn animated_tile_data(&self) -> (result: &[u8])
        ensures
            result@ == self.ram()
                .subrange(
                    if (access::word_at(self.ram(), ANIMATED_TILE_DATA_SRC as int) as usize) <= self.ram().len() {
                        (access::word_at(self.ram(), ANIMATED_TILE_DATA_SRC as int) as usize) as int
                    } else {
                        self.ram().len() as int
                    },
                    self.ram().len() as int,
                ),
    {
        let src = word(self.ram, ANIMATED_TILE_DATA_SRC) as usize;
        slice_subrange(
            self.ram,
            if src <= self.ram.len() { src } else { self.ram.len() },
            self.ram.len(),
        )
    }

    pub fn message_dma_dst_addr(&self) -> (result: u16)
        ensures
            result == access::word_at(self.ram(), messaging::MESSAGE_DMA_DST_ADDR as int),
    {
        word(self.ram, messaging::MESSAGE_DMA_DST_ADDR)
    }

    pub fn hud_tile_indices_buffer(&self) -> (result: &[u8])
        requires
            HUD_TILE_INDICES_BUFFER <= self.ram().len(),
        ensures
            result@ == self.ram().subrange(HUD_TILE_INDICES_BUFFER as int, self.ram().len() as int),
    {
        slice_subrange(self.ram, HUD_TILE_INDICES_BUFFER, self.ram.len())
    }

    pub fn oam_buf(&self) -> (result: &[u8])
        requires
            OAM_BUF <= self.ram().len(),
        ensures
            result@ == self.ram().subrange(OAM_BUF as int, self.ram().len() as int),
    {
        slice_subrange(self.ram, OAM_BUF, self.ram.len())
    }

    pub fn tilemap_upload_buffer(&self) -> (result: &[u8])
        requires
            nmi::TILEMAP_UPLOAD_BUFFER <= self.ram().len(),
        ensures
            result@ == self.ram()
                .subrange(nmi::TILEMAP_UPLOAD_BUFFER as int, self.ram().len() as int),
    {
        slice_subrange(self.ram, nmi::TILEMAP_UPLOAD_BUFFER, self.ram.len())
    }

    pub fn stripe_buffer_021b(&self) -> (result: &[u8])
        requires
            nmi::STRIPE_BUFFER_021B <= self.ram().len(),
        ensures
            result@ == self.ram().subrange(nmi::STRIPE_BUFFER_021B as int, self.ram().len() as int),
    {
        slice_subrange(self.ram, nmi::STRIPE_BUFFER_021B, self.ram.len())
    }

    pub fn vram_upload_tile_buf(&self) -> (result: &[u8])
        requires
            nmi::VRAM_UPLOAD_TILE_BUF <= self.ram().len(),
        ensures
            result@ == self.ram()
                .subrange(nmi::VRAM_UPLOAD_TILE_BUF as int, self.ram().len() as int),
    {
        slice_subrange(self.ram, nmi::VRAM_UPLOAD_TILE_BUF, self.ram.len())
    }

    pub fn bg1_wall_top_buffer(&self) -> (result: &[u8])
        requires
            nmi::BG1_WALL_TOP_BUFFER <= self.ram().len(),
        ensures
            result@ == self.ram().subrange(nmi::BG1_WALL_TOP_BUFFER as int, self.ram().len() as int),
    {
        slice_subrange(self.ram, nmi::BG1_WALL_TOP_BUFFER, self.ram.len())
    }

    pub fn bg1_wall_bottom_buffer(&self) -> (result: &[u8])
        requires
            nmi::BG1_WALL_BOTTOM_BUFFER <= self.ram().len(),
        ensures
            result@ == self.ram()
                .subrange(nmi::BG1_WALL_BOTTOM_BUFFER as int, self.ram().len() as int),
    {
        slice_subrange(self.ram, nmi::BG1_WALL_BOTTOM_BUFFER, self.ram.len())
    }

    pub fn bg_char_buffer(&self) -> (result: &[u8])
        requires
            nmi::BG_CHAR_BUFFER <= self.ram().len(),
        ensures
            result@ == self.ram().subrange(nmi::BG_CHAR_BUFFER as int, self.ram().len() as int),
    {
        slice_subrange(self.ram, nmi::BG_CHAR_BUFFER, self.ram.len())
    }

    pub fn bg_char_buffer_1(&self) -> (result: &[u8])
        requires
            nmi::BG_CHAR_BUFFER_1 <= self.ram().len(),
        ensures
            result@ == self.ram().subrange(nmi::BG_CHAR_BUFFER_1 as int, self.ram().len() as int),
    {
        slice_subrange(self.ram, nmi::BG_CHAR_BUFFER_1, self.ram.len())
    }

    pub fn bg_char_half_buffer(&self) -> (result: &[u8])
        requires
            nmi::BG_CHAR_HALF_BUFFER <= self.ram().len(),
        ensures
            result@ == self.ram().subrange(nmi::BG_CHAR_HALF_BUFFER as int, self.ram().len() as int),
    {
        slice_subrange(self.ram, nmi::BG_CHAR_HALF_BUFFER, self.ram.len())
    }

    pub fn game_over_text_buffer(&self) -> (result: &[u8])
        requires
            nmi::GAME_OVER_TEXT_BUFFER <= self.ram().len(),
        ensures
            result@ == self.ram()
                .subrange(nmi::GAME_OVER_TEXT_BUFFER as int, self.ram().len() as int),
    {
        slice_subrange(self.ram, nmi::GAME_OVER_TEXT_BUFFER, self.ram.len())
    }

    pub fn game_over_text_tail_buffer(&self) -> (result: &[u8])
        requires
            nmi::GAME_OVER_TEXT_TAIL_BUFFER <= self.ram().len(),
        ensures
            result@ == self.ram()
                .subrange(
                    nmi::GAME_OVER_TEXT_TAIL_BUFFER as int,
                    self.ram().len() as int,
                ),
    {
        slice_subrange(self.ram, nmi::GAME_OVER_TEXT_TAIL_BUFFER, self.ram.len())
    }

    pub fn polyhedral_buffer(&self) -> (result: &[u8])
        requires
            POLYHEDRAL_BUFFER <= self.ram().len(),
        ensures
            result@ == self.ram().subrange(POLYHEDRAL_BUFFER as int, self.ram().len() as int),
    {
        slice_subrange(self.ram, POLYHEDRAL_BUFFER, self.ram.len())
    }

    pub fn arbitrary_tilemap_dst(&self, slot: usize) -> (result: u16)
        requires
            (nmi::ARBITRARY_TILEMAP_DST_BUFFER + (slot * 2)) + 1 <= usize::MAX,
        ensures
            result == access::word_at(self.ram(), nmi::ARBITRARY_TILEMAP_DST_BUFFER + (slot * 2)),
    {
        word(self.ram, nmi::ARBITRARY_TILEMAP_DST_BUFFER + slot * 2)
    }

    pub fn dungeon_bg2_attr_table(&self) -> (result: &[u8])
        requires
            DUNGEON_BG2_ATTR_TABLE <= self.ram().len(),
        ensures
            result@ == self.ram().subrange(DUNGEON_BG2_ATTR_TABLE as int, self.ram().len() as int),
    {
        slice_subrange(self.ram, DUNGEON_BG2_ATTR_TABLE, self.ram.len())
    }

    pub fn dungeon_bg1_attr_table(&self) -> (result: &[u8])
        requires
            DUNGEON_BG1_ATTR_TABLE <= self.ram().len(),
        ensures
            result@ == self.ram().subrange(DUNGEON_BG1_ATTR_TABLE as int, self.ram().len() as int),
    {
        slice_subrange(self.ram, DUNGEON_BG1_ATTR_TABLE, self.ram.len())
    }

    pub fn flag_travel_bird(&self) -> (result: bool)
        ensures
            result == (access::byte_at(self.ram(), FLAG_TRAVEL_BIRD as int) != 0),
    {
        byte(self.ram, FLAG_TRAVEL_BIRD) != 0
    }

    pub fn travel_bird_tile_offset(&self) -> (result: u8)
        ensures
            result == access::byte_at(self.ram(), FLAG_TRAVEL_BIRD as int),
    {
        byte(self.ram, FLAG_TRAVEL_BIRD)
    }

    pub fn w12sel_copy(&self) -> (result: u8)
        ensures
            result == access::byte_at(self.ram(), W12SEL_COPY as int),
    {
        byte(self.ram, W12SEL_COPY)
    }

    pub fn w34sel_copy(&self) -> (result: u8)
        ensures
            result == access::byte_at(self.ram(), W34SEL_COPY as int),
    {
        byte(self.ram, W34SEL_COPY)
    }

    pub fn wobjsel_copy(&self) -> (result: u8)
        ensures
            result == access::byte_at(self.ram(), WOBJSEL_COPY as int),
    {
        byte(self.ram, WOBJSEL_COPY)
    }

    pub fn tmw_copy(&self) -> (result: u8)
        ensures
            result == access::byte_at(self.ram(), TMW_COPY as int),
    {
        byte(self.ram, TMW_COPY)
    }

    pub fn tsw_copy(&self) -> (result: u8)
        ensures
            result == access::byte_at(self.ram(), TSW_COPY as int),
    {
        byte(self.ram, TSW_COPY)
    }

    pub fn word_at(&self, addr: usize) -> (result: u16)
        requires
            addr + 1 <= usize::MAX,
        ensures
            result == access::word_at(self.ram(), addr as int),
    {
        word(self.ram, addr)
    }

    pub fn ram_slice_at(&self, addr: usize, len: usize) -> (result: &[u8])
        requires
            addr + len <= usize::MAX,
        ensures
            result@ == self.ram()
                .subrange(
                    if addr <= self.ram().len() {
                        addr as int
                    } else {
                        self.ram().len() as int
                    },
                    if (addr + len) <= self.ram().len() {
                        addr + len
                    } else {
                        self.ram().len() as int
                    },
                ),
    {
        let start = if addr <= self.ram.len() { addr } else { self.ram.len() };
        let end = if (addr + len) <= self.ram.len() { (addr + len) } else { self.ram.len() };
        slice_subrange(self.ram, start, end)
    }
}

pub struct DisplayNmiViewMut<'a> {
    pub ram: &'a mut [u8],
}

impl<'a> DisplayNmiViewMut<'a> {
    /// The bytes of RAM this view reads and writes.
    pub open spec fn ram(&self) -> Seq<u8> {
        self.ram@
    }

    pub fn new(ram: &'a mut [u8]) -> (view: Self)
        ensures
            view.ram() == old(ram)@,
            final(view.ram)@ == final(ram)@,
    {
        Self { ram }
    }

    pub fn set_screen_brightness(&mut self, value: u8)
        requires
            INIDISP_COPY < old(self).ram().len(),
        ensures
            final(self).ram() == old(self).ram().update(INIDISP_COPY as int, value),
            final(final(self).ram)@ == final(old(self).ram)@,
    {
        self.ram[INIDISP_COPY] = value;
    }

    pub fn increment_screen_brightness(&mut self) -> (result: u8)
        requires
            INIDISP_COPY < old(self).ram().len(),
        ensures
            result == old(self).ram()[INIDISP_COPY as int].wrapping_add(1),
            final(self).ram() == old(self).ram().update(
                INIDISP_COPY as int,
                old(self).ram()[INIDISP_COPY as int].wrapping_add(1),
            ),
            final(final(self).ram)@ == final(old(self).ram)@,
    {
        self.ram[INIDISP_COPY] = self.ram[INIDISP_COPY].wrapping_add(1);
        self.ram[INIDISP_COPY]
    }

    pub fn decrement_screen_brightness(&mut self) -> (result: u8)
        requires
            INIDISP_COPY < old(self).ram().len(),
        ensures
            result == old(self).ram()[INIDISP_COPY as int].wrapping_sub(1),
            final(self).ram() == old(self).ram().update(
                INIDISP_COPY as int,
                old(self).ram()[INIDISP_COPY as int].wrapping_sub(1),
            ),
            final(final(self).ram)@ == final(old(self).ram)@,
    {
        self.ram[INIDISP_COPY] = self.ram[INIDISP_COPY].wrapping_sub(1);
        self.ram[INIDISP_COPY]
    }

    pub fn set_bg_vram_load_mode(&mut self, value: u8)
        requires
            NMI_LOAD_BG_FROM_VRAM < old(self).ram().len(),
        ensures
            final(self).ram() == old(self).ram().update(NMI_LOAD_BG_FROM_VRAM as int, value),
            final(final(self).ram)@ == final(old(self).ram)@,
    {
        self.ram[NMI_LOAD_BG_FROM_VRAM] = value;
    }

    pub fn clear_bg_vram_load_mode(&mut self)
        requires
            NMI_LOAD_BG_FROM_VRAM < old(self).ram().len(),
        ensures
            final(self).ram() == old(self).ram().update(NMI_LOAD_BG_FROM_VRAM as int, 0),
            final(final(self).ram)@ == final(old(self).ram)@,
    {
        self.set_bg_vram_load_mode(0);
    }

    pub fn set_core_update_disable_flag(&mut self, value: u8)
        requires
            NMI_DISABLE_CORE_UPDATES < old(self).ram().len(),
        ensures
            final(self).ram() == old(self).ram().update(NMI_DISABLE_CORE_UPDATES as int, value),
            final(final(self).ram)@ == final(old(self).ram)@,
    {
        self.ram[NMI_DISABLE_CORE_UPDATES] = value;
    }

    pub fn set_core_update_disable_flag_word(&mut self, value: u16)
        requires
            NMI_DISABLE_CORE_UPDATES + 1 < old(self).ram().len(),
        ensures
            final(self).ram() == types::with_u16(
                old(self).ram(),
                NMI_DISABLE_CORE_UPDATES as int,
                value,
            ),
            final(final(self).ram)@ == final(old(self).ram)@,
    {
        write_le_u16(self.ram, NMI_DISABLE_CORE_UPDATES, value);
    }

    pub fn clear_core_update_disable_flag(&mut self)
        requires
            NMI_DISABLE_CORE_UPDATES < old(self).ram().len(),
        ensures
            final(self).ram() == old(self).ram().update(NMI_DISABLE_CORE_UPDATES as int, 0),
            final(final(self).ram)@ == final(old(self).ram)@,
    {
        self.set_core_update_disable_flag(0);
    }

    pub fn increment_core_update_disable_flag(&mut self) -> (result: u8)
        requires
            NMI_DISABLE_CORE_UPDATES < old(self).ram().len(),
        ensures
            result == old(self).ram()[NMI_DISABLE_CORE_UPDATES as int].wrapping_add(1),
            final(self).ram() == old(self).ram().update(
                NMI_DISABLE_CORE_UPDATES as int,
                old(self).ram()[NMI_DISABLE_CORE_UPDATES as int].wrapping_add(1),
            ),
            final(final(self).ram)@ == final(old(self).ram)@,
    {
        self.ram[NMI_DISABLE_CORE_UPDATES] = self.ram[NMI_DISABLE_CORE_UPDATES].wrapping_add(1);
        self.ram[NMI_DISABLE_CORE_UPDATES]
    }

    pub fn set_subroutine_index(&mut self, value: u8)
        requires
            NMI_SUBROUTINE_INDEX < old(self).ram().len(),
        ensures
            final(self).ram() == old(self).ram().update(NMI_SUBROUTINE_INDEX as int, value),
            final(final(self).ram)@ == final(old(self).ram)@,
    {
        self.ram[NMI_SUBROUTINE_INDEX] = value;
    }

    pub fn clear_subroutine_index(&mut self)
        requires
            NMI_SUBROUTINE_INDEX < old(self).ram().len(),
        ensures
            final(self).ram() == old(self).ram().update(NMI_SUBROUTINE_INDEX as int, 0),
            final(final(self).ram)@ == final(old(self).ram)@,
    {
        self.set_subroutine_index(0);
    }

    pub fn take_subroutine_index(&mut self) -> (result: u8)
        requires
            NMI_SUBROUTINE_INDEX < old(self).ram().len(),
        ensures
            result == old(self).ram()[NMI_SUBROUTINE_INDEX as int],
            final(self).ram() == old(self).ram().update(NMI_SUBROUTINE_INDEX as int, 0u8),
            final(final(self).ram)@ == final(old(self).ram)@,
    {
        let subroutine_index = self.ram[NMI_SUBROUTINE_INDEX];
        self.ram[NMI_SUBROUTINE_INDEX] = 0;
        subroutine_index
    }

    pub fn set_load_target_addr(&mut self, value: u8)
        requires
            NMI_LOAD_TARGET_ADDR < old(self).ram().len(),
        ensures
            final(self).ram() == old(self).ram().update(NMI_LOAD_TARGET_ADDR as int, value),
            final(final(self).ram)@ == final(old(self).ram)@,
    {
        self.ram[NMI_LOAD_TARGET_ADDR] = value;
    }

    pub fn set_load_target_addr_word(&mut self, value: u16)
        requires
            NMI_LOAD_TARGET_ADDR + 1 < old(self).ram().len(),
        ensures
            final(self).ram() == types::with_u16(
                old(self).ram(),
                NMI_LOAD_TARGET_ADDR as int,
                value,
            ),
            final(final(self).ram)@ == final(old(self).ram)@,
    {
        write_le_u16(self.ram, NMI_LOAD_TARGET_ADDR, value);
    }

    pub fn set_main_screen_layers(&mut self, value: u8)
        requires
            TM_COPY < old(self).ram().len(),
        ensures
            final(self).ram() == old(self).ram().update(TM_COPY as int, value),
            final(final(self).ram)@ == final(old(self).ram)@,
    {
        self.ram[TM_COPY] = value;
    }

    pub fn and_main_screen_layers(&mut self, value: u8)
        requires
            TM_COPY < old(self).ram().len(),
        ensures
            final(self).ram() == old(self).ram().update(
                TM_COPY as int,
                old(self).ram()[TM_COPY as int] & value,
            ),
            final(final(self).ram)@ == final(old(self).ram)@,
    {
        self.ram[TM_COPY] &= value;
    }

    pub fn or_main_screen_layers(&mut self, value: u8)
        requires
            TM_COPY < old(self).ram().len(),
        ensures
            final(self).ram() == old(self).ram().update(
                TM_COPY as int,
                old(self).ram()[TM_COPY as int] | value,
            ),
            final(final(self).ram)@ == final(old(self).ram)@,
    {
        self.ram[TM_COPY] |= value;
    }

    pub fn set_sub_screen_layers(&mut self, value: u8)
        requires
            TS_COPY < old(self).ram().len(),
        ensures
            final(self).ram() == old(self).ram().update(TS_COPY as int, value),
            final(final(self).ram)@ == final(old(self).ram)@,
    {
        self.ram[TS_COPY] = value;
    }

    pub fn clear_sub_screen_layers_word(&mut self)
        requires
            TS_COPY + 1 < old(self).ram().len(),
        ensures
            final(self).ram() == types::with_u16(old(self).ram(), TS_COPY as int, 0u16),
            final(final(self).ram)@ == final(old(self).ram)@,
    {
        write_le_u16(self.ram, TS_COPY, 0);
    }

    pub fn and_sub_screen_layers(&mut self, value: u8)
        requires
            TS_COPY < old(self).ram().len(),
        ensures
            final(self).ram() == old(self).ram().update(
                TS_COPY as int,
                old(self).ram()[TS_COPY as int] & value,
            ),
            final(final(self).ram)@ == final(old(self).ram)@,
    {
        self.ram[TS_COPY] &= value;
    }

    pub fn or_sub_screen_layers(&mut self, value: u8)
        requires
            TS_COPY < old(self).ram().len(),
        ensures
            final(self).ram() == old(self).ram().update(
                TS_COPY as int,
                old(self).ram()[TS_COPY as int] | value,
            ),
            final(final(self).ram)@ == final(old(self).ram)@,
    {
        self.ram[TS_COPY] |= value;
    }

    pub fn set_layer_masks_word(&mut self, value: u16)
        requires
            TM_COPY + 1 < old(self).ram().len(),
        ensures
            final(self).ram() == types::with_u16(old(self).ram(), TM_COPY as int, value),
            final(final(self).ram)@ == final(old(self).ram)@,
    {
        write_le_u16(self.ram, TM_COPY, value);
    }

    pub fn set_bg_mode(&mut self, value: u8)
        requires
            BGMODE_COPY < old(self).ram().len(),
        ensures
            final(self).ram() == old(self).ram().update(BGMODE_COPY as int, value),
            final(final(self).ram)@ == final(old(self).ram)@,
    {
        self.ram[BGMODE_COPY] = value;
    }

    pub fn set_mosaic_copy(&mut self, value: u8)
        requires
            MOSAIC_COPY < old(self).ram().len(),
        ensures
            final(self).ram() == old(self).ram().update(MOSAIC_COPY as int, value),
            final(final(self).ram)@ == final(old(self).ram)@,
    {
        self.ram[MOSAIC_COPY] = value;
    }

    pub fn set_mosaic_copy_from_level_or(&mut self, mask: u8)
        requires
            MOSAIC_COPY < old(self).ram().len(),
            MOSAIC_LEVEL < old(self).ram().len(),
        ensures
            final(self).ram() == old(self).ram().update(
                MOSAIC_COPY as int,
                old(self).ram()[MOSAIC_LEVEL as int] | mask,
            ),
            final(final(self).ram)@ == final(old(self).ram)@,
    {
        self.ram[MOSAIC_COPY] = self.ram[MOSAIC_LEVEL] | mask;
    }

    pub fn set_hdma_enable_mask(&mut self, value: u8)
        requires
            HDMAEN_COPY < old(self).ram().len(),
        ensures
            final(self).ram() == old(self).ram().update(HDMAEN_COPY as int, value),
            final(final(self).ram)@ == final(old(self).ram)@,
    {
        self.ram[HDMAEN_COPY] = value;
    }

    pub fn clear_hdma_enable_mask(&mut self)
        requires
            HDMAEN_COPY < old(self).ram().len(),
        ensures
            final(self).ram() == old(self).ram().update(HDMAEN_COPY as int, 0u8),
            final(final(self).ram)@ == final(old(self).ram)@,
    {
        self.ram[HDMAEN_COPY] = 0;
    }

    pub fn set_mosaic_level(&mut self, value: u8)
        requires
            MOSAIC_LEVEL < old(self).ram().len(),
        ensures
            final(self).ram() == old(self).ram().update(MOSAIC_LEVEL as int, value),
            final(final(self).ram)@ == final(old(self).ram)@,
    {
        self.ram[MOSAIC_LEVEL] = value;
    }

    pub fn clear_mosaic_level(&mut self)
        requires
            MOSAIC_LEVEL < old(self).ram().len(),
        ensures
            final(self).ram() == old(self).ram().update(MOSAIC_LEVEL as int, 0u8),
            final(final(self).ram)@ == final(old(self).ram)@,
    {
        self.ram[MOSAIC_LEVEL] = 0;
    }

    pub fn clear_mosaic_level_word(&mut self)
        requires
            MOSAIC_LEVEL + 1 < old(self).ram().len(),
        ensures
            final(self).ram() == types::with_u16(old(self).ram(), MOSAIC_LEVEL as int, 0u16),
            final(final(self).ram)@ == final(old(self).ram)@,
    {
        write_le_u16(self.ram, MOSAIC_LEVEL, 0);
    }

    pub fn set_mosaic_target_level(&mut self, value: u8)
        requires
            MOSAIC_TARGET_LEVEL < old(self).ram().len(),
        ensures
            final(self).ram() == old(self).ram().update(MOSAIC_TARGET_LEVEL as int, value),
            final(final(self).ram)@ == final(old(self).ram)@,
    {
        self.ram[MOSAIC_TARGET_LEVEL] = value;
    }

    pub fn set_mosaic_target_level_word(&mut self, value: u16)
        requires
            MOSAIC_TARGET_LEVEL + 1 < old(self).ram().len(),
        ensures
            final(self).ram() == types::with_u16(old(self).ram(), MOSAIC_TARGET_LEVEL as int, value),
            final(final(self).ram)@ == final(old(self).ram)@,
    {
        write_le_u16(self.ram, MOSAIC_TARGET_LEVEL, value);
    }

    pub fn clear_mosaic_target_level(&mut self)
        requires
            MOSAIC_TARGET_LEVEL < old(self).ram().len(),
        ensures
            final(self).ram() == old(self).ram().update(MOSAIC_TARGET_LEVEL as int, 0u8),
            final(final(self).ram)@ == final(old(self).ram)@,
    {
        self.ram[MOSAIC_TARGET_LEVEL] = 0;
    }

    pub fn clear_mosaic_target_level_word(&mut self)
        requires
            MOSAIC_TARGET_LEVEL + 1 < old(self).ram().len(),
        ensures
            final(self).ram() == types::with_u16(old(self).ram(), MOSAIC_TARGET_LEVEL as int, 0u16),
            final(final(self).ram)@ == final(old(self).ram)@,
    {
        write_le_u16(self.ram, MOSAIC_TARGET_LEVEL, 0);
    }

    pub fn set_nmi_copy_packets_flag(&mut self, value: u8)
        requires
            NMI_COPY_PACKETS_FLAG < old(self).ram().len(),
        ensures
            final(self).ram() == old(self).ram().update(NMI_COPY_PACKETS_FLAG as int, value),
            final(final(self).ram)@ == final(old(self).ram)@,
    {
        self.ram[NMI_COPY_PACKETS_FLAG] = value;
    }

    pub fn request_nmi_copy_packets(&mut self)
        requires
            NMI_COPY_PACKETS_FLAG < old(self).ram().len(),
        ensures
            final(self).ram() == old(self).ram().update(NMI_COPY_PACKETS_FLAG as int, 1u8),
            final(final(self).ram)@ == final(old(self).ram)@,
    {
        self.ram[NMI_COPY_PACKETS_FLAG] = 1;
    }

    pub fn clear_nmi_copy_packets_flag(&mut self)
        requires
            NMI_COPY_PACKETS_FLAG < old(self).ram().len(),
        ensures
            final(self).ram() == old(self).ram().update(NMI_COPY_PACKETS_FLAG as int, 0u8),
            final(final(self).ram)@ == final(old(self).ram)@,
    {
        self.ram[NMI_COPY_PACKETS_FLAG] = 0;
    }

    pub fn set_chr_halfslot_state(&mut self, value: u8)
        requires
            LOAD_CHR_HALFSLOT_EVEN_ODD < old(self).ram().len(),
        ensures
            final(self).ram() == old(self).ram().update(LOAD_CHR_HALFSLOT_EVEN_ODD as int, value),
            final(final(self).ram)@ == final(old(self).ram)@,
    {
        self.ram[LOAD_CHR_HALFSLOT_EVEN_ODD] = value;
    }

    pub fn clear_chr_halfslot_state(&mut self)
        requires
            LOAD_CHR_HALFSLOT_EVEN_ODD < old(self).ram().len(),
        ensures
            final(self).ram() == old(self).ram().update(LOAD_CHR_HALFSLOT_EVEN_ODD as int, 0u8),
            final(final(self).ram)@ == final(old(self).ram)@,
    {
        self.ram[LOAD_CHR_HALFSLOT_EVEN_ODD] = 0;
    }

    pub fn set_nmi_boolean(&mut self, value: u8)
        requires
            NMI_BOOLEAN < old(self).ram().len(),
        ensures
            final(self).ram() == old(self).ram().update(NMI_BOOLEAN as int, value),
            final(final(self).ram)@ == final(old(self).ram)@,
    {
        self.ram[NMI_BOOLEAN] = value;
    }

    pub fn set_nmi_flag_update_polyhedral(&mut self, value: u8)
        requires
            NMI_FLAG_UPDATE_POLYHEDRAL < old(self).ram().len(),
        ensures
            final(self).ram() == old(self).ram().update(NMI_FLAG_UPDATE_POLYHEDRAL as int, value),
            final(final(self).ram)@ == final(old(self).ram)@,
    {
        self.ram[NMI_FLAG_UPDATE_POLYHEDRAL] = value;
    }

    pub fn clear_nmi_flag_update_polyhedral(&mut self)
        requires
            NMI_FLAG_UPDATE_POLYHEDRAL < old(self).ram().len(),
        ensures
            final(self).ram() == old(self).ram().update(NMI_FLAG_UPDATE_POLYHEDRAL as int, 0u8),
            final(final(self).ram)@ == final(old(self).ram)@,
    {
        self.ram[NMI_FLAG_UPDATE_POLYHEDRAL] = 0;
    }

    pub fn set_thread_other_stack(&mut self, value: u16)
        requires
            POLY_THREAD_STACK + 1 < old(self).ram().len(),
        ensures
            final(self).ram() == types::with_u16(old(self).ram(), POLY_THREAD_STACK as int, value),
            final(final(self).ram)@ == final(old(self).ram)@,
    {
        write_le_u16(self.ram, POLY_THREAD_STACK, value);
    }

    pub fn clear_update_tilemap_dst(&mut self)
        requires
            NMI_UPDATE_TILEMAP_DST < old(self).ram().len(),
        ensures
            final(self).ram() == old(self).ram().update(NMI_UPDATE_TILEMAP_DST as int, 0u8),
            final(final(self).ram)@ == final(old(self).ram)@,
    {
        self.ram[NMI_UPDATE_TILEMAP_DST] = 0;
    }

    pub fn increment_chr_halfslot_state(&mut self) -> (result: u8)
        requires
            LOAD_CHR_HALFSLOT_EVEN_ODD < old(self).ram().len(),
        ensures
            result == old(self).ram()[LOAD_CHR_HALFSLOT_EVEN_ODD as int].wrapping_add(1),
            final(self).ram() == old(self).ram().update(
                LOAD_CHR_HALFSLOT_EVEN_ODD as int,
                old(self).ram()[LOAD_CHR_HALFSLOT_EVEN_ODD as int].wrapping_add(1),
            ),
            final(final(self).ram)@ == final(old(self).ram)@,
    {
        self.ram[LOAD_CHR_HALFSLOT_EVEN_ODD] = self.ram[LOAD_CHR_HALFSLOT_EVEN_ODD].wrapping_add(1);
        self.ram[LOAD_CHR_HALFSLOT_EVEN_ODD]
    }

    pub fn increment_mosaic_level_by(&mut self, value: u8) -> (result: u8)
        requires
            MOSAIC_LEVEL < old(self).ram().len(),
        ensures
            result == old(self).ram()[MOSAIC_LEVEL as int].wrapping_add(value),
            final(self).ram() == old(self).ram().update(
                MOSAIC_LEVEL as int,
                old(self).ram()[MOSAIC_LEVEL as int].wrapping_add(value),
            ),
            final(final(self).ram)@ == final(old(self).ram)@,
    {
        self.ram[MOSAIC_LEVEL] = self.ram[MOSAIC_LEVEL].wrapping_add(value);
        self.ram[MOSAIC_LEVEL]
    }

    pub fn decrement_mosaic_level_by(&mut self, value: u8) -> (result: u8)
        requires
            MOSAIC_LEVEL < old(self).ram().len(),
        ensures
            result == old(self).ram()[MOSAIC_LEVEL as int].wrapping_sub(value),
            final(self).ram() == old(self).ram().update(
                MOSAIC_LEVEL as int,
                old(self).ram()[MOSAIC_LEVEL as int].wrapping_sub(value),
            ),
            final(final(self).ram)@ == final(old(self).ram)@,
    {
        self.ram[MOSAIC_LEVEL] = self.ram[MOSAIC_LEVEL].wrapping_sub(value);
        self.ram[MOSAIC_LEVEL]
    }

    pub fn set_overworld_fixed_color_plusminus(&mut self, value: u8)
        requires
            OVERWORLD_FIXED_COLOR_PLUSMINUS < old(self).ram().len(),
        ensures
            final(self).ram() == old(self).ram().update(
                OVERWORLD_FIXED_COLOR_PLUSMINUS as int,
                value,
            ),
            final(final(self).ram)@ == final(old(self).ram)@,
    {
        self.ram[OVERWORLD_FIXED_COLOR_PLUSMINUS] = value;
    }

    pub fn set_virq_trigger(&mut self, value: u8)
        requires
            VIRQ_TRIGGER < old(self).ram().len(),
        ensures
            final(self).ram() == old(self).ram().update(VIRQ_TRIGGER as int, value),
            final(final(self).ram)@ == final(old(self).ram)@,
    {
        self.ram[VIRQ_TRIGGER] = value;
    }

    pub fn set_dma_head_pointer(&mut self, value: u8)
        requires
            DMA_HEAD_POINTER < old(self).ram().len(),
        ensures
            final(self).ram() == old(self).ram().update(DMA_HEAD_POINTER as int, value),
            final(final(self).ram)@ == final(old(self).ram)@,
    {
        self.ram[DMA_HEAD_POINTER] = value;
    }

    pub fn set_dma_body_pointer(&mut self, value: u8)
        requires
            DMA_BODY_POINTER < old(self).ram().len(),
        ensures
            final(self).ram() == old(self).ram().update(DMA_BODY_POINTER as int, value),
            final(final(self).ram)@ == final(old(self).ram)@,
    {
        self.ram[DMA_BODY_POINTER] = value;
    }

    pub fn set_nmi_thread_active(&mut self, value: u8)
        requires
            NMI_THREAD_ACTIVE < old(self).ram().len(),
        ensures
            final(self).ram() == old(self).ram().update(NMI_THREAD_ACTIVE as int, value),
            final(final(self).ram)@ == final(old(self).ram)@,
    {
        self.ram[NMI_THREAD_ACTIVE] = value;
    }

    pub fn set_irq_flag(&mut self, value: u8)
        requires
            IRQ_FLAG < old(self).ram().len(),
        ensures
            final(self).ram() == old(self).ram().update(IRQ_FLAG as int, value),
            final(final(self).ram)@ == final(old(self).ram)@,
    {
        self.ram[IRQ_FLAG] = value;
    }

    pub fn set_w12sel_copy(&mut self, value: u8)
        requires
            W12SEL_COPY < old(self).ram().len(),
        ensures
            final(self).ram() == old(self).ram().update(W12SEL_COPY as int, value),
            final(final(self).ram)@ == final(old(self).ram)@,
    {
        self.ram[W12SEL_COPY] = value;
    }

    pub fn set_w34sel_copy(&mut self, value: u8)
        requires
            W34SEL_COPY < old(self).ram().len(),
        ensures
            final(self).ram() == old(self).ram().update(W34SEL_COPY as int, value),
            final(final(self).ram)@ == final(old(self).ram)@,
    {
        self.ram[W34SEL_COPY] = value;
    }

    pub fn set_wobjsel_copy(&mut self, value: u8)
        requires
            WOBJSEL_COPY < old(self).ram().len(),
        ensures
            final(self).ram() == old(self).ram().update(WOBJSEL_COPY as int, value),
            final(final(self).ram)@ == final(old(self).ram)@,
    {
        self.ram[WOBJSEL_COPY] = value;
    }

    pub fn set_tmw_copy(&mut self, value: u8)
        requires
            TMW_COPY < old(self).ram().len(),
        ensures
            final(self).ram() == old(self).ram().update(TMW_COPY as int, value),
            final(final(self).ram)@ == final(old(self).ram)@,
    {
        self.ram[TMW_COPY] = value;
    }

    pub fn set_tsw_copy(&mut self, value: u8)
        requires
            TSW_COPY < old(self).ram().len(),
        ensures
            final(self).ram() == old(self).ram().update(TSW_COPY as int, value),
            final(final(self).ram)@ == final(old(self).ram)@,
    {
        self.ram[TSW_COPY] = value;
    }
}

} // verus!
