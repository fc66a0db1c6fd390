use vstd::prelude::*;
use super::access;
use super::access::{byte, fill_bytes};
use super::addresses::{
    ALT_SPRITES_FLAG, ALT_SPRITE_SPAWNED_FLAG, AUX_TILE_THEME_INDEX, BLIND_HEAD_ANIM_COUNTER,
    CUR_OBJECT_INDEX, MAIN_TILE_THEME_INDEX, MISC_SPRITES_GRAPHICS_INDEX, SPRITE_ALERT_FLAG,
    SPRITE_CHR_HALFSLOT_STATE, SPRITE_GRAPHICS_INDEX, SPRITE_GRAPHICS_INDEX_EXIT,
    SPRITE_GRAPHICS_INDEX_SPEXIT, SPRITE_LIMIT_INSTANCE, SPRITE_STATE, SPRITE_Y_LO,
    SPR_RANGED_BASED_TOGGLER,
};

verus! {

pub struct SpriteSystemView<'a> {
    ram: &'a [u8],
}

impl<'a> SpriteSystemView<'a> {
    /// The bytes of RAM this view reads and writes.
    pub closed spec fn ram(&self) -> Seq<u8> {
        self.ram@
    }

    pub fn new(ram: &'a [u8]) -> (view: Self)
        ensures
            view.ram() == ram@,
    {
        Self { ram }
    }

    pub fn limit_instance(&self) -> (result: u8)
        ensures
            result == access::byte_at(self.ram(), SPRITE_LIMIT_INSTANCE as int),
    {
        byte(self.ram, SPRITE_LIMIT_INSTANCE)
    }

    /// Animation counter shared by Blind's head and the tutorial guards.
    pub fn blind_head_anim_counter(&self) -> (result: u8)
        ensures
            result == access::byte_at(self.ram(), BLIND_HEAD_ANIM_COUNTER as int),
    {
        byte(self.ram, BLIND_HEAD_ANIM_COUNTER)
    }

    pub fn chr_halfslot_state(&self) -> (result: u8)
        ensures
            result == access::byte_at(self.ram(), SPRITE_CHR_HALFSLOT_STATE as int),
    {
        byte(self.ram, SPRITE_CHR_HALFSLOT_STATE)
    }

    pub fn alert_flag(&self) -> (result: u8)
        ensures
            result == access::byte_at(self.ram(), SPRITE_ALERT_FLAG as int),
    {
        byte(self.ram, SPRITE_ALERT_FLAG)
    }

    pub fn graphics_index(&self) -> (result: u8)
        ensures
            result == access::byte_at(self.ram(), SPRITE_GRAPHICS_INDEX as int),
    {
        byte(self.ram, SPRITE_GRAPHICS_INDEX)
    }

    pub fn saved_special_exit_graphics_index(&self) -> (result: u8)
        ensures
            result == access::byte_at(self.ram(), SPRITE_GRAPHICS_INDEX_SPEXIT as int),
    {
        byte(self.ram, SPRITE_GRAPHICS_INDEX_SPEXIT)
    }

    pub fn saved_exit_graphics_index(&self) -> (result: u8)
        ensures
            result == access::byte_at(self.ram(), SPRITE_GRAPHICS_INDEX_EXIT as int),
    {
        byte(self.ram, SPRITE_GRAPHICS_INDEX_EXIT)
    }

    pub fn alt_sprite_spawned_flag(&self) -> (result: u8)
        ensures
            result == access::byte_at(self.ram(), ALT_SPRITE_SPAWNED_FLAG as int),
    {
        byte(self.ram, ALT_SPRITE_SPAWNED_FLAG)
    }

    pub fn cur_object_index(&self) -> (result: u8)
        ensures
            result == access::byte_at(self.ram(), CUR_OBJECT_INDEX as int),
    {
        byte(self.ram, CUR_OBJECT_INDEX)
    }

    pub fn alt_sprites_flag(&self) -> (result: u8)
        ensures
            result == access::byte_at(self.ram(), ALT_SPRITES_FLAG as int),
    {
        byte(self.ram, ALT_SPRITES_FLAG)
    }

    pub fn ranged_based_toggler(&self) -> (result: u8)
        ensures
            result == access::byte_at(self.ram(), SPR_RANGED_BASED_TOGGLER as int),
    {
        byte(self.ram, SPR_RANGED_BASED_TOGGLER)
    }

    pub fn main_tile_theme(&self) -> (result: u8)
        ensures
            result == access::byte_at(self.ram(), MAIN_TILE_THEME_INDEX as int),
    {
        byte(self.ram, MAIN_TILE_THEME_INDEX)
    }
}

pub struct SpriteSystemViewMut<'a> {
    pub ram: &'a mut [u8],
}

impl<'a> SpriteSystemViewMut<'a> {
    /// The bytes of RAM this view reads and writes.
    pub open spec fn ram(&self) -> Seq<u8> {
        self.ram@
    }

    pub fn new(ram: &'a mut [u8]) -> (view: Self)
        ensures
            view.ram() == old(ram)@,
            final(view.ram)@ == final(ram)@,
    {
        Self { ram }
    }

    pub fn set_limit_instance(&mut self, value: u8)
        requires
            SPRITE_LIMIT_INSTANCE < old(self).ram().len(),
        ensures
            final(self).ram() == old(self).ram().update(SPRITE_LIMIT_INSTANCE as int, value),
            final(final(self).ram)@ == final(old(self).ram)@,
    {
        self.ram[SPRITE_LIMIT_INSTANCE] = value;
    }

    pub fn set_blind_head_anim_counter(&mut self, value: u8)
        requires
            BLIND_HEAD_ANIM_COUNTER < old(self).ram().len(),
        ensures
            final(self).ram() == old(self).ram().update(BLIND_HEAD_ANIM_COUNTER as int, value),
            final(final(self).ram)@ == final(old(self).ram)@,
    {
        self.ram[BLIND_HEAD_ANIM_COUNTER] = value;
    }

    pub fn increment_blind_head_anim_counter(&mut self)
        requires
            BLIND_HEAD_ANIM_COUNTER < old(self).ram().len(),
        ensures
            final(self).ram() == old(self).ram().update(
                BLIND_HEAD_ANIM_COUNTER as int,
                old(self).ram()[BLIND_HEAD_ANIM_COUNTER as int].wrapping_add(1),
            ),
            final(final(self).ram)@ == final(old(self).ram)@,
    {
        self.ram[BLIND_HEAD_ANIM_COUNTER] = self.ram[BLIND_HEAD_ANIM_COUNTER].wrapping_add(1);
    }

    pub fn increment_limit_instance(&mut self) -> (result: u8)
        requires
            SPRITE_LIMIT_INSTANCE < old(self).ram().len(),
        ensures
            result == old(self).ram()[SPRITE_LIMIT_INSTANCE as int].wrapping_add(1),
            final(self).ram() == old(self).ram().update(
                SPRITE_LIMIT_INSTANCE as int,
                old(self).ram()[SPRITE_LIMIT_INSTANCE as int].wrapping_add(1),
            ),
            final(final(self).ram)@ == final(old(self).ram)@,
    {
        self.ram[SPRITE_LIMIT_INSTANCE] = self.ram[SPRITE_LIMIT_INSTANCE].wrapping_add(1);
        self.ram[SPRITE_LIMIT_INSTANCE]
    }

    pub fn decrement_limit_instance(&mut self) -> (result: u8)
        requires
            SPRITE_LIMIT_INSTANCE < old(self).ram().len(),
        ensures
            result == old(self).ram()[SPRITE_LIMIT_INSTANCE as int].wrapping_sub(1),
            final(self).ram() == old(self).ram().update(
                SPRITE_LIMIT_INSTANCE as int,
                old(self).ram()[SPRITE_LIMIT_INSTANCE as int].wrapping_sub(1),
            ),
            final(final(self).ram)@ == final(old(self).ram)@,
    {
        self.ram[SPRITE_LIMIT_INSTANCE] = self.ram[SPRITE_LIMIT_INSTANCE].wrapping_sub(1);
        self.ram[SPRITE_LIMIT_INSTANCE]
    }

    pub fn set_chr_halfslot_state(&mut self, value: u8)
        requires
            SPRITE_CHR_HALFSLOT_STATE < old(self).ram().len(),
        ensures
            final(self).ram() == old(self).ram().update(SPRITE_CHR_HALFSLOT_STATE as int, value),
            final(final(self).ram)@ == final(old(self).ram)@,
    {
        self.ram[SPRITE_CHR_HALFSLOT_STATE] = value;
    }

    pub fn set_alert_flag(&mut self, value: u8)
        requires
            SPRITE_ALERT_FLAG < old(self).ram().len(),
        ensures
            final(self).ram() == old(self).ram().update(SPRITE_ALERT_FLAG as int, value),
            final(final(self).ram)@ == final(old(self).ram)@,
    {
        self.ram[SPRITE_ALERT_FLAG] = value;
    }

    pub fn decrement_alert_flag(&mut self) -> (result: u8)
        requires
            SPRITE_ALERT_FLAG < old(self).ram().len(),
        ensures
            result == old(self).ram()[SPRITE_ALERT_FLAG as int].wrapping_sub(1),
            final(self).ram() == old(self).ram().update(
                SPRITE_ALERT_FLAG as int,
                old(self).ram()[SPRITE_ALERT_FLAG as int].wrapping_sub(1),
            ),
            final(final(self).ram)@ == final(old(self).ram)@,
    {
        self.ram[SPRITE_ALERT_FLAG] = self.ram[SPRITE_ALERT_FLAG].wrapping_sub(1);
        self.ram[SPRITE_ALERT_FLAG]
    }

    pub fn set_graphics_index(&mut self, value: u8)
        requires
            SPRITE_GRAPHICS_INDEX < old(self).ram().len(),
        ensures
            final(self).ram() == old(self).ram().update(SPRITE_GRAPHICS_INDEX as int, value),
            final(final(self).ram)@ == final(old(self).ram)@,
    {
        self.ram[SPRITE_GRAPHICS_INDEX] = value;
    }

    pub fn save_special_exit_graphics_index(&mut self)
        requires
            SPRITE_GRAPHICS_INDEX_SPEXIT < old(self).ram().len(),
            SPRITE_GRAPHICS_INDEX < old(self).ram().len(),
        ensures
            final(self).ram() == old(self).ram().update(
                SPRITE_GRAPHICS_INDEX_SPEXIT as int,
                old(self).ram()[SPRITE_GRAPHICS_INDEX as int],
            ),
            final(final(self).ram)@ == final(old(self).ram)@,
    {
        self.ram[SPRITE_GRAPHICS_INDEX_SPEXIT] = self.ram[SPRITE_GRAPHICS_INDEX];
    }

    pub fn restore_special_exit_graphics_index(&mut self)
        requires
            SPRITE_GRAPHICS_INDEX < old(self).ram().len(),
            SPRITE_GRAPHICS_INDEX_SPEXIT < old(self).ram().len(),
        ensures
            final(self).ram() == old(self).ram().update(
                SPRITE_GRAPHICS_INDEX as int,
                old(self).ram()[SPRITE_GRAPHICS_INDEX_SPEXIT as int],
            ),
            final(final(self).ram)@ == final(old(self).ram)@,
    {
        self.ram[SPRITE_GRAPHICS_INDEX] = self.ram[SPRITE_GRAPHICS_INDEX_SPEXIT];
    }

    pub fn restore_exit_graphics_index(&mut self)
        requires
            SPRITE_GRAPHICS_INDEX < old(self).ram().len(),
            SPRITE_GRAPHICS_INDEX_EXIT < old(self).ram().len(),
        ensures
            final(self).ram() == old(self).ram().update(
                SPRITE_GRAPHICS_INDEX as int,
                old(self).ram()[SPRITE_GRAPHICS_INDEX_EXIT as int],
            ),
            final(final(self).ram)@ == final(old(self).ram)@,
    {
        self.ram[SPRITE_GRAPHICS_INDEX] = self.ram[SPRITE_GRAPHICS_INDEX_EXIT];
    }

    pub fn fill_live_states(&mut self, value: u8)
        requires
            SPRITE_STATE + 16 <= old(self).ram().len(),
        ensures
            final(self).ram() == access::filled(
                old(self).ram(),
                SPRITE_STATE as int,
                SPRITE_STATE + 16,
                value,
            ),
            final(final(self).ram)@ == final(old(self).ram)@,
    {
        fill_bytes(self.ram, SPRITE_STATE, SPRITE_STATE + 16, value);
    }

    pub fn clear_live_table_pages(&mut self)
        requires
            SPRITE_Y_LO + (256 * 3) <= old(self).ram().len(),
        ensures
            final(self).ram() == access::filled(
                old(self).ram(),
                SPRITE_Y_LO as int,
                SPRITE_Y_LO + (256 * 3),
                0u8,
            ),
            final(final(self).ram)@ == final(old(self).ram)@,
    {
        fill_bytes(self.ram, SPRITE_Y_LO, SPRITE_Y_LO + 256 * 3, 0);
    }

    pub fn set_alt_sprite_spawned_flag(&mut self, value: u8)
        requires
            ALT_SPRITE_SPAWNED_FLAG < old(self).ram().len(),
        ensures
            final(self).ram() == old(self).ram().update(ALT_SPRITE_SPAWNED_FLAG as int, value),
            final(final(self).ram)@ == final(old(self).ram)@,
    {
        self.ram[ALT_SPRITE_SPAWNED_FLAG] = value;
    }

    pub fn set_main_tile_theme(&mut self, value: u8)
        requires
            MAIN_TILE_THEME_INDEX < old(self).ram().len(),
        ensures
            final(self).ram() == old(self).ram().update(MAIN_TILE_THEME_INDEX as int, value),
            final(final(self).ram)@ == final(old(self).ram)@,
    {
        self.ram[MAIN_TILE_THEME_INDEX] = value;
    }

    pub fn set_aux_tile_theme(&mut self, value: u8)
        requires
            AUX_TILE_THEME_INDEX < old(self).ram().len(),
        ensures
            final(self).ram() == old(self).ram().update(AUX_TILE_THEME_INDEX as int, value),
            final(final(self).ram)@ == final(old(self).ram)@,
    {
        self.ram[AUX_TILE_THEME_INDEX] = value;
    }

    pub fn set_misc_sprites_graphics_index(&mut self, value: u8)
        requires
            MISC_SPRITES_GRAPHICS_INDEX < old(self).ram().len(),
        ensures
            final(self).ram() == old(self).ram().update(MISC_SPRITES_GRAPHICS_INDEX as int, value),
            final(final(self).ram)@ == final(old(self).ram)@,
    {
        self.ram[MISC_SPRITES_GRAPHICS_INDEX] = value;
    }

    pub fn set_cur_object_index(&mut self, value: u8)
        requires
            CUR_OBJECT_INDEX < old(self).ram().len(),
        ensures
            final(self).ram() == old(self).ram().update(CUR_OBJECT_INDEX as int, value),
            final(final(self).ram)@ == final(old(self).ram)@,
    {
        self.ram[CUR_OBJECT_INDEX] = value;
    }

    pub fn set_alt_sprites_flag(&mut self, value: u8)
        requires
            ALT_SPRITES_FLAG < old(self).ram().len(),
        ensures
            final(self).ram() == old(self).ram().update(ALT_SPRITES_FLAG as int, value),
            final(final(self).ram)@ == final(old(self).ram)@,
    {
        self.ram[ALT_SPRITES_FLAG] = value;
    }

    pub fn clear_alt_sprites_flag(&mut self)
        requires
            ALT_SPRITES_FLAG < old(self).ram().len(),
        ensures
            final(self).ram() == old(self).ram().update(ALT_SPRITES_FLAG as int, 0u8),
            final(final(self).ram)@ == final(old(self).ram)@,
    {
        self.ram[ALT_SPRITES_FLAG] = 0;
    }

    pub fn increment_ranged_based_toggler(&mut self)
        requires
            SPR_RANGED_BASED_TOGGLER < old(self).ram().len(),
        ensures
            final(self).ram() == old(self).ram().update(
                SPR_RANGED_BASED_TOGGLER as int,
                old(self).ram()[SPR_RANGED_BASED_TOGGLER as int].wrapping_add(1),
            ),
            final(final(self).ram)@ == final(old(self).ram)@,
    {
        self.ram[SPR_RANGED_BASED_TOGGLER] = self.ram[SPR_RANGED_BASED_TOGGLER].wrapping_add(1);
    }
}

} // verus!
