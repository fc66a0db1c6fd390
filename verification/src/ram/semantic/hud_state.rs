use vstd::prelude::*;
use super::access;
use super::access::{byte};
use super::addresses::{
    BOTTLE_MENU_ROW, EQUIPMENT_MENU_EXIT_STATE, FLASHING_CIRCLE_TIMER,
    HDR_DUNGEON_DARK_WITH_LANTERN, HEART_REFILL_ANIM_SUBPOS, HEART_REFILL_COUNTDOWN,
    HUD_FLOOR_CHANGED_TIMER, HUD_MODULE_TICK_COUNTER, IS_DOING_HEART_ANIMATION, MENU_PREV_JOYPAD_H,
    RUPEE_SFX_SOUND_DELAY, SUPER_BOMB_INDICATOR_COUNTER, SUPER_BOMB_INDICATOR_TIMER,
};
use crate::types;
use crate::types::{write_le_u16};

verus! {

pub struct HudStateView<'a> {
    ram: &'a [u8],
}

impl<'a> HudStateView<'a> {
    /// The bytes of RAM this view reads and writes.
    pub closed spec fn ram(&self) -> Seq<u8> {
        self.ram@
    }

    pub fn new(ram: &'a [u8]) -> (view: Self)
        ensures
            view.ram() == ram@,
    {
        Self { ram }
    }

    pub fn floor_changed_timer_low(&self) -> (result: u8)
        ensures
            result == access::byte_at(self.ram(), HUD_FLOOR_CHANGED_TIMER as int),
    {
        byte(self.ram, HUD_FLOOR_CHANGED_TIMER)
    }

    pub fn super_bomb_indicator_timer(&self) -> (result: u8)
        ensures
            result == access::byte_at(self.ram(), SUPER_BOMB_INDICATOR_TIMER as int),
    {
        byte(self.ram, SUPER_BOMB_INDICATOR_TIMER)
    }

    pub fn super_bomb_indicator_counter(&self) -> (result: u8)
        ensures
            result == access::byte_at(self.ram(), SUPER_BOMB_INDICATOR_COUNTER as int),
    {
        byte(self.ram, SUPER_BOMB_INDICATOR_COUNTER)
    }

    pub fn rupee_sfx_sound_delay(&self) -> (result: u8)
        ensures
            result == access::byte_at(self.ram(), RUPEE_SFX_SOUND_DELAY as int),
    {
        byte(self.ram, RUPEE_SFX_SOUND_DELAY)
    }

    pub fn is_doing_heart_animation(&self) -> (result: bool)
        ensures
            result == (access::byte_at(self.ram(), IS_DOING_HEART_ANIMATION as int) != 0),
    {
        byte(self.ram, IS_DOING_HEART_ANIMATION) != 0
    }

    pub fn is_doing_heart_animation_raw(&self) -> (result: u8)
        ensures
            result == access::byte_at(self.ram(), IS_DOING_HEART_ANIMATION as int),
    {
        byte(self.ram, IS_DOING_HEART_ANIMATION)
    }

    pub fn heart_refill_countdown(&self) -> (result: u8)
        ensures
            result == access::byte_at(self.ram(), HEART_REFILL_COUNTDOWN as int),
    {
        byte(self.ram, HEART_REFILL_COUNTDOWN)
    }

    pub fn heart_refill_anim_subpos(&self) -> (result: u8)
        ensures
            result == access::byte_at(self.ram(), HEART_REFILL_ANIM_SUBPOS as int),
    {
        byte(self.ram, HEART_REFILL_ANIM_SUBPOS)
    }

    pub fn flashing_circle_timer(&self) -> (result: u8)
        ensures
            result == access::byte_at(self.ram(), FLASHING_CIRCLE_TIMER as int),
    {
        byte(self.ram, FLASHING_CIRCLE_TIMER)
    }

    pub fn prev_joypad_h(&self) -> (result: u8)
        ensures
            result == access::byte_at(self.ram(), MENU_PREV_JOYPAD_H as int),
    {
        byte(self.ram, MENU_PREV_JOYPAD_H)
    }

    pub fn equipment_menu_exit_state(&self) -> (result: u8)
        ensures
            result == access::byte_at(self.ram(), EQUIPMENT_MENU_EXIT_STATE as int),
    {
        byte(self.ram, EQUIPMENT_MENU_EXIT_STATE)
    }

    pub fn bottle_menu_row(&self) -> (result: u8)
        ensures
            result == access::byte_at(self.ram(), BOTTLE_MENU_ROW as int),
    {
        byte(self.ram, BOTTLE_MENU_ROW)
    }

    pub fn dungeon_dark_with_lantern(&self) -> (result: bool)
        ensures
            result == (access::byte_at(self.ram(), HDR_DUNGEON_DARK_WITH_LANTERN as int) != 0),
    {
        byte(self.ram, HDR_DUNGEON_DARK_WITH_LANTERN) != 0
    }

    pub fn tick_counter(&self) -> (result: u8)
        ensures
            result == access::byte_at(self.ram(), HUD_MODULE_TICK_COUNTER as int),
    {
        byte(self.ram, HUD_MODULE_TICK_COUNTER)
    }
}

pub struct HudStateViewMut<'a> {
    pub ram: &'a mut [u8],
}

impl<'a> HudStateViewMut<'a> {
    /// The bytes of RAM this view reads and writes.
    pub open spec fn ram(&self) -> Seq<u8> {
        self.ram@
    }

    pub fn new(ram: &'a mut [u8]) -> (view: Self)
        ensures
            view.ram() == old(ram)@,
            final(view.ram)@ == final(ram)@,
    {
        Self { ram }
    }

    pub fn set_floor_changed_timer(&mut self, value: u16)
        requires
            HUD_FLOOR_CHANGED_TIMER + 1 < old(self).ram().len(),
        ensures
            final(self).ram() == types::with_u16(
                old(self).ram(),
                HUD_FLOOR_CHANGED_TIMER as int,
                value,
            ),
            final(final(self).ram)@ == final(old(self).ram)@,
    {
        write_le_u16(self.ram, HUD_FLOOR_CHANGED_TIMER, value);
    }

    pub fn set_super_bomb_indicator_timer(&mut self, value: u8)
        requires
            SUPER_BOMB_INDICATOR_TIMER < old(self).ram().len(),
        ensures
            final(self).ram() == old(self).ram().update(SUPER_BOMB_INDICATOR_TIMER as int, value),
            final(final(self).ram)@ == final(old(self).ram)@,
    {
        self.ram[SUPER_BOMB_INDICATOR_TIMER] = value;
    }

    pub fn set_super_bomb_indicator_counter(&mut self, value: u8)
        requires
            SUPER_BOMB_INDICATOR_COUNTER < old(self).ram().len(),
        ensures
            final(self).ram() == old(self).ram().update(SUPER_BOMB_INDICATOR_COUNTER as int, value),
            final(final(self).ram)@ == final(old(self).ram)@,
    {
        self.ram[SUPER_BOMB_INDICATOR_COUNTER] = value;
    }

    pub fn set_rupee_sfx_sound_delay(&mut self, value: u8)
        requires
            RUPEE_SFX_SOUND_DELAY < old(self).ram().len(),
        ensures
            final(self).ram() == old(self).ram().update(RUPEE_SFX_SOUND_DELAY as int, value),
            final(final(self).ram)@ == final(old(self).ram)@,
    {
        self.ram[RUPEE_SFX_SOUND_DELAY] = value;
    }

    pub fn set_is_doing_heart_animation(&mut self, value: u8)
        requires
            IS_DOING_HEART_ANIMATION < old(self).ram().len(),
        ensures
            final(self).ram() == old(self).ram().update(IS_DOING_HEART_ANIMATION as int, value),
            final(final(self).ram)@ == final(old(self).ram)@,
    {
        self.ram[IS_DOING_HEART_ANIMATION] = value;
    }

    pub fn clear_is_doing_heart_animation(&mut self)
        requires
            IS_DOING_HEART_ANIMATION < old(self).ram().len(),
        ensures
            final(self).ram() == old(self).ram().update(IS_DOING_HEART_ANIMATION as int, 0u8),
            final(final(self).ram)@ == final(old(self).ram)@,
    {
        self.ram[IS_DOING_HEART_ANIMATION] = 0;
    }

    pub fn set_heart_refill_countdown(&mut self, value: u8)
        requires
            HEART_REFILL_COUNTDOWN < old(self).ram().len(),
        ensures
            final(self).ram() == old(self).ram().update(HEART_REFILL_COUNTDOWN as int, value),
            final(final(self).ram)@ == final(old(self).ram)@,
    {
        self.ram[HEART_REFILL_COUNTDOWN] = value;
    }

    pub fn set_heart_refill_anim_subpos(&mut self, value: u8)
        requires
            HEART_REFILL_ANIM_SUBPOS < old(self).ram().len(),
        ensures
            final(self).ram() == old(self).ram().update(HEART_REFILL_ANIM_SUBPOS as int, value),
            final(final(self).ram)@ == final(old(self).ram)@,
    {
        self.ram[HEART_REFILL_ANIM_SUBPOS] = value;
    }

    pub fn set_flashing_circle_timer(&mut self, value: u8)
        requires
            FLASHING_CIRCLE_TIMER < old(self).ram().len(),
        ensures
            final(self).ram() == old(self).ram().update(FLASHING_CIRCLE_TIMER as int, value),
            final(final(self).ram)@ == final(old(self).ram)@,
    {
        self.ram[FLASHING_CIRCLE_TIMER] = value;
    }

    pub fn set_prev_joypad_h(&mut self, value: u8)
        requires
            MENU_PREV_JOYPAD_H < old(self).ram().len(),
        ensures
            final(self).ram() == old(self).ram().update(MENU_PREV_JOYPAD_H as int, value),
            final(final(self).ram)@ == final(old(self).ram)@,
    {
        self.ram[MENU_PREV_JOYPAD_H] = value;
    }

    pub fn clear_prev_joypad_h(&mut self)
        requires
            MENU_PREV_JOYPAD_H < old(self).ram().len(),
        ensures
            final(self).ram() == old(self).ram().update(MENU_PREV_JOYPAD_H as int, 0u8),
            final(final(self).ram)@ == final(old(self).ram)@,
    {
        self.ram[MENU_PREV_JOYPAD_H] = 0;
    }

    pub fn set_equipment_menu_exit_state(&mut self, value: u8)
        requires
            EQUIPMENT_MENU_EXIT_STATE < old(self).ram().len(),
        ensures
            final(self).ram() == old(self).ram().update(EQUIPMENT_MENU_EXIT_STATE as int, value),
            final(final(self).ram)@ == final(old(self).ram)@,
    {
        self.ram[EQUIPMENT_MENU_EXIT_STATE] = value;
    }

    pub fn set_bottle_menu_row(&mut self, value: u8)
        requires
            BOTTLE_MENU_ROW < old(self).ram().len(),
        ensures
            final(self).ram() == old(self).ram().update(BOTTLE_MENU_ROW as int, value),
            final(final(self).ram)@ == final(old(self).ram)@,
    {
        self.ram[BOTTLE_MENU_ROW] = value;
    }

    pub fn set_dungeon_dark_with_lantern(&mut self)
        requires
            HDR_DUNGEON_DARK_WITH_LANTERN < old(self).ram().len(),
        ensures
            final(self).ram() == old(self).ram().update(HDR_DUNGEON_DARK_WITH_LANTERN as int, 1u8),
            final(final(self).ram)@ == final(old(self).ram)@,
    {
        self.ram[HDR_DUNGEON_DARK_WITH_LANTERN] = 1;
    }

    pub fn set_tick_counter(&mut self, value: u8)
        requires
            HUD_MODULE_TICK_COUNTER < old(self).ram().len(),
        ensures
            final(self).ram() == old(self).ram().update(HUD_MODULE_TICK_COUNTER as int, value),
            final(final(self).ram)@ == final(old(self).ram)@,
    {
        self.ram[HUD_MODULE_TICK_COUNTER] = value;
    }
}

} // verus!
