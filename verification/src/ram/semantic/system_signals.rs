use vstd::prelude::*;
use super::access;
use super::access::{byte};
use super::addresses::{
    CURRENT_MUSIC_CONTROL, FLAG_UPDATE_CGRAM_IN_NMI, FLAG_UPDATE_HUD_IN_NMI, GAME_OVER_CHECK_FLAG,
    LAST_MUSIC_CONTROL, MUSIC_CONTROL, QUEUED_MUSIC_CONTROL, RAM_APUI00, RAW_SFX_PAN_VALUE,
    RESTART_CHECK_FLAG, SOUND_EFFECT_1, SOUND_EFFECT_2, SOUND_EFFECT_AMBIENT,
    SOUND_EFFECT_AMBIENT_LAST,
};
use crate::types;
use crate::types::{write_le_u16};

verus! {

pub struct SystemSignalsView<'a> {
    ram: &'a [u8],
}

impl<'a> SystemSignalsView<'a> {
    /// The bytes of RAM this view reads and writes.
    pub closed spec fn ram(&self) -> Seq<u8> {
        self.ram@
    }

    pub fn new(ram: &'a [u8]) -> (view: Self)
        ensures
            view.ram() == ram@,
    {
        Self { ram }
    }

    pub fn apui00_offset() -> (result: usize)
        ensures
            result == RAM_APUI00,
    {
        RAM_APUI00
    }

    pub fn music_control(&self) -> (result: u8)
        ensures
            result == access::byte_at(self.ram(), MUSIC_CONTROL as int),
    {
        byte(self.ram, MUSIC_CONTROL)
    }

    pub fn current_music_control(&self) -> (result: u8)
        ensures
            result == access::byte_at(self.ram(), CURRENT_MUSIC_CONTROL as int),
    {
        byte(self.ram, CURRENT_MUSIC_CONTROL)
    }

    pub fn last_music_control(&self) -> (result: u8)
        ensures
            result == access::byte_at(self.ram(), LAST_MUSIC_CONTROL as int),
    {
        byte(self.ram, LAST_MUSIC_CONTROL)
    }

    pub fn queued_music_control(&self) -> (result: u8)
        ensures
            result == access::byte_at(self.ram(), QUEUED_MUSIC_CONTROL as int),
    {
        byte(self.ram, QUEUED_MUSIC_CONTROL)
    }

    pub fn sound_effect_1(&self) -> (result: u8)
        ensures
            result == access::byte_at(self.ram(), SOUND_EFFECT_1 as int),
    {
        byte(self.ram, SOUND_EFFECT_1)
    }

    pub fn sound_effect_2(&self) -> (result: u8)
        ensures
            result == access::byte_at(self.ram(), SOUND_EFFECT_2 as int),
    {
        byte(self.ram, SOUND_EFFECT_2)
    }

    pub fn ambient_sound_effect(&self) -> (result: u8)
        ensures
            result == access::byte_at(self.ram(), SOUND_EFFECT_AMBIENT as int),
    {
        byte(self.ram, SOUND_EFFECT_AMBIENT)
    }

    pub fn last_ambient_sound_effect(&self) -> (result: u8)
        ensures
            result == access::byte_at(self.ram(), SOUND_EFFECT_AMBIENT_LAST as int),
    {
        byte(self.ram, SOUND_EFFECT_AMBIENT_LAST)
    }

    pub fn apui00(&self) -> (result: u8)
        ensures
            result == access::byte_at(self.ram(), RAM_APUI00 as int),
    {
        byte(self.ram, RAM_APUI00)
    }

    pub fn has_sound_effect_1(&self) -> (result: bool)
        ensures
            result == (access::byte_at(self.ram(), SOUND_EFFECT_1 as int) != 0),
    {
        self.sound_effect_1() != 0
    }

    pub fn has_sound_effect_2(&self) -> (result: bool)
        ensures
            result == (access::byte_at(self.ram(), SOUND_EFFECT_2 as int) != 0),
    {
        self.sound_effect_2() != 0
    }

    pub fn ambient_sound_effect_is_clear(&self) -> (result: bool)
        ensures
            result == (access::byte_at(self.ram(), SOUND_EFFECT_AMBIENT as int) == 0),
    {
        self.ambient_sound_effect() == 0
    }

    pub fn should_update_cgram(&self) -> (result: bool)
        ensures
            result == (access::byte_at(self.ram(), FLAG_UPDATE_CGRAM_IN_NMI as int) != 0),
    {
        byte(self.ram, FLAG_UPDATE_CGRAM_IN_NMI) != 0
    }

    pub fn should_update_hud(&self) -> (result: bool)
        ensures
            result == (access::byte_at(self.ram(), FLAG_UPDATE_HUD_IN_NMI as int) != 0),
    {
        byte(self.ram, FLAG_UPDATE_HUD_IN_NMI) != 0
    }

    pub fn game_over_check_flag(&self) -> (result: u8)
        ensures
            result == access::byte_at(self.ram(), GAME_OVER_CHECK_FLAG as int),
    {
        byte(self.ram, GAME_OVER_CHECK_FLAG)
    }

    pub fn restart_check_flag(&self) -> (result: u8)
        ensures
            result == access::byte_at(self.ram(), RESTART_CHECK_FLAG as int),
    {
        byte(self.ram, RESTART_CHECK_FLAG)
    }
}

pub struct SystemSignalsViewMut<'a> {
    pub ram: &'a mut [u8],
}

impl<'a> SystemSignalsViewMut<'a> {
    /// The bytes of RAM this view reads and writes.
    pub open spec fn ram(&self) -> Seq<u8> {
        self.ram@
    }

    pub fn new(ram: &'a mut [u8]) -> (view: Self)
        ensures
            view.ram() == old(ram)@,
            final(view.ram)@ == final(ram)@,
    {
        Self { ram }
    }

    pub fn set_music_control(&mut self, value: u8)
        requires
            MUSIC_CONTROL < old(self).ram().len(),
        ensures
            final(self).ram() == old(self).ram().update(MUSIC_CONTROL as int, value),
            final(final(self).ram)@ == final(old(self).ram)@,
    {
        self.ram[MUSIC_CONTROL] = value;
    }

    pub fn set_current_music_control(&mut self, value: u8)
        requires
            CURRENT_MUSIC_CONTROL < old(self).ram().len(),
        ensures
            final(self).ram() == old(self).ram().update(CURRENT_MUSIC_CONTROL as int, value),
            final(final(self).ram)@ == final(old(self).ram)@,
    {
        self.ram[CURRENT_MUSIC_CONTROL] = value;
    }

    pub fn set_last_music_control(&mut self, value: u8)
        requires
            LAST_MUSIC_CONTROL < old(self).ram().len(),
        ensures
            final(self).ram() == old(self).ram().update(LAST_MUSIC_CONTROL as int, value),
            final(final(self).ram)@ == final(old(self).ram)@,
    {
        self.ram[LAST_MUSIC_CONTROL] = value;
    }

    pub fn set_queued_music_control(&mut self, value: u8)
        requires
            QUEUED_MUSIC_CONTROL < old(self).ram().len(),
        ensures
            final(self).ram() == old(self).ram().update(QUEUED_MUSIC_CONTROL as int, value),
            final(final(self).ram)@ == final(old(self).ram)@,
    {
        self.ram[QUEUED_MUSIC_CONTROL] = value;
    }

    pub fn set_ambient_sound_effect(&mut self, value: u8)
        requires
            SOUND_EFFECT_AMBIENT < old(self).ram().len(),
        ensures
            final(self).ram() == old(self).ram().update(SOUND_EFFECT_AMBIENT as int, value),
            final(final(self).ram)@ == final(old(self).ram)@,
    {
        self.ram[SOUND_EFFECT_AMBIENT] = value;
    }

    pub fn set_sound_effect_1(&mut self, value: u8)
        requires
            SOUND_EFFECT_1 < old(self).ram().len(),
        ensures
            final(self).ram() == old(self).ram().update(SOUND_EFFECT_1 as int, value),
            final(final(self).ram)@ == final(old(self).ram)@,
    {
        self.ram[SOUND_EFFECT_1] = value;
    }

    pub fn set_sound_effect_2(&mut self, value: u8)
        requires
            SOUND_EFFECT_2 < old(self).ram().len(),
        ensures
            final(self).ram() == old(self).ram().update(SOUND_EFFECT_2 as int, value),
            final(final(self).ram)@ == final(old(self).ram)@,
    {
        self.ram[SOUND_EFFECT_2] = value;
    }

    pub fn set_apui00(&mut self, value: u8)
        requires
            RAM_APUI00 < old(self).ram().len(),
        ensures
            final(self).ram() == old(self).ram().update(RAM_APUI00 as int, value),
            final(final(self).ram)@ == final(old(self).ram)@,
    {
        self.ram[RAM_APUI00] = value;
    }

    pub fn set_sound_effect_1_word(&mut self, value: u16)
        requires
            SOUND_EFFECT_1 + 1 < old(self).ram().len(),
        ensures
            final(self).ram() == types::with_u16(old(self).ram(), SOUND_EFFECT_1 as int, value),
            final(final(self).ram)@ == final(old(self).ram)@,
    {
        write_le_u16(self.ram, SOUND_EFFECT_1, value);
    }

    pub fn set_ambient_sound_effect_word(&mut self, value: u16)
        requires
            SOUND_EFFECT_AMBIENT + 1 < old(self).ram().len(),
        ensures
            final(self).ram() == types::with_u16(
                old(self).ram(),
                SOUND_EFFECT_AMBIENT as int,
                value,
            ),
            final(final(self).ram)@ == final(old(self).ram)@,
    {
        write_le_u16(self.ram, SOUND_EFFECT_AMBIENT, value);
    }

    pub fn clear_sound_effect_1(&mut self)
        requires
            SOUND_EFFECT_1 < old(self).ram().len(),
        ensures
            final(self).ram() == old(self).ram().update(SOUND_EFFECT_1 as int, 0),
            final(final(self).ram)@ == final(old(self).ram)@,
    {
        self.set_sound_effect_1(0);
    }

    pub fn clear_sound_effect_2(&mut self)
        requires
            SOUND_EFFECT_2 < old(self).ram().len(),
        ensures
            final(self).ram() == old(self).ram().update(SOUND_EFFECT_2 as int, 0),
            final(final(self).ram)@ == final(old(self).ram)@,
    {
        self.set_sound_effect_2(0);
    }

    pub fn clear_ambient_sound_effect(&mut self)
        requires
            SOUND_EFFECT_AMBIENT < old(self).ram().len(),
        ensures
            final(self).ram() == old(self).ram().update(SOUND_EFFECT_AMBIENT as int, 0),
            final(final(self).ram)@ == final(old(self).ram)@,
    {
        self.set_ambient_sound_effect(0);
    }

    pub fn queue_sound_effect_1_if_empty(&mut self, value: u8) -> (result: bool)
        requires
            SOUND_EFFECT_1 < old(self).ram().len(),
        ensures
            result == (old(self).ram()[SOUND_EFFECT_1 as int] == 0),
            final(self).ram() == (if old(self).ram()[SOUND_EFFECT_1 as int] == 0 {
                old(self).ram().update(SOUND_EFFECT_1 as int, value)
            } else {
                old(self).ram()
            }),
            final(final(self).ram)@ == final(old(self).ram)@,
    {
        if self.ram[SOUND_EFFECT_1] == 0 {
            self.ram[SOUND_EFFECT_1] = value;
            true
        } else {
            false
        }
    }

    pub fn queue_sound_effect_2_if_empty(&mut self, value: u8) -> (result: bool)
        requires
            SOUND_EFFECT_2 < old(self).ram().len(),
        ensures
            result == (old(self).ram()[SOUND_EFFECT_2 as int] == 0),
            final(self).ram() == (if old(self).ram()[SOUND_EFFECT_2 as int] == 0 {
                old(self).ram().update(SOUND_EFFECT_2 as int, value)
            } else {
                old(self).ram()
            }),
            final(final(self).ram)@ == final(old(self).ram)@,
    {
        if self.ram[SOUND_EFFECT_2] == 0 {
            self.ram[SOUND_EFFECT_2] = value;
            true
        } else {
            false
        }
    }

    pub fn increment_hud_update_flag(&mut self) -> (result: u8)
        requires
            FLAG_UPDATE_HUD_IN_NMI < old(self).ram().len(),
        ensures
            result == old(self).ram()[FLAG_UPDATE_HUD_IN_NMI as int].wrapping_add(1),
            final(self).ram() == old(self).ram().update(
                FLAG_UPDATE_HUD_IN_NMI as int,
                old(self).ram()[FLAG_UPDATE_HUD_IN_NMI as int].wrapping_add(1),
            ),
            final(final(self).ram)@ == final(old(self).ram)@,
    {
        self.ram[FLAG_UPDATE_HUD_IN_NMI] = self.ram[FLAG_UPDATE_HUD_IN_NMI].wrapping_add(1);
        self.ram[FLAG_UPDATE_HUD_IN_NMI]
    }

    pub fn clear_hud_update_flag(&mut self)
        requires
            FLAG_UPDATE_HUD_IN_NMI < old(self).ram().len(),
        ensures
            final(self).ram() == old(self).ram().update(FLAG_UPDATE_HUD_IN_NMI as int, 0u8),
            final(final(self).ram)@ == final(old(self).ram)@,
    {
        self.ram[FLAG_UPDATE_HUD_IN_NMI] = 0;
    }

    pub fn increment_cgram_update_flag(&mut self) -> (result: u8)
        requires
            FLAG_UPDATE_CGRAM_IN_NMI < old(self).ram().len(),
        ensures
            result == old(self).ram()[FLAG_UPDATE_CGRAM_IN_NMI as int].wrapping_add(1),
            final(self).ram() == old(self).ram().update(
                FLAG_UPDATE_CGRAM_IN_NMI as int,
                old(self).ram()[FLAG_UPDATE_CGRAM_IN_NMI as int].wrapping_add(1),
            ),
            final(final(self).ram)@ == final(old(self).ram)@,
    {
        self.ram[FLAG_UPDATE_CGRAM_IN_NMI] = self.ram[FLAG_UPDATE_CGRAM_IN_NMI].wrapping_add(1);
        self.ram[FLAG_UPDATE_CGRAM_IN_NMI]
    }

    pub fn clear_cgram_update_flag(&mut self)
        requires
            FLAG_UPDATE_CGRAM_IN_NMI < old(self).ram().len(),
        ensures
            final(self).ram() == old(self).ram().update(FLAG_UPDATE_CGRAM_IN_NMI as int, 0u8),
            final(final(self).ram)@ == final(old(self).ram)@,
    {
        self.ram[FLAG_UPDATE_CGRAM_IN_NMI] = 0;
    }

    pub fn save_current_music_as_last(&mut self)
        requires
            LAST_MUSIC_CONTROL < old(self).ram().len(),
            CURRENT_MUSIC_CONTROL < old(self).ram().len(),
        ensures
            final(self).ram() == old(self).ram().update(
                LAST_MUSIC_CONTROL as int,
                old(self).ram()[CURRENT_MUSIC_CONTROL as int],
            ),
            final(final(self).ram)@ == final(old(self).ram)@,
    {
        self.ram[LAST_MUSIC_CONTROL] = self.ram[CURRENT_MUSIC_CONTROL];
    }

    pub fn save_ambient_sound_effect_as_last(&mut self)
        requires
            SOUND_EFFECT_AMBIENT_LAST < old(self).ram().len(),
            SOUND_EFFECT_AMBIENT < old(self).ram().len(),
        ensures
            final(self).ram() == old(self).ram().update(
                SOUND_EFFECT_AMBIENT_LAST as int,
                old(self).ram()[SOUND_EFFECT_AMBIENT as int],
            ),
            final(final(self).ram)@ == final(old(self).ram)@,
    {
        self.ram[SOUND_EFFECT_AMBIENT_LAST] = self.ram[SOUND_EFFECT_AMBIENT];
    }

    pub fn clear_game_over_check_flag(&mut self)
        requires
            GAME_OVER_CHECK_FLAG < old(self).ram().len(),
        ensures
            final(self).ram() == old(self).ram().update(GAME_OVER_CHECK_FLAG as int, 0u8),
            final(final(self).ram)@ == final(old(self).ram)@,
    {
        self.ram[GAME_OVER_CHECK_FLAG] = 0;
    }

    pub fn clear_restart_check_flag(&mut self)
        requires
            RESTART_CHECK_FLAG < old(self).ram().len(),
        ensures
            final(self).ram() == old(self).ram().update(RESTART_CHECK_FLAG as int, 0u8),
            final(final(self).ram)@ == final(old(self).ram)@,
    {
        self.ram[RESTART_CHECK_FLAG] = 0;
    }

    pub fn set_restart_check_flag(&mut self, value: u8)
        requires
            RESTART_CHECK_FLAG < old(self).ram().len(),
        ensures
            final(self).ram() == old(self).ram().update(RESTART_CHECK_FLAG as int, value),
            final(final(self).ram)@ == final(old(self).ram)@,
    {
        self.ram[RESTART_CHECK_FLAG] = value;
    }

    pub fn set_raw_sfx_pan_value(&mut self, value: u8)
        requires
            RAW_SFX_PAN_VALUE < old(self).ram().len(),
        ensures
            final(self).ram() == old(self).ram().update(RAW_SFX_PAN_VALUE as int, value),
            final(final(self).ram)@ == final(old(self).ram)@,
    {
        self.ram[RAW_SFX_PAN_VALUE] = value;
    }
}

} // verus!
