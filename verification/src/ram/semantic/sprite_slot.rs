use vstd::prelude::*;
use super::access;
use super::access::{byte, packed_position, write_position, move_axis24, move_axis16};
use super::addresses::{
    SPRITE_A, SPRITE_AI_STATE, SPRITE_ANIM_CLOCK, SPRITE_B, SPRITE_BUMP_DAMAGE, SPRITE_C, SPRITE_D,
    SPRITE_DEFL_BITS, SPRITE_DELAY_AUX1, SPRITE_DELAY_AUX2, SPRITE_DELAY_AUX3, SPRITE_DELAY_AUX4,
    SPRITE_DELAY_MAIN, SPRITE_DIE_ACTION, SPRITE_DRAW_I, SPRITE_DRAW_WORK_BYTE_1,
    SPRITE_DRAW_WORK_BYTE_2, SPRITE_DRAW_WORK_BYTE_3, SPRITE_DRAW_WORK_BYTE_4,
    SPRITE_DRAW_WORK_BYTE_5, SPRITE_E, SPRITE_F, SPRITE_FLAGS, SPRITE_FLAGS2, SPRITE_FLAGS3,
    SPRITE_FLAGS4, SPRITE_FLAGS5, SPRITE_FLOOR, SPRITE_G, SPRITE_GRAPHICS, SPRITE_HEAD_DIR,
    SPRITE_HEALTH, SPRITE_HIT_TIMER, SPRITE_IGNORE_PROJECTILE, SPRITE_INCOMING_DAMAGE, SPRITE_N,
    SPRITE_OAM_FLAGS, SPRITE_OBJ_PRIO, SPRITE_PAUSE, SPRITE_ROOM, SPRITE_STATE, SPRITE_STUNNED,
    SPRITE_SUBTYPE, SPRITE_SUBTYPE2, SPRITE_TYPE, SPRITE_WALL_COLLISION, SPRITE_X_HI, SPRITE_X_LO,
    SPRITE_X_RECOIL, SPRITE_X_SUBPIXEL, SPRITE_X_VELOCITY, SPRITE_Y_HI, SPRITE_Y_LO,
    SPRITE_Y_RECOIL, SPRITE_Y_SUBPIXEL, SPRITE_Y_VELOCITY, SPRITE_Z, SPRITE_Z_SUBPIXEL,
    SPRITE_Z_VELOCITY,
};
use crate::types;
use crate::types::{read_le_u16, write_le_u16};

verus! {

pub struct SpriteSlotView<'a> {
    ram: &'a [u8],
    slot: usize,
}

impl<'a> SpriteSlotView<'a> {
    /// The bytes of RAM this view reads and writes.
    pub closed spec fn ram(&self) -> Seq<u8> {
        self.ram@
    }

    /// The slot whose fields this view addresses.
    pub closed spec fn slot_index(&self) -> usize {
        self.slot
    }

    pub fn new(ram: &'a [u8], slot: usize) -> (view: Self)
        ensures
            view.ram() == ram@,
            view.slot_index() == slot,
    {
        Self { ram, slot }
    }

    pub fn slot(&self) -> (result: u8)
        ensures
            result == (self.slot_index() as u8),
    {
        self.slot as u8
    }

    pub fn sprite_type(&self) -> (result: u8)
        requires
            SPRITE_TYPE + self.slot_index() <= usize::MAX,
        ensures
            result == access::byte_at(self.ram(), SPRITE_TYPE + self.slot_index()),
    {
        byte(self.ram, SPRITE_TYPE + self.slot)
    }

    pub fn state(&self) -> (result: u8)
        requires
            SPRITE_STATE + self.slot_index() <= usize::MAX,
        ensures
            result == access::byte_at(self.ram(), SPRITE_STATE + self.slot_index()),
    {
        byte(self.ram, SPRITE_STATE + self.slot)
    }

    pub fn is_active(&self) -> (result: bool)
        requires
            SPRITE_TYPE + self.slot_index() <= usize::MAX,
            SPRITE_STATE + self.slot_index() <= usize::MAX,
        ensures
            result == ((access::byte_at(self.ram(), SPRITE_TYPE + self.slot_index()) != 0)
                 || (access::byte_at(self.ram(), SPRITE_STATE + self.slot_index()) != 0)),
    {
        self.sprite_type() != 0 || self.state() != 0
    }

    pub fn x(&self) -> (result: u16)
        requires
            SPRITE_X_LO + self.slot_index() <= usize::MAX,
            SPRITE_X_HI + self.slot_index() <= usize::MAX,
        ensures
            result == types::le_word(
                access::byte_at(self.ram(), SPRITE_X_LO + self.slot_index()),
                access::byte_at(self.ram(), SPRITE_X_HI + self.slot_index()),
            ),
    {
        packed_position(self.ram, SPRITE_X_LO + self.slot, SPRITE_X_HI + self.slot)
    }

    pub fn x_low(&self) -> (result: u8)
        requires
            SPRITE_X_LO + self.slot_index() <= usize::MAX,
        ensures
            result == access::byte_at(self.ram(), SPRITE_X_LO + self.slot_index()),
    {
        byte(self.ram, SPRITE_X_LO + self.slot)
    }

    pub fn x_high(&self) -> (result: u8)
        requires
            SPRITE_X_HI + self.slot_index() <= usize::MAX,
        ensures
            result == access::byte_at(self.ram(), SPRITE_X_HI + self.slot_index()),
    {
        byte(self.ram, SPRITE_X_HI + self.slot)
    }

    pub fn y(&self) -> (result: u16)
        requires
            SPRITE_Y_LO + self.slot_index() <= usize::MAX,
            SPRITE_Y_HI + self.slot_index() <= usize::MAX,
        ensures
            result == types::le_word(
                access::byte_at(self.ram(), SPRITE_Y_LO + self.slot_index()),
                access::byte_at(self.ram(), SPRITE_Y_HI + self.slot_index()),
            ),
    {
        packed_position(self.ram, SPRITE_Y_LO + self.slot, SPRITE_Y_HI + self.slot)
    }

    pub fn y_low(&self) -> (result: u8)
        requires
            SPRITE_Y_LO + self.slot_index() <= usize::MAX,
        ensures
            result == access::byte_at(self.ram(), SPRITE_Y_LO + self.slot_index()),
    {
        byte(self.ram, SPRITE_Y_LO + self.slot)
    }

    pub fn y_high(&self) -> (result: u8)
        requires
            SPRITE_Y_HI + self.slot_index() <= usize::MAX,
        ensures
            result == access::byte_at(self.ram(), SPRITE_Y_HI + self.slot_index()),
    {
        byte(self.ram, SPRITE_Y_HI + self.slot)
    }

    pub fn x_velocity(&self) -> (result: u8)
        requires
            SPRITE_X_VELOCITY + self.slot_index() <= usize::MAX,
        ensures
            result == access::byte_at(self.ram(), SPRITE_X_VELOCITY + self.slot_index()),
    {
        byte(self.ram, SPRITE_X_VELOCITY + self.slot)
    }

    pub fn y_velocity(&self) -> (result: u8)
        requires
            SPRITE_Y_VELOCITY + self.slot_index() <= usize::MAX,
        ensures
            result == access::byte_at(self.ram(), SPRITE_Y_VELOCITY + self.slot_index()),
    {
        byte(self.ram, SPRITE_Y_VELOCITY + self.slot)
    }

    pub fn z_velocity(&self) -> (result: u8)
        requires
            SPRITE_Z_VELOCITY + self.slot_index() <= usize::MAX,
        ensures
            result == access::byte_at(self.ram(), SPRITE_Z_VELOCITY + self.slot_index()),
    {
        byte(self.ram, SPRITE_Z_VELOCITY + self.slot)
    }

    pub fn x_recoil(&self) -> (result: u8)
        requires
            SPRITE_X_RECOIL + self.slot_index() <= usize::MAX,
        ensures
            result == access::byte_at(self.ram(), SPRITE_X_RECOIL + self.slot_index()),
    {
        byte(self.ram, SPRITE_X_RECOIL + self.slot)
    }

    pub fn y_recoil(&self) -> (result: u8)
        requires
            SPRITE_Y_RECOIL + self.slot_index() <= usize::MAX,
        ensures
            result == access::byte_at(self.ram(), SPRITE_Y_RECOIL + self.slot_index()),
    {
        byte(self.ram, SPRITE_Y_RECOIL + self.slot)
    }

    pub fn x_subpixel(&self) -> (result: u8)
        requires
            SPRITE_X_SUBPIXEL + self.slot_index() <= usize::MAX,
        ensures
            result == access::byte_at(self.ram(), SPRITE_X_SUBPIXEL + self.slot_index()),
    {
        byte(self.ram, SPRITE_X_SUBPIXEL + self.slot)
    }

    pub fn y_subpixel(&self) -> (result: u8)
        requires
            SPRITE_Y_SUBPIXEL + self.slot_index() <= usize::MAX,
        ensures
            result == access::byte_at(self.ram(), SPRITE_Y_SUBPIXEL + self.slot_index()),
    {
        byte(self.ram, SPRITE_Y_SUBPIXEL + self.slot)
    }

    pub fn z(&self) -> (result: u8)
        requires
            SPRITE_Z + self.slot_index() <= usize::MAX,
        ensures
            result == access::byte_at(self.ram(), SPRITE_Z + self.slot_index()),
    {
        byte(self.ram, SPRITE_Z + self.slot)
    }

    pub fn z_subpixel(&self) -> (result: u8)
        requires
            SPRITE_Z_SUBPIXEL + self.slot_index() <= usize::MAX,
        ensures
            result == access::byte_at(self.ram(), SPRITE_Z_SUBPIXEL + self.slot_index()),
    {
        byte(self.ram, SPRITE_Z_SUBPIXEL + self.slot)
    }

    pub fn ai_state(&self) -> (result: u8)
        requires
            SPRITE_AI_STATE + self.slot_index() <= usize::MAX,
        ensures
            result == access::byte_at(self.ram(), SPRITE_AI_STATE + self.slot_index()),
    {
        byte(self.ram, SPRITE_AI_STATE + self.slot)
    }

    pub fn a(&self) -> (result: u8)
        requires
            SPRITE_A + self.slot_index() <= usize::MAX,
        ensures
            result == access::byte_at(self.ram(), SPRITE_A + self.slot_index()),
    {
        byte(self.ram, SPRITE_A + self.slot)
    }

    pub fn c(&self) -> (result: u8)
        requires
            SPRITE_C + self.slot_index() <= usize::MAX,
        ensures
            result == access::byte_at(self.ram(), SPRITE_C + self.slot_index()),
    {
        byte(self.ram, SPRITE_C + self.slot)
    }

    pub fn b(&self) -> (result: u8)
        requires
            SPRITE_B + self.slot_index() <= usize::MAX,
        ensures
            result == access::byte_at(self.ram(), SPRITE_B + self.slot_index()),
    {
        byte(self.ram, SPRITE_B + self.slot)
    }

    pub fn e(&self) -> (result: u8)
        requires
            SPRITE_E + self.slot_index() <= usize::MAX,
        ensures
            result == access::byte_at(self.ram(), SPRITE_E + self.slot_index()),
    {
        byte(self.ram, SPRITE_E + self.slot)
    }

    pub fn f(&self) -> (result: u8)
        requires
            SPRITE_F + self.slot_index() <= usize::MAX,
        ensures
            result == access::byte_at(self.ram(), SPRITE_F + self.slot_index()),
    {
        byte(self.ram, SPRITE_F + self.slot)
    }

    pub fn g(&self) -> (result: u8)
        requires
            SPRITE_G + self.slot_index() <= usize::MAX,
        ensures
            result == access::byte_at(self.ram(), SPRITE_G + self.slot_index()),
    {
        byte(self.ram, SPRITE_G + self.slot)
    }

    pub fn graphics(&self) -> (result: u8)
        requires
            SPRITE_GRAPHICS + self.slot_index() <= usize::MAX,
        ensures
            result == access::byte_at(self.ram(), SPRITE_GRAPHICS + self.slot_index()),
    {
        byte(self.ram, SPRITE_GRAPHICS + self.slot)
    }

    pub fn direction(&self) -> (result: u8)
        requires
            SPRITE_D + self.slot_index() <= usize::MAX,
        ensures
            result == access::byte_at(self.ram(), SPRITE_D + self.slot_index()),
    {
        byte(self.ram, SPRITE_D + self.slot)
    }

    pub fn subtype(&self) -> (result: u8)
        requires
            SPRITE_SUBTYPE + self.slot_index() <= usize::MAX,
        ensures
            result == access::byte_at(self.ram(), SPRITE_SUBTYPE + self.slot_index()),
    {
        byte(self.ram, SPRITE_SUBTYPE + self.slot)
    }

    pub fn delay_main(&self) -> (result: u8)
        requires
            SPRITE_DELAY_MAIN + self.slot_index() <= usize::MAX,
        ensures
            result == access::byte_at(self.ram(), SPRITE_DELAY_MAIN + self.slot_index()),
    {
        byte(self.ram, SPRITE_DELAY_MAIN + self.slot)
    }

    pub fn delay_aux1(&self) -> (result: u8)
        requires
            SPRITE_DELAY_AUX1 + self.slot_index() <= usize::MAX,
        ensures
            result == access::byte_at(self.ram(), SPRITE_DELAY_AUX1 + self.slot_index()),
    {
        byte(self.ram, SPRITE_DELAY_AUX1 + self.slot)
    }

    pub fn delay_aux4(&self) -> (result: u8)
        requires
            SPRITE_DELAY_AUX4 + self.slot_index() <= usize::MAX,
        ensures
            result == access::byte_at(self.ram(), SPRITE_DELAY_AUX4 + self.slot_index()),
    {
        byte(self.ram, SPRITE_DELAY_AUX4 + self.slot)
    }

    pub fn delay_aux2(&self) -> (result: u8)
        requires
            SPRITE_DELAY_AUX2 + self.slot_index() <= usize::MAX,
        ensures
            result == access::byte_at(self.ram(), SPRITE_DELAY_AUX2 + self.slot_index()),
    {
        byte(self.ram, SPRITE_DELAY_AUX2 + self.slot)
    }

    pub fn flags2(&self) -> (result: u8)
        requires
            SPRITE_FLAGS2 + self.slot_index() <= usize::MAX,
        ensures
            result == access::byte_at(self.ram(), SPRITE_FLAGS2 + self.slot_index()),
    {
        byte(self.ram, SPRITE_FLAGS2 + self.slot)
    }

    pub fn flags(&self) -> (result: u8)
        requires
            SPRITE_FLAGS + self.slot_index() <= usize::MAX,
        ensures
            result == access::byte_at(self.ram(), SPRITE_FLAGS + self.slot_index()),
    {
        byte(self.ram, SPRITE_FLAGS + self.slot)
    }

    pub fn flags3(&self) -> (result: u8)
        requires
            SPRITE_FLAGS3 + self.slot_index() <= usize::MAX,
        ensures
            result == access::byte_at(self.ram(), SPRITE_FLAGS3 + self.slot_index()),
    {
        byte(self.ram, SPRITE_FLAGS3 + self.slot)
    }

    pub fn wall_collision(&self) -> (result: u8)
        requires
            SPRITE_WALL_COLLISION + self.slot_index() <= usize::MAX,
        ensures
            result == access::byte_at(self.ram(), SPRITE_WALL_COLLISION + self.slot_index()),
    {
        byte(self.ram, SPRITE_WALL_COLLISION + self.slot)
    }

    pub fn anim_clock(&self) -> (result: u8)
        requires
            SPRITE_ANIM_CLOCK + self.slot_index() <= usize::MAX,
        ensures
            result == access::byte_at(self.ram(), SPRITE_ANIM_CLOCK + self.slot_index()),
    {
        byte(self.ram, SPRITE_ANIM_CLOCK + self.slot)
    }

    pub fn delay_aux3(&self) -> (result: u8)
        requires
            SPRITE_DELAY_AUX3 + self.slot_index() <= usize::MAX,
        ensures
            result == access::byte_at(self.ram(), SPRITE_DELAY_AUX3 + self.slot_index()),
    {
        byte(self.ram, SPRITE_DELAY_AUX3 + self.slot)
    }

    pub fn flags4(&self) -> (result: u8)
        requires
            SPRITE_FLAGS4 + self.slot_index() <= usize::MAX,
        ensures
            result == access::byte_at(self.ram(), SPRITE_FLAGS4 + self.slot_index()),
    {
        byte(self.ram, SPRITE_FLAGS4 + self.slot)
    }

    pub fn flags5(&self) -> (result: u8)
        requires
            SPRITE_FLAGS5 + self.slot_index() <= usize::MAX,
        ensures
            result == access::byte_at(self.ram(), SPRITE_FLAGS5 + self.slot_index()),
    {
        byte(self.ram, SPRITE_FLAGS5 + self.slot)
    }

    pub fn health(&self) -> (result: u8)
        requires
            SPRITE_HEALTH + self.slot_index() <= usize::MAX,
        ensures
            result == access::byte_at(self.ram(), SPRITE_HEALTH + self.slot_index()),
    {
        byte(self.ram, SPRITE_HEALTH + self.slot)
    }

    pub fn hit_timer(&self) -> (result: u8)
        requires
            SPRITE_HIT_TIMER + self.slot_index() <= usize::MAX,
        ensures
            result == access::byte_at(self.ram(), SPRITE_HIT_TIMER + self.slot_index()),
    {
        byte(self.ram, SPRITE_HIT_TIMER + self.slot)
    }

    pub fn pause(&self) -> (result: u8)
        requires
            SPRITE_PAUSE + self.slot_index() <= usize::MAX,
        ensures
            result == access::byte_at(self.ram(), SPRITE_PAUSE + self.slot_index()),
    {
        byte(self.ram, SPRITE_PAUSE + self.slot)
    }

    pub fn stunned(&self) -> (result: u8)
        requires
            SPRITE_STUNNED + self.slot_index() <= usize::MAX,
        ensures
            result == access::byte_at(self.ram(), SPRITE_STUNNED + self.slot_index()),
    {
        byte(self.ram, SPRITE_STUNNED + self.slot)
    }

    pub fn ignore_projectile(&self) -> (result: u8)
        requires
            SPRITE_IGNORE_PROJECTILE + self.slot_index() <= usize::MAX,
        ensures
            result == access::byte_at(self.ram(), SPRITE_IGNORE_PROJECTILE + self.slot_index()),
    {
        byte(self.ram, SPRITE_IGNORE_PROJECTILE + self.slot)
    }

    pub fn draw_work_byte_2(&self) -> (result: u8)
        requires
            SPRITE_DRAW_WORK_BYTE_2 + self.slot_index() <= usize::MAX,
        ensures
            result == access::byte_at(self.ram(), SPRITE_DRAW_WORK_BYTE_2 + self.slot_index()),
    {
        byte(self.ram, SPRITE_DRAW_WORK_BYTE_2 + self.slot)
    }

    pub fn n(&self) -> (result: u8)
        requires
            SPRITE_N + self.slot_index() <= usize::MAX,
        ensures
            result == access::byte_at(self.ram(), SPRITE_N + self.slot_index()),
    {
        byte(self.ram, SPRITE_N + self.slot)
    }

    pub fn n_word(&self) -> (result: u16)
        requires
            (SPRITE_N + (self.slot_index() * 2)) + 1 < self.ram().len(),
        ensures
            result == types::u16_at(self.ram(), SPRITE_N + (self.slot_index() * 2)),
    {
        proof {
            assert(self.ram@.len() == self.ram.len());
        }
        read_le_u16(self.ram, SPRITE_N + self.slot * 2)
    }

    pub fn deflection_bits(&self) -> (result: u8)
        requires
            SPRITE_DEFL_BITS + self.slot_index() <= usize::MAX,
        ensures
            result == access::byte_at(self.ram(), SPRITE_DEFL_BITS + self.slot_index()),
    {
        byte(self.ram, SPRITE_DEFL_BITS + self.slot)
    }

    pub fn bump_damage(&self) -> (result: u8)
        requires
            SPRITE_BUMP_DAMAGE + self.slot_index() <= usize::MAX,
        ensures
            result == access::byte_at(self.ram(), SPRITE_BUMP_DAMAGE + self.slot_index()),
    {
        byte(self.ram, SPRITE_BUMP_DAMAGE + self.slot)
    }

    pub fn incoming_damage(&self) -> (result: u8)
        requires
            SPRITE_INCOMING_DAMAGE + self.slot_index() <= usize::MAX,
        ensures
            result == access::byte_at(self.ram(), SPRITE_INCOMING_DAMAGE + self.slot_index()),
    {
        byte(self.ram, SPRITE_INCOMING_DAMAGE + self.slot)
    }

    pub fn floor(&self) -> (result: u8)
        requires
            SPRITE_FLOOR + self.slot_index() <= usize::MAX,
        ensures
            result == access::byte_at(self.ram(), SPRITE_FLOOR + self.slot_index()),
    {
        byte(self.ram, SPRITE_FLOOR + self.slot)
    }

    pub fn room(&self) -> (result: u8)
        requires
            SPRITE_ROOM + self.slot_index() <= usize::MAX,
        ensures
            result == access::byte_at(self.ram(), SPRITE_ROOM + self.slot_index()),
    {
        byte(self.ram, SPRITE_ROOM + self.slot)
    }

    pub fn die_action(&self) -> (result: u8)
        requires
            SPRITE_DIE_ACTION + self.slot_index() <= usize::MAX,
        ensures
            result == access::byte_at(self.ram(), SPRITE_DIE_ACTION + self.slot_index()),
    {
        byte(self.ram, SPRITE_DIE_ACTION + self.slot)
    }

    pub fn draw_i(&self) -> (result: u8)
        requires
            SPRITE_DRAW_I + self.slot_index() <= usize::MAX,
        ensures
            result == access::byte_at(self.ram(), SPRITE_DRAW_I + self.slot_index()),
    {
        byte(self.ram, SPRITE_DRAW_I + self.slot)
    }

    pub fn draw_work_byte_3(&self) -> (result: u8)
        requires
            SPRITE_DRAW_WORK_BYTE_3 + self.slot_index() <= usize::MAX,
        ensures
            result == access::byte_at(self.ram(), SPRITE_DRAW_WORK_BYTE_3 + self.slot_index()),
    {
        byte(self.ram, SPRITE_DRAW_WORK_BYTE_3 + self.slot)
    }

    pub fn draw_work_byte_4(&self) -> (result: u8)
        requires
            SPRITE_DRAW_WORK_BYTE_4 + self.slot_index() <= usize::MAX,
        ensures
            result == access::byte_at(self.ram(), SPRITE_DRAW_WORK_BYTE_4 + self.slot_index()),
    {
        byte(self.ram, SPRITE_DRAW_WORK_BYTE_4 + self.slot)
    }

    pub fn draw_work_byte_5(&self) -> (result: u8)
        requires
            SPRITE_DRAW_WORK_BYTE_5 + self.slot_index() <= usize::MAX,
        ensures
            result == access::byte_at(self.ram(), SPRITE_DRAW_WORK_BYTE_5 + self.slot_index()),
    {
        byte(self.ram, SPRITE_DRAW_WORK_BYTE_5 + self.slot)
    }

    pub fn draw_work_byte_1(&self) -> (result: u8)
        requires
            SPRITE_DRAW_WORK_BYTE_1 + self.slot_index() <= usize::MAX,
        ensures
            result == access::byte_at(self.ram(), SPRITE_DRAW_WORK_BYTE_1 + self.slot_index()),
    {
        byte(self.ram, SPRITE_DRAW_WORK_BYTE_1 + self.slot)
    }

    pub fn head_direction(&self) -> (result: u8)
        requires
            SPRITE_HEAD_DIR + self.slot_index() <= usize::MAX,
        ensures
            result == access::byte_at(self.ram(), SPRITE_HEAD_DIR + self.slot_index()),
    {
        byte(self.ram, SPRITE_HEAD_DIR + self.slot)
    }

    pub fn oam_flags(&self) -> (result: u8)
        requires
            SPRITE_OAM_FLAGS + self.slot_index() <= usize::MAX,
        ensures
            result == access::byte_at(self.ram(), SPRITE_OAM_FLAGS + self.slot_index()),
    {
        byte(self.ram, SPRITE_OAM_FLAGS + self.slot)
    }

    pub fn object_priority(&self) -> (result: u8)
        requires
            SPRITE_OBJ_PRIO + self.slot_index() <= usize::MAX,
        ensures
            result == access::byte_at(self.ram(), SPRITE_OBJ_PRIO + self.slot_index()),
    {
        byte(self.ram, SPRITE_OBJ_PRIO + self.slot)
    }

    pub fn subtype2(&self) -> (result: u8)
        requires
            SPRITE_SUBTYPE2 + self.slot_index() <= usize::MAX,
        ensures
            result == access::byte_at(self.ram(), SPRITE_SUBTYPE2 + self.slot_index()),
    {
        byte(self.ram, SPRITE_SUBTYPE2 + self.slot)
    }
}

pub struct SpriteSlotViewMut<'a> {
    pub ram: &'a mut [u8],
    pub slot: usize,
}

impl<'a> SpriteSlotViewMut<'a> {
    /// The bytes of RAM this view reads and writes.
    pub open spec fn ram(&self) -> Seq<u8> {
        self.ram@
    }

    /// The slot whose fields this view addresses.
    pub open spec fn slot_index(&self) -> usize {
        self.slot
    }

    pub fn new(ram: &'a mut [u8], slot: usize) -> (view: Self)
        ensures
            view.ram() == old(ram)@,
            view.slot_index() == slot,
            final(view.ram)@ == final(ram)@,
    {
        Self { ram, slot }
    }

    pub fn set_sprite_type(&mut self, value: u8)
        requires
            SPRITE_TYPE + old(self).slot_index() < old(self).ram().len(),
        ensures
            final(self).ram() == old(self).ram().update(
                SPRITE_TYPE + old(self).slot_index(),
                value,
            ),
            final(self).slot_index() == old(self).slot_index(),
            final(final(self).ram)@ == final(old(self).ram)@,
    {
        proof {
            assert(self.ram@.len() == self.ram.len());
        }
        self.ram[SPRITE_TYPE + self.slot] = value;
    }

    pub fn set_state(&mut self, value: u8)
        requires
            SPRITE_STATE + old(self).slot_index() < old(self).ram().len(),
        ensures
            final(self).ram() == old(self).ram().update(
                SPRITE_STATE + old(self).slot_index(),
                value,
            ),
            final(self).slot_index() == old(self).slot_index(),
            final(final(self).ram)@ == final(old(self).ram)@,
    {
        proof {
            assert(self.ram@.len() == self.ram.len());
        }
        self.ram[SPRITE_STATE + self.slot] = value;
    }

    pub fn increment_state(&mut self)
        requires
            SPRITE_STATE + old(self).slot_index() < old(self).ram().len(),
        ensures
            final(self).ram() == old(self).ram().update(
                SPRITE_STATE + old(self).slot_index(),
                old(self).ram()[SPRITE_STATE + old(self).slot_index()].wrapping_add(1),
            ),
            final(self).slot_index() == old(self).slot_index(),
            final(final(self).ram)@ == final(old(self).ram)@,
    {
        proof {
            assert(self.ram@.len() == self.ram.len());
        }
        self.ram[SPRITE_STATE + self.slot] = self.ram[SPRITE_STATE + self.slot].wrapping_add(1);
    }

    pub fn clear(&mut self)
        requires
            SPRITE_STATE + old(self).slot_index() < old(self).ram().len(),
        ensures
            final(self).ram() == old(self).ram().update(SPRITE_STATE + old(self).slot_index(), 0),
            final(self).slot_index() == old(self).slot_index(),
            final(final(self).ram)@ == final(old(self).ram)@,
    {
        proof {
            assert(self.ram@.len() == self.ram.len());
        }
        self.set_state(0);
    }

    #[verifier::rlimit(40)]
    pub fn clear_prep_runtime_state(&mut self)
        requires
            SPRITE_PAUSE + old(self).slot_index() < old(self).ram().len(),
            SPRITE_E + old(self).slot_index() < old(self).ram().len(),
            SPRITE_X_VELOCITY + old(self).slot_index() < old(self).ram().len(),
            SPRITE_Y_VELOCITY + old(self).slot_index() < old(self).ram().len(),
            SPRITE_Z_VELOCITY + old(self).slot_index() < old(self).ram().len(),
            SPRITE_X_SUBPIXEL + old(self).slot_index() < old(self).ram().len(),
            SPRITE_Y_SUBPIXEL + old(self).slot_index() < old(self).ram().len(),
            SPRITE_Z_SUBPIXEL + old(self).slot_index() < old(self).ram().len(),
            SPRITE_AI_STATE + old(self).slot_index() < old(self).ram().len(),
            SPRITE_GRAPHICS + old(self).slot_index() < old(self).ram().len(),
            SPRITE_D + old(self).slot_index() < old(self).ram().len(),
            SPRITE_DELAY_MAIN + old(self).slot_index() < old(self).ram().len(),
            SPRITE_DELAY_AUX1 + old(self).slot_index() < old(self).ram().len(),
            SPRITE_DELAY_AUX2 + old(self).slot_index() < old(self).ram().len(),
            SPRITE_DELAY_AUX4 + old(self).slot_index() < old(self).ram().len(),
            SPRITE_HEAD_DIR + old(self).slot_index() < old(self).ram().len(),
            SPRITE_ANIM_CLOCK + old(self).slot_index() < old(self).ram().len(),
            SPRITE_G + old(self).slot_index() < old(self).ram().len(),
            SPRITE_HIT_TIMER + old(self).slot_index() < old(self).ram().len(),
            SPRITE_WALL_COLLISION + old(self).slot_index() < old(self).ram().len(),
            SPRITE_Z + old(self).slot_index() < old(self).ram().len(),
            SPRITE_HEALTH + old(self).slot_index() < old(self).ram().len(),
            SPRITE_F + old(self).slot_index() < old(self).ram().len(),
            SPRITE_X_RECOIL + old(self).slot_index() < old(self).ram().len(),
            SPRITE_Y_RECOIL + old(self).slot_index() < old(self).ram().len(),
            SPRITE_A + old(self).slot_index() < old(self).ram().len(),
            SPRITE_B + old(self).slot_index() < old(self).ram().len(),
            SPRITE_C + old(self).slot_index() < old(self).ram().len(),
            SPRITE_DRAW_WORK_BYTE_2 + old(self).slot_index() < old(self).ram().len(),
            SPRITE_SUBTYPE2 + old(self).slot_index() < old(self).ram().len(),
            SPRITE_IGNORE_PROJECTILE + old(self).slot_index() < old(self).ram().len(),
            SPRITE_OBJ_PRIO + old(self).slot_index() < old(self).ram().len(),
            SPRITE_OAM_FLAGS + old(self).slot_index() < old(self).ram().len(),
            SPRITE_STUNNED + old(self).slot_index() < old(self).ram().len(),
            SPRITE_INCOMING_DAMAGE + old(self).slot_index() < old(self).ram().len(),
            SPRITE_DRAW_WORK_BYTE_3 + old(self).slot_index() < old(self).ram().len(),
            SPRITE_DRAW_WORK_BYTE_4 + old(self).slot_index() < old(self).ram().len(),
            SPRITE_DRAW_WORK_BYTE_5 + old(self).slot_index() < old(self).ram().len(),
            SPRITE_DRAW_WORK_BYTE_1 + old(self).slot_index() < old(self).ram().len(),
            SPRITE_DRAW_I + old(self).slot_index() < old(self).ram().len(),
        ensures
            final(self).ram() == old(self).ram()
                .update(SPRITE_PAUSE + old(self).slot_index(), 0u8)
                .update(SPRITE_E + old(self).slot_index(), 0u8)
                .update(SPRITE_X_VELOCITY + old(self).slot_index(), 0u8)
                .update(SPRITE_Y_VELOCITY + old(self).slot_index(), 0u8)
                .update(SPRITE_Z_VELOCITY + old(self).slot_index(), 0u8)
                .update(SPRITE_X_SUBPIXEL + old(self).slot_index(), 0u8)
                .update(SPRITE_Y_SUBPIXEL + old(self).slot_index(), 0u8)
                .update(SPRITE_Z_SUBPIXEL + old(self).slot_index(), 0u8)
                .update(SPRITE_AI_STATE + old(self).slot_index(), 0u8)
                .update(SPRITE_GRAPHICS + old(self).slot_index(), 0u8)
                .update(SPRITE_D + old(self).slot_index(), 0u8)
                .update(SPRITE_DELAY_MAIN + old(self).slot_index(), 0u8)
                .update(SPRITE_DELAY_AUX1 + old(self).slot_index(), 0u8)
                .update(SPRITE_DELAY_AUX2 + old(self).slot_index(), 0u8)
                .update(SPRITE_DELAY_AUX4 + old(self).slot_index(), 0u8)
                .update(SPRITE_HEAD_DIR + old(self).slot_index(), 0u8)
                .update(SPRITE_ANIM_CLOCK + old(self).slot_index(), 0u8)
                .update(SPRITE_G + old(self).slot_index(), 0u8)
                .update(SPRITE_HIT_TIMER + old(self).slot_index(), 0u8)
                .update(SPRITE_WALL_COLLISION + old(self).slot_index(), 0u8)
                .update(SPRITE_Z + old(self).slot_index(), 0u8)
                .update(SPRITE_HEALTH + old(self).slot_index(), 0u8)
                .update(SPRITE_F + old(self).slot_index(), 0u8)
                .update(SPRITE_X_RECOIL + old(self).slot_index(), 0u8)
                .update(SPRITE_Y_RECOIL + old(self).slot_index(), 0u8)
                .update(SPRITE_A + old(self).slot_index(), 0u8)
                .update(SPRITE_B + old(self).slot_index(), 0u8)
                .update(SPRITE_C + old(self).slot_index(), 0u8)
                .update(SPRITE_DRAW_WORK_BYTE_2 + old(self).slot_index(), 0u8)
                .update(SPRITE_SUBTYPE2 + old(self).slot_index(), 0u8)
                .update(SPRITE_IGNORE_PROJECTILE + old(self).slot_index(), 0u8)
                .update(SPRITE_OBJ_PRIO + old(self).slot_index(), 0u8)
                .update(SPRITE_OAM_FLAGS + old(self).slot_index(), 0u8)
                .update(SPRITE_STUNNED + old(self).slot_index(), 0u8)
                .update(SPRITE_INCOMING_DAMAGE + old(self).slot_index(), 0u8)
                .update(SPRITE_DRAW_WORK_BYTE_3 + old(self).slot_index(), 0u8)
                .update(SPRITE_DRAW_WORK_BYTE_4 + old(self).slot_index(), 0u8)
                .update(SPRITE_DRAW_WORK_BYTE_5 + old(self).slot_index(), 0u8)
                .update(SPRITE_DRAW_WORK_BYTE_1 + old(self).slot_index(), 0u8)
                .update(SPRITE_DRAW_I + old(self).slot_index(), 0u8),
            final(self).slot_index() == old(self).slot_index(),
            final(final(self).ram)@ == final(old(self).ram)@,
    {
        proof {
            assert(self.ram@.len() == self.ram.len());
        }
        self.ram[SPRITE_PAUSE + self.slot] = 0;
        self.ram[SPRITE_E + self.slot] = 0;
        self.ram[SPRITE_X_VELOCITY + self.slot] = 0;
        self.ram[SPRITE_Y_VELOCITY + self.slot] = 0;
        self.ram[SPRITE_Z_VELOCITY + self.slot] = 0;
        self.ram[SPRITE_X_SUBPIXEL + self.slot] = 0;
        self.ram[SPRITE_Y_SUBPIXEL + self.slot] = 0;
        self.ram[SPRITE_Z_SUBPIXEL + self.slot] = 0;
        self.ram[SPRITE_AI_STATE + self.slot] = 0;
        self.ram[SPRITE_GRAPHICS + self.slot] = 0;
        self.ram[SPRITE_D + self.slot] = 0;
        self.ram[SPRITE_DELAY_MAIN + self.slot] = 0;
        self.ram[SPRITE_DELAY_AUX1 + self.slot] = 0;
        self.ram[SPRITE_DELAY_AUX2 + self.slot] = 0;
        self.ram[SPRITE_DELAY_AUX4 + self.slot] = 0;
        self.ram[SPRITE_HEAD_DIR + self.slot] = 0;
        self.ram[SPRITE_ANIM_CLOCK + self.slot] = 0;
        self.ram[SPRITE_G + self.slot] = 0;
        self.ram[SPRITE_HIT_TIMER + self.slot] = 0;
        self.ram[SPRITE_WALL_COLLISION + self.slot] = 0;
        self.ram[SPRITE_Z + self.slot] = 0;
        self.ram[SPRITE_HEALTH + self.slot] = 0;
        self.ram[SPRITE_F + self.slot] = 0;
        self.ram[SPRITE_X_RECOIL + self.slot] = 0;
        self.ram[SPRITE_Y_RECOIL + self.slot] = 0;
        self.ram[SPRITE_A + self.slot] = 0;
        self.ram[SPRITE_B + self.slot] = 0;
        self.ram[SPRITE_C + self.slot] = 0;
        self.ram[SPRITE_DRAW_WORK_BYTE_2 + self.slot] = 0;
        self.ram[SPRITE_SUBTYPE2 + self.slot] = 0;
        self.ram[SPRITE_IGNORE_PROJECTILE + self.slot] = 0;
        self.ram[SPRITE_OBJ_PRIO + self.slot] = 0;
        self.ram[SPRITE_OAM_FLAGS + self.slot] = 0;
        self.ram[SPRITE_STUNNED + self.slot] = 0;
        self.ram[SPRITE_INCOMING_DAMAGE + self.slot] = 0;
        self.ram[SPRITE_DRAW_WORK_BYTE_3 + self.slot] = 0;
        self.ram[SPRITE_DRAW_WORK_BYTE_4 + self.slot] = 0;
        self.ram[SPRITE_DRAW_WORK_BYTE_5 + self.slot] = 0;
        self.ram[SPRITE_DRAW_WORK_BYTE_1 + self.slot] = 0;
        self.ram[SPRITE_DRAW_I + self.slot] = 0;
    }

    pub fn set_x(&mut self, value: u16)
        requires
            SPRITE_X_LO + old(self).slot_index() < old(self).ram().len(),
            SPRITE_X_HI + old(self).slot_index() < old(self).ram().len(),
        ensures
            final(self).ram() == old(self).ram()
                .update(SPRITE_X_LO + old(self).slot_index(), types::low_byte(value))
                .update(SPRITE_X_HI + old(self).slot_index(), types::high_byte(value)),
            final(self).slot_index() == old(self).slot_index(),
            final(final(self).ram)@ == final(old(self).ram)@,
    {
        proof {
            assert(self.ram@.len() == self.ram.len());
        }
        write_position(self.ram, SPRITE_X_LO + self.slot, SPRITE_X_HI + self.slot, value);
    }

    pub fn set_x_low(&mut self, value: u8)
        requires
            SPRITE_X_LO + old(self).slot_index() < old(self).ram().len(),
        ensures
            final(self).ram() == old(self).ram().update(
                SPRITE_X_LO + old(self).slot_index(),
                value,
            ),
            final(self).slot_index() == old(self).slot_index(),
            final(final(self).ram)@ == final(old(self).ram)@,
    {
        proof {
            assert(self.ram@.len() == self.ram.len());
        }
        self.ram[SPRITE_X_LO + self.slot] = value;
    }

    pub fn set_x_high(&mut self, value: u8)
        requires
            SPRITE_X_HI + old(self).slot_index() < old(self).ram().len(),
        ensures
            final(self).ram() == old(self).ram().update(
                SPRITE_X_HI + old(self).slot_index(),
                value,
            ),
            final(self).slot_index() == old(self).slot_index(),
            final(final(self).ram)@ == final(old(self).ram)@,
    {
        proof {
            assert(self.ram@.len() == self.ram.len());
        }
        self.ram[SPRITE_X_HI + self.slot] = value;
    }

    pub fn add_x_low(&mut self, value: u8)
        requires
            SPRITE_X_LO + old(self).slot_index() < old(self).ram().len(),
        ensures
            final(self).ram() == old(self).ram().update(
                SPRITE_X_LO + old(self).slot_index(),
                old(self).ram()[SPRITE_X_LO + old(self).slot_index()].wrapping_add(value),
            ),
            final(self).slot_index() == old(self).slot_index(),
            final(final(self).ram)@ == final(old(self).ram)@,
    {
        proof {
            assert(self.ram@.len() == self.ram.len());
        }
        self.ram[SPRITE_X_LO + self.slot] = self.ram[SPRITE_X_LO + self.slot].wrapping_add(value);
    }

    pub fn subtract_x_low(&mut self, value: u8)
        requires
            SPRITE_X_LO + old(self).slot_index() < old(self).ram().len(),
        ensures
            final(self).ram() == old(self).ram().update(
                SPRITE_X_LO + old(self).slot_index(),
                old(self).ram()[SPRITE_X_LO + old(self).slot_index()].wrapping_sub(value),
            ),
            final(self).slot_index() == old(self).slot_index(),
            final(final(self).ram)@ == final(old(self).ram)@,
    {
        proof {
            assert(self.ram@.len() == self.ram.len());
        }
        self.ram[SPRITE_X_LO + self.slot] = self.ram[SPRITE_X_LO + self.slot].wrapping_sub(value);
    }

    pub fn set_y(&mut self, value: u16)
        requires
            SPRITE_Y_LO + old(self).slot_index() < old(self).ram().len(),
            SPRITE_Y_HI + old(self).slot_index() < old(self).ram().len(),
        ensures
            final(self).ram() == old(self).ram()
                .update(SPRITE_Y_LO + old(self).slot_index(), types::low_byte(value))
                .update(SPRITE_Y_HI + old(self).slot_index(), types::high_byte(value)),
            final(self).slot_index() == old(self).slot_index(),
            final(final(self).ram)@ == final(old(self).ram)@,
    {
        proof {
            assert(self.ram@.len() == self.ram.len());
        }
        write_position(self.ram, SPRITE_Y_LO + self.slot, SPRITE_Y_HI + self.slot, value);
    }

    pub fn set_y_high(&mut self, value: u8)
        requires
            SPRITE_Y_HI + old(self).slot_index() < old(self).ram().len(),
        ensures
            final(self).ram() == old(self).ram().update(
                SPRITE_Y_HI + old(self).slot_index(),
                value,
            ),
            final(self).slot_index() == old(self).slot_index(),
            final(final(self).ram)@ == final(old(self).ram)@,
    {
        proof {
            assert(self.ram@.len() == self.ram.len());
        }
        self.ram[SPRITE_Y_HI + self.slot] = value;
    }

    pub fn add_y_low(&mut self, value: u8)
        requires
            SPRITE_Y_LO + old(self).slot_index() < old(self).ram().len(),
        ensures
            final(self).ram() == old(self).ram().update(
                SPRITE_Y_LO + old(self).slot_index(),
                old(self).ram()[SPRITE_Y_LO + old(self).slot_index()].wrapping_add(value),
            ),
            final(self).slot_index() == old(self).slot_index(),
            final(final(self).ram)@ == final(old(self).ram)@,
    {
        proof {
            assert(self.ram@.len() == self.ram.len());
        }
        self.ram[SPRITE_Y_LO + self.slot] = self.ram[SPRITE_Y_LO + self.slot].wrapping_add(value);
    }

    pub fn subtract_y_low(&mut self, value: u8)
        requires
            SPRITE_Y_LO + old(self).slot_index() < old(self).ram().len(),
        ensures
            final(self).ram() == old(self).ram().update(
                SPRITE_Y_LO + old(self).slot_index(),
                old(self).ram()[SPRITE_Y_LO + old(self).slot_index()].wrapping_sub(value),
            ),
            final(self).slot_index() == old(self).slot_index(),
            final(final(self).ram)@ == final(old(self).ram)@,
    {
        proof {
            assert(self.ram@.len() == self.ram.len());
        }
        self.ram[SPRITE_Y_LO + self.slot] = self.ram[SPRITE_Y_LO + self.slot].wrapping_sub(value);
    }

    pub fn set_y_low(&mut self, value: u8)
        requires
            SPRITE_Y_LO + old(self).slot_index() < old(self).ram().len(),
        ensures
            final(self).ram() == old(self).ram().update(
                SPRITE_Y_LO + old(self).slot_index(),
                value,
            ),
            final(self).slot_index() == old(self).slot_index(),
            final(final(self).ram)@ == final(old(self).ram)@,
    {
        proof {
            assert(self.ram@.len() == self.ram.len());
        }
        self.ram[SPRITE_Y_LO + self.slot] = value;
    }

    pub fn set_x_velocity(&mut self, value: u8)
        requires
            SPRITE_X_VELOCITY + old(self).slot_index() < old(self).ram().len(),
        ensures
            final(self).ram() == old(self).ram().update(
                SPRITE_X_VELOCITY + old(self).slot_index(),
                value,
            ),
            final(self).slot_index() == old(self).slot_index(),
            final(final(self).ram)@ == final(old(self).ram)@,
    {
        proof {
            assert(self.ram@.len() == self.ram.len());
        }
        self.ram[SPRITE_X_VELOCITY + self.slot] = value;
    }

    pub fn set_y_velocity(&mut self, value: u8)
        requires
            SPRITE_Y_VELOCITY + old(self).slot_index() < old(self).ram().len(),
        ensures
            final(self).ram() == old(self).ram().update(
                SPRITE_Y_VELOCITY + old(self).slot_index(),
                value,
            ),
            final(self).slot_index() == old(self).slot_index(),
            final(final(self).ram)@ == final(old(self).ram)@,
    {
        proof {
            assert(self.ram@.len() == self.ram.len());
        }
        self.ram[SPRITE_Y_VELOCITY + self.slot] = value;
    }

    pub fn set_x_subpixel(&mut self, value: u8)
        requires
            SPRITE_X_SUBPIXEL + old(self).slot_index() < old(self).ram().len(),
        ensures
            final(self).ram() == old(self).ram().update(
                SPRITE_X_SUBPIXEL + old(self).slot_index(),
                value,
            ),
            final(self).slot_index() == old(self).slot_index(),
            final(final(self).ram)@ == final(old(self).ram)@,
    {
        proof {
            assert(self.ram@.len() == self.ram.len());
        }
        self.ram[SPRITE_X_SUBPIXEL + self.slot] = value;
    }

    pub fn set_y_subpixel(&mut self, value: u8)
        requires
            SPRITE_Y_SUBPIXEL + old(self).slot_index() < old(self).ram().len(),
        ensures
            final(self).ram() == old(self).ram().update(
                SPRITE_Y_SUBPIXEL + old(self).slot_index(),
                value,
            ),
            final(self).slot_index() == old(self).slot_index(),
            final(final(self).ram)@ == final(old(self).ram)@,
    {
        proof {
            assert(self.ram@.len() == self.ram.len());
        }
        self.ram[SPRITE_Y_SUBPIXEL + self.slot] = value;
    }

    pub fn set_z_velocity(&mut self, value: u8)
        requires
            SPRITE_Z_VELOCITY + old(self).slot_index() < old(self).ram().len(),
        ensures
            final(self).ram() == old(self).ram().update(
                SPRITE_Z_VELOCITY + old(self).slot_index(),
                value,
            ),
            final(self).slot_index() == old(self).slot_index(),
            final(final(self).ram)@ == final(old(self).ram)@,
    {
        proof {
            assert(self.ram@.len() == self.ram.len());
        }
        self.ram[SPRITE_Z_VELOCITY + self.slot] = value;
    }

    pub fn decrement_z_velocity(&mut self)
        requires
            SPRITE_Z_VELOCITY + old(self).slot_index() < old(self).ram().len(),
        ensures
            final(self).ram() == old(self).ram().update(
                SPRITE_Z_VELOCITY + old(self).slot_index(),
                old(self).ram()[SPRITE_Z_VELOCITY + old(self).slot_index()].wrapping_sub(1),
            ),
            final(self).slot_index() == old(self).slot_index(),
            final(final(self).ram)@ == final(old(self).ram)@,
    {
        proof {
            assert(self.ram@.len() == self.ram.len());
        }
        self.ram[SPRITE_Z_VELOCITY + self.slot] = self.ram[SPRITE_Z_VELOCITY + self.slot].wrapping_sub(1);
    }

    pub fn set_delay_aux4(&mut self, value: u8)
        requires
            SPRITE_DELAY_AUX4 + old(self).slot_index() < old(self).ram().len(),
        ensures
            final(self).ram() == old(self).ram().update(
                SPRITE_DELAY_AUX4 + old(self).slot_index(),
                value,
            ),
            final(self).slot_index() == old(self).slot_index(),
            final(final(self).ram)@ == final(old(self).ram)@,
    {
        proof {
            assert(self.ram@.len() == self.ram.len());
        }
        self.ram[SPRITE_DELAY_AUX4 + self.slot] = value;
    }

    pub fn set_delay_aux1(&mut self, value: u8)
        requires
            SPRITE_DELAY_AUX1 + old(self).slot_index() < old(self).ram().len(),
        ensures
            final(self).ram() == old(self).ram().update(
                SPRITE_DELAY_AUX1 + old(self).slot_index(),
                value,
            ),
            final(self).slot_index() == old(self).slot_index(),
            final(final(self).ram)@ == final(old(self).ram)@,
    {
        proof {
            assert(self.ram@.len() == self.ram.len());
        }
        self.ram[SPRITE_DELAY_AUX1 + self.slot] = value;
    }

    pub fn set_delay_aux2(&mut self, value: u8)
        requires
            SPRITE_DELAY_AUX2 + old(self).slot_index() < old(self).ram().len(),
        ensures
            final(self).ram() == old(self).ram().update(
                SPRITE_DELAY_AUX2 + old(self).slot_index(),
                value,
            ),
            final(self).slot_index() == old(self).slot_index(),
            final(final(self).ram)@ == final(old(self).ram)@,
    {
        proof {
            assert(self.ram@.len() == self.ram.len());
        }
        self.ram[SPRITE_DELAY_AUX2 + self.slot] = value;
    }

    pub fn set_delay_aux3(&mut self, value: u8)
        requires
            SPRITE_DELAY_AUX3 + old(self).slot_index() < old(self).ram().len(),
        ensures
            final(self).ram() == old(self).ram().update(
                SPRITE_DELAY_AUX3 + old(self).slot_index(),
                value,
            ),
            final(self).slot_index() == old(self).slot_index(),
            final(final(self).ram)@ == final(old(self).ram)@,
    {
        proof {
            assert(self.ram@.len() == self.ram.len());
        }
        self.ram[SPRITE_DELAY_AUX3 + self.slot] = value;
    }

    pub fn x_velocity(&self) -> (result: u8)
        requires
            SPRITE_X_VELOCITY + self.slot_index() < self.ram().len(),
        ensures
            result == self.ram()[SPRITE_X_VELOCITY + self.slot_index()],
    {
        proof {
            assert(self.ram@.len() == self.ram.len());
        }
        self.ram[SPRITE_X_VELOCITY + self.slot]
    }

    pub fn y_velocity(&self) -> (result: u8)
        requires
            SPRITE_Y_VELOCITY + self.slot_index() < self.ram().len(),
        ensures
            result == self.ram()[SPRITE_Y_VELOCITY + self.slot_index()],
    {
        proof {
            assert(self.ram@.len() == self.ram.len());
        }
        self.ram[SPRITE_Y_VELOCITY + self.slot]
    }

    pub fn add_x_velocity(&mut self, value: u8)
        requires
            SPRITE_X_VELOCITY + old(self).slot_index() < old(self).ram().len(),
        ensures
            final(self).ram() == old(self).ram().update(
                SPRITE_X_VELOCITY + old(self).slot_index(),
                old(self).ram()[SPRITE_X_VELOCITY + old(self).slot_index()].wrapping_add(value),
            ),
            final(self).slot_index() == old(self).slot_index(),
            final(final(self).ram)@ == final(old(self).ram)@,
    {
        proof {
            assert(self.ram@.len() == self.ram.len());
        }
        self.ram[SPRITE_X_VELOCITY + self.slot] = self.ram[SPRITE_X_VELOCITY + self.slot].wrapping_add(value);
    }

    pub fn add_y_velocity(&mut self, value: u8)
        requires
            SPRITE_Y_VELOCITY + old(self).slot_index() < old(self).ram().len(),
        ensures
            final(self).ram() == old(self).ram().update(
                SPRITE_Y_VELOCITY + old(self).slot_index(),
                old(self).ram()[SPRITE_Y_VELOCITY + old(self).slot_index()].wrapping_add(value),
            ),
            final(self).slot_index() == old(self).slot_index(),
            final(final(self).ram)@ == final(old(self).ram)@,
    {
        proof {
            assert(self.ram@.len() == self.ram.len());
        }
        self.ram[SPRITE_Y_VELOCITY + self.slot] = self.ram[SPRITE_Y_VELOCITY + self.slot].wrapping_add(value);
    }

    pub fn subtract_x_velocity(&mut self, value: u8)
        requires
            SPRITE_X_VELOCITY + old(self).slot_index() < old(self).ram().len(),
        ensures
            final(self).ram() == old(self).ram().update(
                SPRITE_X_VELOCITY + old(self).slot_index(),
                old(self).ram()[SPRITE_X_VELOCITY + old(self).slot_index()].wrapping_sub(value),
            ),
            final(self).slot_index() == old(self).slot_index(),
            final(final(self).ram)@ == final(old(self).ram)@,
    {
        proof {
            assert(self.ram@.len() == self.ram.len());
        }
        self.ram[SPRITE_X_VELOCITY + self.slot] = self.ram[SPRITE_X_VELOCITY + self.slot].wrapping_sub(value);
    }

    pub fn subtract_y_velocity(&mut self, value: u8)
        requires
            SPRITE_Y_VELOCITY + old(self).slot_index() < old(self).ram().len(),
        ensures
            final(self).ram() == old(self).ram().update(
                SPRITE_Y_VELOCITY + old(self).slot_index(),
                old(self).ram()[SPRITE_Y_VELOCITY + old(self).slot_index()].wrapping_sub(value),
            ),
            final(self).slot_index() == old(self).slot_index(),
            final(final(self).ram)@ == final(old(self).ram)@,
    {
        proof {
            assert(self.ram@.len() == self.ram.len());
        }
        self.ram[SPRITE_Y_VELOCITY + self.slot] = self.ram[SPRITE_Y_VELOCITY + self.slot].wrapping_sub(value);
    }

    pub fn xor_x_velocity(&mut self, value: u8)
        requires
            SPRITE_X_VELOCITY + old(self).slot_index() < old(self).ram().len(),
        ensures
            final(self).ram() == old(self).ram().update(
                SPRITE_X_VELOCITY + old(self).slot_index(),
                old(self).ram()[SPRITE_X_VELOCITY + old(self).slot_index()] ^ value,
            ),
            final(self).slot_index() == old(self).slot_index(),
            final(final(self).ram)@ == final(old(self).ram)@,
    {
        proof {
            assert(self.ram@.len() == self.ram.len());
        }
        self.ram[SPRITE_X_VELOCITY + self.slot] ^= value;
    }

    pub fn xor_y_velocity(&mut self, value: u8)
        requires
            SPRITE_Y_VELOCITY + old(self).slot_index() < old(self).ram().len(),
        ensures
            final(self).ram() == old(self).ram().update(
                SPRITE_Y_VELOCITY + old(self).slot_index(),
                old(self).ram()[SPRITE_Y_VELOCITY + old(self).slot_index()] ^ value,
            ),
            final(self).slot_index() == old(self).slot_index(),
            final(final(self).ram)@ == final(old(self).ram)@,
    {
        proof {
            assert(self.ram@.len() == self.ram.len());
        }
        self.ram[SPRITE_Y_VELOCITY + self.slot] ^= value;
    }

    pub fn add_z_velocity(&mut self, value: u8)
        requires
            SPRITE_Z_VELOCITY + old(self).slot_index() < old(self).ram().len(),
        ensures
            final(self).ram() == old(self).ram().update(
                SPRITE_Z_VELOCITY + old(self).slot_index(),
                old(self).ram()[SPRITE_Z_VELOCITY + old(self).slot_index()].wrapping_add(value),
            ),
            final(self).slot_index() == old(self).slot_index(),
            final(final(self).ram)@ == final(old(self).ram)@,
    {
        proof {
            assert(self.ram@.len() == self.ram.len());
        }
        self.ram[SPRITE_Z_VELOCITY + self.slot] = self.ram[SPRITE_Z_VELOCITY + self.slot].wrapping_add(value);
    }

    pub fn negate_z_velocity(&mut self)
        requires
            SPRITE_Z_VELOCITY + old(self).slot_index() < old(self).ram().len(),
        ensures
            final(self).ram() == old(self).ram().update(
                SPRITE_Z_VELOCITY + old(self).slot_index(),
                0u8.wrapping_sub(old(self).ram()[SPRITE_Z_VELOCITY + old(self).slot_index()]),
            ),
            final(self).slot_index() == old(self).slot_index(),
            final(final(self).ram)@ == final(old(self).ram)@,
    {
        proof {
            assert(self.ram@.len() == self.ram.len());
        }
        self.ram[SPRITE_Z_VELOCITY + self.slot] = 0u8.wrapping_sub(self.ram[SPRITE_Z_VELOCITY + self.slot]);
    }

    pub fn and_x_velocity(&mut self, value: u8)
        requires
            SPRITE_X_VELOCITY + old(self).slot_index() < old(self).ram().len(),
        ensures
            final(self).ram() == old(self).ram().update(
                SPRITE_X_VELOCITY + old(self).slot_index(),
                old(self).ram()[SPRITE_X_VELOCITY + old(self).slot_index()] & value,
            ),
            final(self).slot_index() == old(self).slot_index(),
            final(final(self).ram)@ == final(old(self).ram)@,
    {
        proof {
            assert(self.ram@.len() == self.ram.len());
        }
        self.ram[SPRITE_X_VELOCITY + self.slot] &= value;
    }

    pub fn and_y_velocity(&mut self, value: u8)
        requires
            SPRITE_Y_VELOCITY + old(self).slot_index() < old(self).ram().len(),
        ensures
            final(self).ram() == old(self).ram().update(
                SPRITE_Y_VELOCITY + old(self).slot_index(),
                old(self).ram()[SPRITE_Y_VELOCITY + old(self).slot_index()] & value,
            ),
            final(self).slot_index() == old(self).slot_index(),
            final(final(self).ram)@ == final(old(self).ram)@,
    {
        proof {
            assert(self.ram@.len() == self.ram.len());
        }
        self.ram[SPRITE_Y_VELOCITY + self.slot] &= value;
    }

    pub fn shift_x_velocity_left(&mut self, amount: u32)
        requires
            SPRITE_X_VELOCITY + old(self).slot_index() < old(self).ram().len(),
        ensures
            final(self).ram() == old(self).ram().update(
                SPRITE_X_VELOCITY + old(self).slot_index(),
                old(self).ram()[SPRITE_X_VELOCITY + old(self).slot_index()] << (amount & 7),
            ),
            final(self).slot_index() == old(self).slot_index(),
            final(final(self).ram)@ == final(old(self).ram)@,
    {
        proof {
            assert(self.ram@.len() == self.ram.len());
        }
        let shift = amount & 7;
        assert(shift < 8) by (bit_vector)
            requires
                shift == amount & 7,
        ;
        self.ram[SPRITE_X_VELOCITY + self.slot] = self.ram[SPRITE_X_VELOCITY + self.slot] << shift;
    }

    pub fn shift_y_velocity_left(&mut self, amount: u32)
        requires
            SPRITE_Y_VELOCITY + old(self).slot_index() < old(self).ram().len(),
        ensures
            final(self).ram() == old(self).ram().update(
                SPRITE_Y_VELOCITY + old(self).slot_index(),
                old(self).ram()[SPRITE_Y_VELOCITY + old(self).slot_index()] << (amount & 7),
            ),
            final(self).slot_index() == old(self).slot_index(),
            final(final(self).ram)@ == final(old(self).ram)@,
    {
        proof {
            assert(self.ram@.len() == self.ram.len());
        }
        let shift = amount & 7;
        assert(shift < 8) by (bit_vector)
            requires
                shift == amount & 7,
        ;
        self.ram[SPRITE_Y_VELOCITY + self.slot] = self.ram[SPRITE_Y_VELOCITY + self.slot] << shift;
    }

    pub fn negate_x_velocity(&mut self)
        requires
            SPRITE_X_VELOCITY + old(self).slot_index() < old(self).ram().len(),
        ensures
            final(self).ram() == old(self).ram().update(
                SPRITE_X_VELOCITY + old(self).slot_index(),
                0u8.wrapping_sub(old(self).ram()[SPRITE_X_VELOCITY + old(self).slot_index()]),
            ),
            final(self).slot_index() == old(self).slot_index(),
            final(final(self).ram)@ == final(old(self).ram)@,
    {
        proof {
            assert(self.ram@.len() == self.ram.len());
        }
        self.ram[SPRITE_X_VELOCITY + self.slot] = 0u8.wrapping_sub(self.ram[SPRITE_X_VELOCITY + self.slot]);
    }

    pub fn negate_y_velocity(&mut self)
        requires
            SPRITE_Y_VELOCITY + old(self).slot_index() < old(self).ram().len(),
        ensures
            final(self).ram() == old(self).ram().update(
                SPRITE_Y_VELOCITY + old(self).slot_index(),
                0u8.wrapping_sub(old(self).ram()[SPRITE_Y_VELOCITY + old(self).slot_index()]),
            ),
            final(self).slot_index() == old(self).slot_index(),
            final(final(self).ram)@ == final(old(self).ram)@,
    {
        proof {
            assert(self.ram@.len() == self.ram.len());
        }
        self.ram[SPRITE_Y_VELOCITY + self.slot] = 0u8.wrapping_sub(self.ram[SPRITE_Y_VELOCITY + self.slot]);
    }

    pub fn subtract_z_velocity(&mut self, value: u8)
        requires
            SPRITE_Z_VELOCITY + old(self).slot_index() < old(self).ram().len(),
        ensures
            final(self).ram() == old(self).ram().update(
                SPRITE_Z_VELOCITY + old(self).slot_index(),
                old(self).ram()[SPRITE_Z_VELOCITY + old(self).slot_index()].wrapping_sub(value),
            ),
            final(self).slot_index() == old(self).slot_index(),
            final(final(self).ram)@ == final(old(self).ram)@,
    {
        proof {
            assert(self.ram@.len() == self.ram.len());
        }
        self.ram[SPRITE_Z_VELOCITY + self.slot] = self.ram[SPRITE_Z_VELOCITY + self.slot].wrapping_sub(value);
    }

    pub fn halve_x_velocity(&mut self)
        requires
            SPRITE_X_VELOCITY + old(self).slot_index() < old(self).ram().len(),
        ensures
            final(self).ram() == old(self).ram().update(
                SPRITE_X_VELOCITY + old(self).slot_index(),
                ((old(self).ram()[SPRITE_X_VELOCITY + old(self).slot_index()] as i8) >> 1) as u8,
            ),
            final(self).slot_index() == old(self).slot_index(),
            final(final(self).ram)@ == final(old(self).ram)@,
    {
        proof {
            assert(self.ram@.len() == self.ram.len());
        }
        self.ram[SPRITE_X_VELOCITY + self.slot] = ((self.ram[SPRITE_X_VELOCITY + self.slot] as i8) >> 1) as u8;
    }

    pub fn halve_y_velocity(&mut self)
        requires
            SPRITE_Y_VELOCITY + old(self).slot_index() < old(self).ram().len(),
        ensures
            final(self).ram() == old(self).ram().update(
                SPRITE_Y_VELOCITY + old(self).slot_index(),
                ((old(self).ram()[SPRITE_Y_VELOCITY + old(self).slot_index()] as i8) >> 1) as u8,
            ),
            final(self).slot_index() == old(self).slot_index(),
            final(final(self).ram)@ == final(old(self).ram)@,
    {
        proof {
            assert(self.ram@.len() == self.ram.len());
        }
        self.ram[SPRITE_Y_VELOCITY + self.slot] = ((self.ram[SPRITE_Y_VELOCITY + self.slot] as i8) >> 1) as u8;
    }

    pub fn set_z(&mut self, value: u8)
        requires
            SPRITE_Z + old(self).slot_index() < old(self).ram().len(),
        ensures
            final(self).ram() == old(self).ram().update(SPRITE_Z + old(self).slot_index(), value),
            final(self).slot_index() == old(self).slot_index(),
            final(final(self).ram)@ == final(old(self).ram)@,
    {
        proof {
            assert(self.ram@.len() == self.ram.len());
        }
        self.ram[SPRITE_Z + self.slot] = value;
    }

    pub fn add_z(&mut self, value: u8)
        requires
            SPRITE_Z + old(self).slot_index() < old(self).ram().len(),
        ensures
            final(self).ram() == old(self).ram().update(
                SPRITE_Z + old(self).slot_index(),
                old(self).ram()[SPRITE_Z + old(self).slot_index()].wrapping_add(value),
            ),
            final(self).slot_index() == old(self).slot_index(),
            final(final(self).ram)@ == final(old(self).ram)@,
    {
        proof {
            assert(self.ram@.len() == self.ram.len());
        }
        self.ram[SPRITE_Z + self.slot] = self.ram[SPRITE_Z + self.slot].wrapping_add(value);
    }

    pub fn set_z_subpixel(&mut self, value: u8)
        requires
            SPRITE_Z_SUBPIXEL + old(self).slot_index() < old(self).ram().len(),
        ensures
            final(self).ram() == old(self).ram().update(
                SPRITE_Z_SUBPIXEL + old(self).slot_index(),
                value,
            ),
            final(self).slot_index() == old(self).slot_index(),
            final(final(self).ram)@ == final(old(self).ram)@,
    {
        proof {
            assert(self.ram@.len() == self.ram.len());
        }
        self.ram[SPRITE_Z_SUBPIXEL + self.slot] = value;
    }

    pub fn negate_z_subpixel(&mut self)
        requires
            SPRITE_Z_SUBPIXEL + old(self).slot_index() < old(self).ram().len(),
        ensures
            final(self).ram() == old(self).ram().update(
                SPRITE_Z_SUBPIXEL + old(self).slot_index(),
                0u8.wrapping_sub(old(self).ram()[SPRITE_Z_SUBPIXEL + old(self).slot_index()]),
            ),
            final(self).slot_index() == old(self).slot_index(),
            final(final(self).ram)@ == final(old(self).ram)@,
    {
        proof {
            assert(self.ram@.len() == self.ram.len());
        }
        self.ram[SPRITE_Z_SUBPIXEL + self.slot] = 0u8.wrapping_sub(self.ram[SPRITE_Z_SUBPIXEL + self.slot]);
    }

    pub fn increment_z_subpixel(&mut self) -> (result: u8)
        requires
            SPRITE_Z_SUBPIXEL + old(self).slot_index() < old(self).ram().len(),
        ensures
            result == old(self).ram()[SPRITE_Z_SUBPIXEL + old(self).slot_index()].wrapping_add(1),
            final(self).ram() == old(self).ram().update(
                SPRITE_Z_SUBPIXEL + old(self).slot_index(),
                old(self).ram()[SPRITE_Z_SUBPIXEL + old(self).slot_index()].wrapping_add(1),
            ),
            final(self).slot_index() == old(self).slot_index(),
            final(final(self).ram)@ == final(old(self).ram)@,
    {
        proof {
            assert(self.ram@.len() == self.ram.len());
        }
        self.ram[SPRITE_Z_SUBPIXEL + self.slot] = self.ram[SPRITE_Z_SUBPIXEL + self.slot].wrapping_add(1);
        self.ram[SPRITE_Z_SUBPIXEL + self.slot]
    }

    pub fn decrement_z_subpixel(&mut self) -> (result: u8)
        requires
            SPRITE_Z_SUBPIXEL + old(self).slot_index() < old(self).ram().len(),
        ensures
            result == old(self).ram()[SPRITE_Z_SUBPIXEL + old(self).slot_index()].wrapping_sub(1),
            final(self).ram() == old(self).ram().update(
                SPRITE_Z_SUBPIXEL + old(self).slot_index(),
                old(self).ram()[SPRITE_Z_SUBPIXEL + old(self).slot_index()].wrapping_sub(1),
            ),
            final(self).slot_index() == old(self).slot_index(),
            final(final(self).ram)@ == final(old(self).ram)@,
    {
        proof {
            assert(self.ram@.len() == self.ram.len());
        }
        self.ram[SPRITE_Z_SUBPIXEL + self.slot] = self.ram[SPRITE_Z_SUBPIXEL + self.slot].wrapping_sub(1);
        self.ram[SPRITE_Z_SUBPIXEL + self.slot]
    }

    pub fn set_ai_state(&mut self, value: u8)
        requires
            SPRITE_AI_STATE + old(self).slot_index() < old(self).ram().len(),
        ensures
            final(self).ram() == old(self).ram().update(
                SPRITE_AI_STATE + old(self).slot_index(),
                value,
            ),
            final(self).slot_index() == old(self).slot_index(),
            final(final(self).ram)@ == final(old(self).ram)@,
    {
        proof {
            assert(self.ram@.len() == self.ram.len());
        }
        self.ram[SPRITE_AI_STATE + self.slot] = value;
    }

    pub fn increment_ai_state(&mut self)
        requires
            SPRITE_AI_STATE + old(self).slot_index() < old(self).ram().len(),
        ensures
            final(self).ram() == old(self).ram().update(
                SPRITE_AI_STATE + old(self).slot_index(),
                old(self).ram()[SPRITE_AI_STATE + old(self).slot_index()].wrapping_add(1),
            ),
            final(self).slot_index() == old(self).slot_index(),
            final(final(self).ram)@ == final(old(self).ram)@,
    {
        proof {
            assert(self.ram@.len() == self.ram.len());
        }
        self.ram[SPRITE_AI_STATE + self.slot] = self.ram[SPRITE_AI_STATE + self.slot].wrapping_add(1);
    }

    pub fn decrement_ai_state(&mut self)
        requires
            SPRITE_AI_STATE + old(self).slot_index() < old(self).ram().len(),
        ensures
            final(self).ram() == old(self).ram().update(
                SPRITE_AI_STATE + old(self).slot_index(),
                old(self).ram()[SPRITE_AI_STATE + old(self).slot_index()].wrapping_sub(1),
            ),
            final(self).slot_index() == old(self).slot_index(),
            final(final(self).ram)@ == final(old(self).ram)@,
    {
        proof {
            assert(self.ram@.len() == self.ram.len());
        }
        self.ram[SPRITE_AI_STATE + self.slot] = self.ram[SPRITE_AI_STATE + self.slot].wrapping_sub(1);
    }

    pub fn add_ai_state(&mut self, value: u8)
        requires
            SPRITE_AI_STATE + old(self).slot_index() < old(self).ram().len(),
        ensures
            final(self).ram() == old(self).ram().update(
                SPRITE_AI_STATE + old(self).slot_index(),
                old(self).ram()[SPRITE_AI_STATE + old(self).slot_index()].wrapping_add(value),
            ),
            final(self).slot_index() == old(self).slot_index(),
            final(final(self).ram)@ == final(old(self).ram)@,
    {
        proof {
            assert(self.ram@.len() == self.ram.len());
        }
        self.ram[SPRITE_AI_STATE + self.slot] = self.ram[SPRITE_AI_STATE + self.slot].wrapping_add(value);
    }

    pub fn subtract_ai_state(&mut self, value: u8)
        requires
            SPRITE_AI_STATE + old(self).slot_index() < old(self).ram().len(),
        ensures
            final(self).ram() == old(self).ram().update(
                SPRITE_AI_STATE + old(self).slot_index(),
                old(self).ram()[SPRITE_AI_STATE + old(self).slot_index()].wrapping_sub(value),
            ),
            final(self).slot_index() == old(self).slot_index(),
            final(final(self).ram)@ == final(old(self).ram)@,
    {
        proof {
            assert(self.ram@.len() == self.ram.len());
        }
        self.ram[SPRITE_AI_STATE + self.slot] = self.ram[SPRITE_AI_STATE + self.slot].wrapping_sub(value);
    }

    pub fn set_a(&mut self, value: u8)
        requires
            SPRITE_A + old(self).slot_index() < old(self).ram().len(),
        ensures
            final(self).ram() == old(self).ram().update(SPRITE_A + old(self).slot_index(), value),
            final(self).slot_index() == old(self).slot_index(),
            final(final(self).ram)@ == final(old(self).ram)@,
    {
        proof {
            assert(self.ram@.len() == self.ram.len());
        }
        self.ram[SPRITE_A + self.slot] = value;
    }

    pub fn increment_a(&mut self)
        requires
            SPRITE_A + old(self).slot_index() < old(self).ram().len(),
        ensures
            final(self).ram() == old(self).ram().update(
                SPRITE_A + old(self).slot_index(),
                old(self).ram()[SPRITE_A + old(self).slot_index()].wrapping_add(1),
            ),
            final(self).slot_index() == old(self).slot_index(),
            final(final(self).ram)@ == final(old(self).ram)@,
    {
        proof {
            assert(self.ram@.len() == self.ram.len());
        }
        self.ram[SPRITE_A + self.slot] = self.ram[SPRITE_A + self.slot].wrapping_add(1);
    }

    pub fn xor_a(&mut self, value: u8)
        requires
            SPRITE_A + old(self).slot_index() < old(self).ram().len(),
        ensures
            final(self).ram() == old(self).ram().update(
                SPRITE_A + old(self).slot_index(),
                old(self).ram()[SPRITE_A + old(self).slot_index()] ^ value,
            ),
            final(self).slot_index() == old(self).slot_index(),
            final(final(self).ram)@ == final(old(self).ram)@,
    {
        proof {
            assert(self.ram@.len() == self.ram.len());
        }
        self.ram[SPRITE_A + self.slot] ^= value;
    }

    pub fn add_a(&mut self, value: u8)
        requires
            SPRITE_A + old(self).slot_index() < old(self).ram().len(),
        ensures
            final(self).ram() == old(self).ram().update(
                SPRITE_A + old(self).slot_index(),
                old(self).ram()[SPRITE_A + old(self).slot_index()].wrapping_add(value),
            ),
            final(self).slot_index() == old(self).slot_index(),
            final(final(self).ram)@ == final(old(self).ram)@,
    {
        proof {
            assert(self.ram@.len() == self.ram.len());
        }
        self.ram[SPRITE_A + self.slot] = self.ram[SPRITE_A + self.slot].wrapping_add(value);
    }

    pub fn decrement_a(&mut self)
        requires
            SPRITE_A + old(self).slot_index() < old(self).ram().len(),
        ensures
            final(self).ram() == old(self).ram().update(
                SPRITE_A + old(self).slot_index(),
                old(self).ram()[SPRITE_A + old(self).slot_index()].wrapping_sub(1),
            ),
            final(self).slot_index() == old(self).slot_index(),
            final(final(self).ram)@ == final(old(self).ram)@,
    {
        proof {
            assert(self.ram@.len() == self.ram.len());
        }
        self.ram[SPRITE_A + self.slot] = self.ram[SPRITE_A + self.slot].wrapping_sub(1);
    }

    pub fn subtract_a(&mut self, value: u8)
        requires
            SPRITE_A + old(self).slot_index() < old(self).ram().len(),
        ensures
            final(self).ram() == old(self).ram().update(
                SPRITE_A + old(self).slot_index(),
                old(self).ram()[SPRITE_A + old(self).slot_index()].wrapping_sub(value),
            ),
            final(self).slot_index() == old(self).slot_index(),
            final(final(self).ram)@ == final(old(self).ram)@,
    {
        proof {
            assert(self.ram@.len() == self.ram.len());
        }
        self.ram[SPRITE_A + self.slot] = self.ram[SPRITE_A + self.slot].wrapping_sub(value);
    }

    pub fn set_b(&mut self, value: u8)
        requires
            SPRITE_B + old(self).slot_index() < old(self).ram().len(),
        ensures
            final(self).ram() == old(self).ram().update(SPRITE_B + old(self).slot_index(), value),
            final(self).slot_index() == old(self).slot_index(),
            final(final(self).ram)@ == final(old(self).ram)@,
    {
        proof {
            assert(self.ram@.len() == self.ram.len());
        }
        self.ram[SPRITE_B + self.slot] = value;
    }

    pub fn increment_b(&mut self)
        requires
            SPRITE_B + old(self).slot_index() < old(self).ram().len(),
        ensures
            final(self).ram() == old(self).ram().update(
                SPRITE_B + old(self).slot_index(),
                old(self).ram()[SPRITE_B + old(self).slot_index()].wrapping_add(1),
            ),
            final(self).slot_index() == old(self).slot_index(),
            final(final(self).ram)@ == final(old(self).ram)@,
    {
        proof {
            assert(self.ram@.len() == self.ram.len());
        }
        self.ram[SPRITE_B + self.slot] = self.ram[SPRITE_B + self.slot].wrapping_add(1);
    }

    pub fn add_b(&mut self, value: u8)
        requires
            SPRITE_B + old(self).slot_index() < old(self).ram().len(),
        ensures
            final(self).ram() == old(self).ram().update(
                SPRITE_B + old(self).slot_index(),
                old(self).ram()[SPRITE_B + old(self).slot_index()].wrapping_add(value),
            ),
            final(self).slot_index() == old(self).slot_index(),
            final(final(self).ram)@ == final(old(self).ram)@,
    {
        proof {
            assert(self.ram@.len() == self.ram.len());
        }
        self.ram[SPRITE_B + self.slot] = self.ram[SPRITE_B + self.slot].wrapping_add(value);
    }

    pub fn subtract_b(&mut self, value: u8)
        requires
            SPRITE_B + old(self).slot_index() < old(self).ram().len(),
        ensures
            final(self).ram() == old(self).ram().update(
                SPRITE_B + old(self).slot_index(),
                old(self).ram()[SPRITE_B + old(self).slot_index()].wrapping_sub(value),
            ),
            final(self).slot_index() == old(self).slot_index(),
            final(final(self).ram)@ == final(old(self).ram)@,
    {
        proof {
            assert(self.ram@.len() == self.ram.len());
        }
        self.ram[SPRITE_B + self.slot] = self.ram[SPRITE_B + self.slot].wrapping_sub(value);
    }

    pub fn xor_b(&mut self, value: u8)
        requires
            SPRITE_B + old(self).slot_index() < old(self).ram().len(),
        ensures
            final(self).ram() == old(self).ram().update(
                SPRITE_B + old(self).slot_index(),
                old(self).ram()[SPRITE_B + old(self).slot_index()] ^ value,
            ),
            final(self).slot_index() == old(self).slot_index(),
            final(final(self).ram)@ == final(old(self).ram)@,
    {
        proof {
            assert(self.ram@.len() == self.ram.len());
        }
        self.ram[SPRITE_B + self.slot] ^= value;
    }

    pub fn set_c(&mut self, value: u8)
        requires
            SPRITE_C + old(self).slot_index() < old(self).ram().len(),
        ensures
            final(self).ram() == old(self).ram().update(SPRITE_C + old(self).slot_index(), value),
            final(self).slot_index() == old(self).slot_index(),
            final(final(self).ram)@ == final(old(self).ram)@,
    {
        proof {
            assert(self.ram@.len() == self.ram.len());
        }
        self.ram[SPRITE_C + self.slot] = value;
    }

    pub fn increment_c(&mut self)
        requires
            SPRITE_C + old(self).slot_index() < old(self).ram().len(),
        ensures
            final(self).ram() == old(self).ram().update(
                SPRITE_C + old(self).slot_index(),
                old(self).ram()[SPRITE_C + old(self).slot_index()].wrapping_add(1),
            ),
            final(self).slot_index() == old(self).slot_index(),
            final(final(self).ram)@ == final(old(self).ram)@,
    {
        proof {
            assert(self.ram@.len() == self.ram.len());
        }
        self.ram[SPRITE_C + self.slot] = self.ram[SPRITE_C + self.slot].wrapping_add(1);
    }

    pub fn add_c(&mut self, value: u8)
        requires
            SPRITE_C + old(self).slot_index() < old(self).ram().len(),
        ensures
            final(self).ram() == old(self).ram().update(
                SPRITE_C + old(self).slot_index(),
                old(self).ram()[SPRITE_C + old(self).slot_index()].wrapping_add(value),
            ),
            final(self).slot_index() == old(self).slot_index(),
            final(final(self).ram)@ == final(old(self).ram)@,
    {
        proof {
            assert(self.ram@.len() == self.ram.len());
        }
        self.ram[SPRITE_C + self.slot] = self.ram[SPRITE_C + self.slot].wrapping_add(value);
    }

    pub fn xor_c(&mut self, value: u8)
        requires
            SPRITE_C + old(self).slot_index() < old(self).ram().len(),
        ensures
            final(self).ram() == old(self).ram().update(
                SPRITE_C + old(self).slot_index(),
                old(self).ram()[SPRITE_C + old(self).slot_index()] ^ value,
            ),
            final(self).slot_index() == old(self).slot_index(),
            final(final(self).ram)@ == final(old(self).ram)@,
    {
        proof {
            assert(self.ram@.len() == self.ram.len());
        }
        self.ram[SPRITE_C + self.slot] ^= value;
    }

    pub fn decrement_c(&mut self)
        requires
            SPRITE_C + old(self).slot_index() < old(self).ram().len(),
        ensures
            final(self).ram() == old(self).ram().update(
                SPRITE_C + old(self).slot_index(),
                old(self).ram()[SPRITE_C + old(self).slot_index()].wrapping_sub(1),
            ),
            final(self).slot_index() == old(self).slot_index(),
            final(final(self).ram)@ == final(old(self).ram)@,
    {
        proof {
            assert(self.ram@.len() == self.ram.len());
        }
        self.ram[SPRITE_C + self.slot] = self.ram[SPRITE_C + self.slot].wrapping_sub(1);
    }

    pub fn set_e(&mut self, value: u8)
        requires
            SPRITE_E + old(self).slot_index() < old(self).ram().len(),
        ensures
            final(self).ram() == old(self).ram().update(SPRITE_E + old(self).slot_index(), value),
            final(self).slot_index() == old(self).slot_index(),
            final(final(self).ram)@ == final(old(self).ram)@,
    {
        proof {
            assert(self.ram@.len() == self.ram.len());
        }
        self.ram[SPRITE_E + self.slot] = value;
    }

    pub fn increment_e(&mut self) -> (result: u8)
        requires
            SPRITE_E + old(self).slot_index() < old(self).ram().len(),
        ensures
            result == old(self).ram()[SPRITE_E + old(self).slot_index()].wrapping_add(1),
            final(self).ram() == old(self).ram().update(
                SPRITE_E + old(self).slot_index(),
                old(self).ram()[SPRITE_E + old(self).slot_index()].wrapping_add(1),
            ),
            final(self).slot_index() == old(self).slot_index(),
            final(final(self).ram)@ == final(old(self).ram)@,
    {
        proof {
            assert(self.ram@.len() == self.ram.len());
        }
        self.ram[SPRITE_E + self.slot] = self.ram[SPRITE_E + self.slot].wrapping_add(1);
        self.ram[SPRITE_E + self.slot]
    }

    pub fn add_e(&mut self, value: u8)
        requires
            SPRITE_E + old(self).slot_index() < old(self).ram().len(),
        ensures
            final(self).ram() == old(self).ram().update(
                SPRITE_E + old(self).slot_index(),
                old(self).ram()[SPRITE_E + old(self).slot_index()].wrapping_add(value),
            ),
            final(self).slot_index() == old(self).slot_index(),
            final(final(self).ram)@ == final(old(self).ram)@,
    {
        proof {
            assert(self.ram@.len() == self.ram.len());
        }
        self.ram[SPRITE_E + self.slot] = self.ram[SPRITE_E + self.slot].wrapping_add(value);
    }

    pub fn decrement_e(&mut self) -> (result: u8)
        requires
            SPRITE_E + old(self).slot_index() < old(self).ram().len(),
        ensures
            result == old(self).ram()[SPRITE_E + old(self).slot_index()].wrapping_sub(1),
            final(self).ram() == old(self).ram().update(
                SPRITE_E + old(self).slot_index(),
                old(self).ram()[SPRITE_E + old(self).slot_index()].wrapping_sub(1),
            ),
            final(self).slot_index() == old(self).slot_index(),
            final(final(self).ram)@ == final(old(self).ram)@,
    {
        proof {
            assert(self.ram@.len() == self.ram.len());
        }
        self.ram[SPRITE_E + self.slot] = self.ram[SPRITE_E + self.slot].wrapping_sub(1);
        self.ram[SPRITE_E + self.slot]
    }

    pub fn set_direction(&mut self, value: u8)
        requires
            SPRITE_D + old(self).slot_index() < old(self).ram().len(),
        ensures
            final(self).ram() == old(self).ram().update(SPRITE_D + old(self).slot_index(), value),
            final(self).slot_index() == old(self).slot_index(),
            final(final(self).ram)@ == final(old(self).ram)@,
    {
        proof {
            assert(self.ram@.len() == self.ram.len());
        }
        self.ram[SPRITE_D + self.slot] = value;
    }

    pub fn add_direction(&mut self, value: u8)
        requires
            SPRITE_D + old(self).slot_index() < old(self).ram().len(),
        ensures
            final(self).ram() == old(self).ram().update(
                SPRITE_D + old(self).slot_index(),
                old(self).ram()[SPRITE_D + old(self).slot_index()].wrapping_add(value),
            ),
            final(self).slot_index() == old(self).slot_index(),
            final(final(self).ram)@ == final(old(self).ram)@,
    {
        proof {
            assert(self.ram@.len() == self.ram.len());
        }
        self.ram[SPRITE_D + self.slot] = self.ram[SPRITE_D + self.slot].wrapping_add(value);
    }

    pub fn and_direction(&mut self, value: u8)
        requires
            SPRITE_D + old(self).slot_index() < old(self).ram().len(),
        ensures
            final(self).ram() == old(self).ram().update(
                SPRITE_D + old(self).slot_index(),
                old(self).ram()[SPRITE_D + old(self).slot_index()] & value,
            ),
            final(self).slot_index() == old(self).slot_index(),
            final(final(self).ram)@ == final(old(self).ram)@,
    {
        proof {
            assert(self.ram@.len() == self.ram.len());
        }
        self.ram[SPRITE_D + self.slot] &= value;
    }

    pub fn increment_direction(&mut self)
        requires
            SPRITE_D + old(self).slot_index() < old(self).ram().len(),
        ensures
            final(self).ram() == old(self).ram().update(
                SPRITE_D + old(self).slot_index(),
                old(self).ram()[SPRITE_D + old(self).slot_index()].wrapping_add(1),
            ),
            final(self).slot_index() == old(self).slot_index(),
            final(final(self).ram)@ == final(old(self).ram)@,
    {
        proof {
            assert(self.ram@.len() == self.ram.len());
        }
        self.ram[SPRITE_D + self.slot] = self.ram[SPRITE_D + self.slot].wrapping_add(1);
    }

    pub fn xor_direction(&mut self, value: u8)
        requires
            SPRITE_D + old(self).slot_index() < old(self).ram().len(),
        ensures
            final(self).ram() == old(self).ram().update(
                SPRITE_D + old(self).slot_index(),
                old(self).ram()[SPRITE_D + old(self).slot_index()] ^ value,
            ),
            final(self).slot_index() == old(self).slot_index(),
            final(final(self).ram)@ == final(old(self).ram)@,
    {
        proof {
            assert(self.ram@.len() == self.ram.len());
        }
        self.ram[SPRITE_D + self.slot] ^= value;
    }

    pub fn set_delay_main(&mut self, value: u8)
        requires
            SPRITE_DELAY_MAIN + old(self).slot_index() < old(self).ram().len(),
        ensures
            final(self).ram() == old(self).ram().update(
                SPRITE_DELAY_MAIN + old(self).slot_index(),
                value,
            ),
            final(self).slot_index() == old(self).slot_index(),
            final(final(self).ram)@ == final(old(self).ram)@,
    {
        proof {
            assert(self.ram@.len() == self.ram.len());
        }
        self.ram[SPRITE_DELAY_MAIN + self.slot] = value;
    }

    pub fn increment_delay_main(&mut self)
        requires
            SPRITE_DELAY_MAIN + old(self).slot_index() < old(self).ram().len(),
        ensures
            final(self).ram() == old(self).ram().update(
                SPRITE_DELAY_MAIN + old(self).slot_index(),
                old(self).ram()[SPRITE_DELAY_MAIN + old(self).slot_index()].wrapping_add(1),
            ),
            final(self).slot_index() == old(self).slot_index(),
            final(final(self).ram)@ == final(old(self).ram)@,
    {
        proof {
            assert(self.ram@.len() == self.ram.len());
        }
        self.ram[SPRITE_DELAY_MAIN + self.slot] = self.ram[SPRITE_DELAY_MAIN + self.slot].wrapping_add(1);
    }

    pub fn add_delay_main(&mut self, value: u8)
        requires
            SPRITE_DELAY_MAIN + old(self).slot_index() < old(self).ram().len(),
        ensures
            final(self).ram() == old(self).ram().update(
                SPRITE_DELAY_MAIN + old(self).slot_index(),
                old(self).ram()[SPRITE_DELAY_MAIN + old(self).slot_index()].wrapping_add(value),
            ),
            final(self).slot_index() == old(self).slot_index(),
            final(final(self).ram)@ == final(old(self).ram)@,
    {
        proof {
            assert(self.ram@.len() == self.ram.len());
        }
        self.ram[SPRITE_DELAY_MAIN + self.slot] = self.ram[SPRITE_DELAY_MAIN + self.slot].wrapping_add(value);
    }

    pub fn subtract_delay_main(&mut self, value: u8)
        requires
            SPRITE_DELAY_MAIN + old(self).slot_index() < old(self).ram().len(),
        ensures
            final(self).ram() == old(self).ram().update(
                SPRITE_DELAY_MAIN + old(self).slot_index(),
                old(self).ram()[SPRITE_DELAY_MAIN + old(self).slot_index()].wrapping_sub(value),
            ),
            final(self).slot_index() == old(self).slot_index(),
            final(final(self).ram)@ == final(old(self).ram)@,
    {
        proof {
            assert(self.ram@.len() == self.ram.len());
        }
        self.ram[SPRITE_DELAY_MAIN + self.slot] = self.ram[SPRITE_DELAY_MAIN + self.slot].wrapping_sub(value);
    }

    pub fn halve_delay_main(&mut self)
        requires
            SPRITE_DELAY_MAIN + old(self).slot_index() < old(self).ram().len(),
        ensures
            final(self).ram() == old(self).ram().update(
                SPRITE_DELAY_MAIN + old(self).slot_index(),
                old(self).ram()[SPRITE_DELAY_MAIN + old(self).slot_index()] >> 1,
            ),
            final(self).slot_index() == old(self).slot_index(),
            final(final(self).ram)@ == final(old(self).ram)@,
    {
        proof {
            assert(self.ram@.len() == self.ram.len());
        }
        self.ram[SPRITE_DELAY_MAIN + self.slot] >>= 1;
    }

    pub fn set_head_direction(&mut self, value: u8)
        requires
            SPRITE_HEAD_DIR + old(self).slot_index() < old(self).ram().len(),
        ensures
            final(self).ram() == old(self).ram().update(
                SPRITE_HEAD_DIR + old(self).slot_index(),
                value,
            ),
            final(self).slot_index() == old(self).slot_index(),
            final(final(self).ram)@ == final(old(self).ram)@,
    {
        proof {
            assert(self.ram@.len() == self.ram.len());
        }
        self.ram[SPRITE_HEAD_DIR + self.slot] = value;
    }

    pub fn increment_head_direction(&mut self)
        requires
            SPRITE_HEAD_DIR + old(self).slot_index() < old(self).ram().len(),
        ensures
            final(self).ram() == old(self).ram().update(
                SPRITE_HEAD_DIR + old(self).slot_index(),
                old(self).ram()[SPRITE_HEAD_DIR + old(self).slot_index()].wrapping_add(1),
            ),
            final(self).slot_index() == old(self).slot_index(),
            final(final(self).ram)@ == final(old(self).ram)@,
    {
        proof {
            assert(self.ram@.len() == self.ram.len());
        }
        self.ram[SPRITE_HEAD_DIR + self.slot] = self.ram[SPRITE_HEAD_DIR + self.slot].wrapping_add(1);
    }

    pub fn add_head_direction(&mut self, value: u8)
        requires
            SPRITE_HEAD_DIR + old(self).slot_index() < old(self).ram().len(),
        ensures
            final(self).ram() == old(self).ram().update(
                SPRITE_HEAD_DIR + old(self).slot_index(),
                old(self).ram()[SPRITE_HEAD_DIR + old(self).slot_index()].wrapping_add(value),
            ),
            final(self).slot_index() == old(self).slot_index(),
            final(final(self).ram)@ == final(old(self).ram)@,
    {
        proof {
            assert(self.ram@.len() == self.ram.len());
        }
        self.ram[SPRITE_HEAD_DIR + self.slot] = self.ram[SPRITE_HEAD_DIR + self.slot].wrapping_add(value);
    }

    pub fn decrement_head_direction(&mut self)
        requires
            SPRITE_HEAD_DIR + old(self).slot_index() < old(self).ram().len(),
        ensures
            final(self).ram() == old(self).ram().update(
                SPRITE_HEAD_DIR + old(self).slot_index(),
                old(self).ram()[SPRITE_HEAD_DIR + old(self).slot_index()].wrapping_sub(1),
            ),
            final(self).slot_index() == old(self).slot_index(),
            final(final(self).ram)@ == final(old(self).ram)@,
    {
        proof {
            assert(self.ram@.len() == self.ram.len());
        }
        self.ram[SPRITE_HEAD_DIR + self.slot] = self.ram[SPRITE_HEAD_DIR + self.slot].wrapping_sub(1);
    }

    pub fn increment_head_direction_mod16(&mut self)
        requires
            SPRITE_HEAD_DIR + old(self).slot_index() < old(self).ram().len(),
        ensures
            final(self).ram() == old(self).ram().update(
                SPRITE_HEAD_DIR + old(self).slot_index(),
                old(self).ram()[SPRITE_HEAD_DIR + old(self).slot_index()].wrapping_add(1) & 15u8,
            ),
            final(self).slot_index() == old(self).slot_index(),
            final(final(self).ram)@ == final(old(self).ram)@,
    {
        proof {
            assert(self.ram@.len() == self.ram.len());
        }
        self.ram[SPRITE_HEAD_DIR + self.slot] = self.ram[SPRITE_HEAD_DIR + self.slot].wrapping_add(1) & 15;
    }

    pub fn set_graphics(&mut self, value: u8)
        requires
            SPRITE_GRAPHICS + old(self).slot_index() < old(self).ram().len(),
        ensures
            final(self).ram() == old(self).ram().update(
                SPRITE_GRAPHICS + old(self).slot_index(),
                value,
            ),
            final(self).slot_index() == old(self).slot_index(),
            final(final(self).ram)@ == final(old(self).ram)@,
    {
        proof {
            assert(self.ram@.len() == self.ram.len());
        }
        self.ram[SPRITE_GRAPHICS + self.slot] = value;
    }

    pub fn increment_graphics(&mut self)
        requires
            SPRITE_GRAPHICS + old(self).slot_index() < old(self).ram().len(),
        ensures
            final(self).ram() == old(self).ram().update(
                SPRITE_GRAPHICS + old(self).slot_index(),
                old(self).ram()[SPRITE_GRAPHICS + old(self).slot_index()].wrapping_add(1),
            ),
            final(self).slot_index() == old(self).slot_index(),
            final(final(self).ram)@ == final(old(self).ram)@,
    {
        proof {
            assert(self.ram@.len() == self.ram.len());
        }
        self.ram[SPRITE_GRAPHICS + self.slot] = self.ram[SPRITE_GRAPHICS + self.slot].wrapping_add(1);
    }

    pub fn add_graphics(&mut self, value: u8)
        requires
            SPRITE_GRAPHICS + old(self).slot_index() < old(self).ram().len(),
        ensures
            final(self).ram() == old(self).ram().update(
                SPRITE_GRAPHICS + old(self).slot_index(),
                old(self).ram()[SPRITE_GRAPHICS + old(self).slot_index()].wrapping_add(value),
            ),
            final(self).slot_index() == old(self).slot_index(),
            final(final(self).ram)@ == final(old(self).ram)@,
    {
        proof {
            assert(self.ram@.len() == self.ram.len());
        }
        self.ram[SPRITE_GRAPHICS + self.slot] = self.ram[SPRITE_GRAPHICS + self.slot].wrapping_add(value);
    }

    pub fn decrement_graphics(&mut self)
        requires
            SPRITE_GRAPHICS + old(self).slot_index() < old(self).ram().len(),
        ensures
            final(self).ram() == old(self).ram().update(
                SPRITE_GRAPHICS + old(self).slot_index(),
                old(self).ram()[SPRITE_GRAPHICS + old(self).slot_index()].wrapping_sub(1),
            ),
            final(self).slot_index() == old(self).slot_index(),
            final(final(self).ram)@ == final(old(self).ram)@,
    {
        proof {
            assert(self.ram@.len() == self.ram.len());
        }
        self.ram[SPRITE_GRAPHICS + self.slot] = self.ram[SPRITE_GRAPHICS + self.slot].wrapping_sub(1);
    }

    pub fn xor_graphics(&mut self, value: u8)
        requires
            SPRITE_GRAPHICS + old(self).slot_index() < old(self).ram().len(),
        ensures
            final(self).ram() == old(self).ram().update(
                SPRITE_GRAPHICS + old(self).slot_index(),
                old(self).ram()[SPRITE_GRAPHICS + old(self).slot_index()] ^ value,
            ),
            final(self).slot_index() == old(self).slot_index(),
            final(final(self).ram)@ == final(old(self).ram)@,
    {
        proof {
            assert(self.ram@.len() == self.ram.len());
        }
        self.ram[SPRITE_GRAPHICS + self.slot] ^= value;
    }

    pub fn set_flags2(&mut self, value: u8)
        requires
            SPRITE_FLAGS2 + old(self).slot_index() < old(self).ram().len(),
        ensures
            final(self).ram() == old(self).ram().update(
                SPRITE_FLAGS2 + old(self).slot_index(),
                value,
            ),
            final(self).slot_index() == old(self).slot_index(),
            final(final(self).ram)@ == final(old(self).ram)@,
    {
        proof {
            assert(self.ram@.len() == self.ram.len());
        }
        self.ram[SPRITE_FLAGS2 + self.slot] = value;
    }

    pub fn add_flags2(&mut self, value: u8)
        requires
            SPRITE_FLAGS2 + old(self).slot_index() < old(self).ram().len(),
        ensures
            final(self).ram() == old(self).ram().update(
                SPRITE_FLAGS2 + old(self).slot_index(),
                old(self).ram()[SPRITE_FLAGS2 + old(self).slot_index()].wrapping_add(value),
            ),
            final(self).slot_index() == old(self).slot_index(),
            final(final(self).ram)@ == final(old(self).ram)@,
    {
        proof {
            assert(self.ram@.len() == self.ram.len());
        }
        self.ram[SPRITE_FLAGS2 + self.slot] = self.ram[SPRITE_FLAGS2 + self.slot].wrapping_add(value);
    }

    pub fn subtract_flags2(&mut self, value: u8)
        requires
            SPRITE_FLAGS2 + old(self).slot_index() < old(self).ram().len(),
        ensures
            final(self).ram() == old(self).ram().update(
                SPRITE_FLAGS2 + old(self).slot_index(),
                old(self).ram()[SPRITE_FLAGS2 + old(self).slot_index()].wrapping_sub(value),
            ),
            final(self).slot_index() == old(self).slot_index(),
            final(final(self).ram)@ == final(old(self).ram)@,
    {
        proof {
            assert(self.ram@.len() == self.ram.len());
        }
        self.ram[SPRITE_FLAGS2 + self.slot] = self.ram[SPRITE_FLAGS2 + self.slot].wrapping_sub(value);
    }

    pub fn and_flags2(&mut self, value: u8)
        requires
            SPRITE_FLAGS2 + old(self).slot_index() < old(self).ram().len(),
        ensures
            final(self).ram() == old(self).ram().update(
                SPRITE_FLAGS2 + old(self).slot_index(),
                old(self).ram()[SPRITE_FLAGS2 + old(self).slot_index()] & value,
            ),
            final(self).slot_index() == old(self).slot_index(),
            final(final(self).ram)@ == final(old(self).ram)@,
    {
        proof {
            assert(self.ram@.len() == self.ram.len());
        }
        self.ram[SPRITE_FLAGS2 + self.slot] &= value;
    }

    pub fn or_flags2(&mut self, value: u8)
        requires
            SPRITE_FLAGS2 + old(self).slot_index() < old(self).ram().len(),
        ensures
            final(self).ram() == old(self).ram().update(
                SPRITE_FLAGS2 + old(self).slot_index(),
                old(self).ram()[SPRITE_FLAGS2 + old(self).slot_index()] | value,
            ),
            final(self).slot_index() == old(self).slot_index(),
            final(final(self).ram)@ == final(old(self).ram)@,
    {
        proof {
            assert(self.ram@.len() == self.ram.len());
        }
        self.ram[SPRITE_FLAGS2 + self.slot] |= value;
    }

    pub fn masked_or_flags2(&mut self, mask: u8, value: u8)
        requires
            SPRITE_FLAGS2 + old(self).slot_index() < old(self).ram().len(),
        ensures
            final(self).ram() == old(self).ram().update(
                SPRITE_FLAGS2 + old(self).slot_index(),
                (old(self).ram()[SPRITE_FLAGS2 + old(self).slot_index()] & mask) | value,
            ),
            final(self).slot_index() == old(self).slot_index(),
            final(final(self).ram)@ == final(old(self).ram)@,
    {
        proof {
            assert(self.ram@.len() == self.ram.len());
        }
        self.ram[SPRITE_FLAGS2 + self.slot] = (self.ram[SPRITE_FLAGS2 + self.slot] & mask) | value;
    }

    pub fn set_flags(&mut self, value: u8)
        requires
            SPRITE_FLAGS + old(self).slot_index() < old(self).ram().len(),
        ensures
            final(self).ram() == old(self).ram().update(
                SPRITE_FLAGS + old(self).slot_index(),
                value,
            ),
            final(self).slot_index() == old(self).slot_index(),
            final(final(self).ram)@ == final(old(self).ram)@,
    {
        proof {
            assert(self.ram@.len() == self.ram.len());
        }
        self.ram[SPRITE_FLAGS + self.slot] = value;
    }

    pub fn masked_or_flags(&mut self, mask: u8, value: u8)
        requires
            SPRITE_FLAGS + old(self).slot_index() < old(self).ram().len(),
        ensures
            final(self).ram() == old(self).ram().update(
                SPRITE_FLAGS + old(self).slot_index(),
                (old(self).ram()[SPRITE_FLAGS + old(self).slot_index()] & mask) | value,
            ),
            final(self).slot_index() == old(self).slot_index(),
            final(final(self).ram)@ == final(old(self).ram)@,
    {
        proof {
            assert(self.ram@.len() == self.ram.len());
        }
        self.ram[SPRITE_FLAGS + self.slot] = (self.ram[SPRITE_FLAGS + self.slot] & mask) | value;
    }

    pub fn set_flags3(&mut self, value: u8)
        requires
            SPRITE_FLAGS3 + old(self).slot_index() < old(self).ram().len(),
        ensures
            final(self).ram() == old(self).ram().update(
                SPRITE_FLAGS3 + old(self).slot_index(),
                value,
            ),
            final(self).slot_index() == old(self).slot_index(),
            final(final(self).ram)@ == final(old(self).ram)@,
    {
        proof {
            assert(self.ram@.len() == self.ram.len());
        }
        self.ram[SPRITE_FLAGS3 + self.slot] = value;
    }

    pub fn and_flags3(&mut self, value: u8)
        requires
            SPRITE_FLAGS3 + old(self).slot_index() < old(self).ram().len(),
        ensures
            final(self).ram() == old(self).ram().update(
                SPRITE_FLAGS3 + old(self).slot_index(),
                old(self).ram()[SPRITE_FLAGS3 + old(self).slot_index()] & value,
            ),
            final(self).slot_index() == old(self).slot_index(),
            final(final(self).ram)@ == final(old(self).ram)@,
    {
        proof {
            assert(self.ram@.len() == self.ram.len());
        }
        self.ram[SPRITE_FLAGS3 + self.slot] &= value;
    }

    pub fn clear_flags3_bits(&mut self, mask: u8)
        requires
            SPRITE_FLAGS3 + old(self).slot_index() < old(self).ram().len(),
        ensures
            final(self).ram() == old(self).ram().update(
                SPRITE_FLAGS3 + old(self).slot_index(),
                old(self).ram()[SPRITE_FLAGS3 + old(self).slot_index()] & (!mask),
            ),
            final(self).slot_index() == old(self).slot_index(),
            final(final(self).ram)@ == final(old(self).ram)@,
    {
        proof {
            assert(self.ram@.len() == self.ram.len());
        }
        self.ram[SPRITE_FLAGS3 + self.slot] &= !mask;
    }

    pub fn set_flags4(&mut self, value: u8)
        requires
            SPRITE_FLAGS4 + old(self).slot_index() < old(self).ram().len(),
        ensures
            final(self).ram() == old(self).ram().update(
                SPRITE_FLAGS4 + old(self).slot_index(),
                value,
            ),
            final(self).slot_index() == old(self).slot_index(),
            final(final(self).ram)@ == final(old(self).ram)@,
    {
        proof {
            assert(self.ram@.len() == self.ram.len());
        }
        self.ram[SPRITE_FLAGS4 + self.slot] = value;
    }

    pub fn increment_flags4(&mut self)
        requires
            SPRITE_FLAGS4 + old(self).slot_index() < old(self).ram().len(),
        ensures
            final(self).ram() == old(self).ram().update(
                SPRITE_FLAGS4 + old(self).slot_index(),
                old(self).ram()[SPRITE_FLAGS4 + old(self).slot_index()].wrapping_add(1),
            ),
            final(self).slot_index() == old(self).slot_index(),
            final(final(self).ram)@ == final(old(self).ram)@,
    {
        proof {
            assert(self.ram@.len() == self.ram.len());
        }
        self.ram[SPRITE_FLAGS4 + self.slot] = self.ram[SPRITE_FLAGS4 + self.slot].wrapping_add(1);
    }

    pub fn or_flags4(&mut self, value: u8)
        requires
            SPRITE_FLAGS4 + old(self).slot_index() < old(self).ram().len(),
        ensures
            final(self).ram() == old(self).ram().update(
                SPRITE_FLAGS4 + old(self).slot_index(),
                old(self).ram()[SPRITE_FLAGS4 + old(self).slot_index()] | value,
            ),
            final(self).slot_index() == old(self).slot_index(),
            final(final(self).ram)@ == final(old(self).ram)@,
    {
        proof {
            assert(self.ram@.len() == self.ram.len());
        }
        self.ram[SPRITE_FLAGS4 + self.slot] |= value;
    }

    pub fn set_flags5(&mut self, value: u8)
        requires
            SPRITE_FLAGS5 + old(self).slot_index() < old(self).ram().len(),
        ensures
            final(self).ram() == old(self).ram().update(
                SPRITE_FLAGS5 + old(self).slot_index(),
                value,
            ),
            final(self).slot_index() == old(self).slot_index(),
            final(final(self).ram)@ == final(old(self).ram)@,
    {
        proof {
            assert(self.ram@.len() == self.ram.len());
        }
        self.ram[SPRITE_FLAGS5 + self.slot] = value;
    }

    pub fn and_flags5(&mut self, value: u8)
        requires
            SPRITE_FLAGS5 + old(self).slot_index() < old(self).ram().len(),
        ensures
            final(self).ram() == old(self).ram().update(
                SPRITE_FLAGS5 + old(self).slot_index(),
                old(self).ram()[SPRITE_FLAGS5 + old(self).slot_index()] & value,
            ),
            final(self).slot_index() == old(self).slot_index(),
            final(final(self).ram)@ == final(old(self).ram)@,
    {
        proof {
            assert(self.ram@.len() == self.ram.len());
        }
        self.ram[SPRITE_FLAGS5 + self.slot] &= value;
    }

    pub fn or_flags3(&mut self, value: u8)
        requires
            SPRITE_FLAGS3 + old(self).slot_index() < old(self).ram().len(),
        ensures
            final(self).ram() == old(self).ram().update(
                SPRITE_FLAGS3 + old(self).slot_index(),
                old(self).ram()[SPRITE_FLAGS3 + old(self).slot_index()] | value,
            ),
            final(self).slot_index() == old(self).slot_index(),
            final(final(self).ram)@ == final(old(self).ram)@,
    {
        proof {
            assert(self.ram@.len() == self.ram.len());
        }
        self.ram[SPRITE_FLAGS3 + self.slot] |= value;
    }

    pub fn xor_flags3(&mut self, value: u8)
        requires
            SPRITE_FLAGS3 + old(self).slot_index() < old(self).ram().len(),
        ensures
            final(self).ram() == old(self).ram().update(
                SPRITE_FLAGS3 + old(self).slot_index(),
                old(self).ram()[SPRITE_FLAGS3 + old(self).slot_index()] ^ value,
            ),
            final(self).slot_index() == old(self).slot_index(),
            final(final(self).ram)@ == final(old(self).ram)@,
    {
        proof {
            assert(self.ram@.len() == self.ram.len());
        }
        self.ram[SPRITE_FLAGS3 + self.slot] ^= value;
    }

    pub fn masked_or_flags3(&mut self, mask: u8, value: u8)
        requires
            SPRITE_FLAGS3 + old(self).slot_index() < old(self).ram().len(),
        ensures
            final(self).ram() == old(self).ram().update(
                SPRITE_FLAGS3 + old(self).slot_index(),
                (old(self).ram()[SPRITE_FLAGS3 + old(self).slot_index()] & mask) | value,
            ),
            final(self).slot_index() == old(self).slot_index(),
            final(final(self).ram)@ == final(old(self).ram)@,
    {
        proof {
            assert(self.ram@.len() == self.ram.len());
        }
        self.ram[SPRITE_FLAGS3 + self.slot] = (self.ram[SPRITE_FLAGS3 + self.slot] & mask) | value;
    }

    pub fn set_subtype2(&mut self, value: u8)
        requires
            SPRITE_SUBTYPE2 + old(self).slot_index() < old(self).ram().len(),
        ensures
            final(self).ram() == old(self).ram().update(
                SPRITE_SUBTYPE2 + old(self).slot_index(),
                value,
            ),
            final(self).slot_index() == old(self).slot_index(),
            final(final(self).ram)@ == final(old(self).ram)@,
    {
        proof {
            assert(self.ram@.len() == self.ram.len());
        }
        self.ram[SPRITE_SUBTYPE2 + self.slot] = value;
    }

    pub fn increment_subtype2(&mut self)
        requires
            SPRITE_SUBTYPE2 + old(self).slot_index() < old(self).ram().len(),
        ensures
            final(self).ram() == old(self).ram().update(
                SPRITE_SUBTYPE2 + old(self).slot_index(),
                old(self).ram()[SPRITE_SUBTYPE2 + old(self).slot_index()].wrapping_add(1),
            ),
            final(self).slot_index() == old(self).slot_index(),
            final(final(self).ram)@ == final(old(self).ram)@,
    {
        proof {
            assert(self.ram@.len() == self.ram.len());
        }
        self.ram[SPRITE_SUBTYPE2 + self.slot] = self.ram[SPRITE_SUBTYPE2 + self.slot].wrapping_add(1);
    }

    pub fn add_subtype2(&mut self, value: u8)
        requires
            SPRITE_SUBTYPE2 + old(self).slot_index() < old(self).ram().len(),
        ensures
            final(self).ram() == old(self).ram().update(
                SPRITE_SUBTYPE2 + old(self).slot_index(),
                old(self).ram()[SPRITE_SUBTYPE2 + old(self).slot_index()].wrapping_add(value),
            ),
            final(self).slot_index() == old(self).slot_index(),
            final(final(self).ram)@ == final(old(self).ram)@,
    {
        proof {
            assert(self.ram@.len() == self.ram.len());
        }
        self.ram[SPRITE_SUBTYPE2 + self.slot] = self.ram[SPRITE_SUBTYPE2 + self.slot].wrapping_add(value);
    }

    pub fn decrement_subtype2(&mut self) -> (result: u8)
        requires
            SPRITE_SUBTYPE2 + old(self).slot_index() < old(self).ram().len(),
        ensures
            result == old(self).ram()[SPRITE_SUBTYPE2 + old(self).slot_index()].wrapping_sub(1),
            final(self).ram() == old(self).ram().update(
                SPRITE_SUBTYPE2 + old(self).slot_index(),
                old(self).ram()[SPRITE_SUBTYPE2 + old(self).slot_index()].wrapping_sub(1),
            ),
            final(self).slot_index() == old(self).slot_index(),
            final(final(self).ram)@ == final(old(self).ram)@,
    {
        proof {
            assert(self.ram@.len() == self.ram.len());
        }
        self.ram[SPRITE_SUBTYPE2 + self.slot] = self.ram[SPRITE_SUBTYPE2 + self.slot].wrapping_sub(1);
        self.ram[SPRITE_SUBTYPE2 + self.slot]
    }

    pub fn subtract_subtype2(&mut self, value: u8)
        requires
            SPRITE_SUBTYPE2 + old(self).slot_index() < old(self).ram().len(),
        ensures
            final(self).ram() == old(self).ram().update(
                SPRITE_SUBTYPE2 + old(self).slot_index(),
                old(self).ram()[SPRITE_SUBTYPE2 + old(self).slot_index()].wrapping_sub(value),
            ),
            final(self).slot_index() == old(self).slot_index(),
            final(final(self).ram)@ == final(old(self).ram)@,
    {
        proof {
            assert(self.ram@.len() == self.ram.len());
        }
        self.ram[SPRITE_SUBTYPE2 + self.slot] = self.ram[SPRITE_SUBTYPE2 + self.slot].wrapping_sub(value);
    }

    pub fn set_subtype(&mut self, value: u8)
        requires
            SPRITE_SUBTYPE + old(self).slot_index() < old(self).ram().len(),
        ensures
            final(self).ram() == old(self).ram().update(
                SPRITE_SUBTYPE + old(self).slot_index(),
                value,
            ),
            final(self).slot_index() == old(self).slot_index(),
            final(final(self).ram)@ == final(old(self).ram)@,
    {
        proof {
            assert(self.ram@.len() == self.ram.len());
        }
        self.ram[SPRITE_SUBTYPE + self.slot] = value;
    }

    pub fn increment_subtype(&mut self)
        requires
            SPRITE_SUBTYPE + old(self).slot_index() < old(self).ram().len(),
        ensures
            final(self).ram() == old(self).ram().update(
                SPRITE_SUBTYPE + old(self).slot_index(),
                old(self).ram()[SPRITE_SUBTYPE + old(self).slot_index()].wrapping_add(1),
            ),
            final(self).slot_index() == old(self).slot_index(),
            final(final(self).ram)@ == final(old(self).ram)@,
    {
        proof {
            assert(self.ram@.len() == self.ram.len());
        }
        self.ram[SPRITE_SUBTYPE + self.slot] = self.ram[SPRITE_SUBTYPE + self.slot].wrapping_add(1);
    }

    pub fn add_subtype(&mut self, value: u8)
        requires
            SPRITE_SUBTYPE + old(self).slot_index() < old(self).ram().len(),
        ensures
            final(self).ram() == old(self).ram().update(
                SPRITE_SUBTYPE + old(self).slot_index(),
                old(self).ram()[SPRITE_SUBTYPE + old(self).slot_index()].wrapping_add(value),
            ),
            final(self).slot_index() == old(self).slot_index(),
            final(final(self).ram)@ == final(old(self).ram)@,
    {
        proof {
            assert(self.ram@.len() == self.ram.len());
        }
        self.ram[SPRITE_SUBTYPE + self.slot] = self.ram[SPRITE_SUBTYPE + self.slot].wrapping_add(value);
    }

    pub fn and_subtype(&mut self, value: u8)
        requires
            SPRITE_SUBTYPE + old(self).slot_index() < old(self).ram().len(),
        ensures
            final(self).ram() == old(self).ram().update(
                SPRITE_SUBTYPE + old(self).slot_index(),
                old(self).ram()[SPRITE_SUBTYPE + old(self).slot_index()] & value,
            ),
            final(self).slot_index() == old(self).slot_index(),
            final(final(self).ram)@ == final(old(self).ram)@,
    {
        proof {
            assert(self.ram@.len() == self.ram.len());
        }
        self.ram[SPRITE_SUBTYPE + self.slot] &= value;
    }

    pub fn decrement_subtype(&mut self)
        requires
            SPRITE_SUBTYPE + old(self).slot_index() < old(self).ram().len(),
        ensures
            final(self).ram() == old(self).ram().update(
                SPRITE_SUBTYPE + old(self).slot_index(),
                old(self).ram()[SPRITE_SUBTYPE + old(self).slot_index()].wrapping_sub(1),
            ),
            final(self).slot_index() == old(self).slot_index(),
            final(final(self).ram)@ == final(old(self).ram)@,
    {
        proof {
            assert(self.ram@.len() == self.ram.len());
        }
        self.ram[SPRITE_SUBTYPE + self.slot] = self.ram[SPRITE_SUBTYPE + self.slot].wrapping_sub(1);
    }

    pub fn set_f(&mut self, value: u8)
        requires
            SPRITE_F + old(self).slot_index() < old(self).ram().len(),
        ensures
            final(self).ram() == old(self).ram().update(SPRITE_F + old(self).slot_index(), value),
            final(self).slot_index() == old(self).slot_index(),
            final(final(self).ram)@ == final(old(self).ram)@,
    {
        proof {
            assert(self.ram@.len() == self.ram.len());
        }
        self.ram[SPRITE_F + self.slot] = value;
    }

    pub fn subtract_f(&mut self, value: u8)
        requires
            SPRITE_F + old(self).slot_index() < old(self).ram().len(),
        ensures
            final(self).ram() == old(self).ram().update(
                SPRITE_F + old(self).slot_index(),
                old(self).ram()[SPRITE_F + old(self).slot_index()].wrapping_sub(value),
            ),
            final(self).slot_index() == old(self).slot_index(),
            final(final(self).ram)@ == final(old(self).ram)@,
    {
        proof {
            assert(self.ram@.len() == self.ram.len());
        }
        self.ram[SPRITE_F + self.slot] = self.ram[SPRITE_F + self.slot].wrapping_sub(value);
    }

    pub fn decrement_f(&mut self)
        requires
            SPRITE_F + old(self).slot_index() < old(self).ram().len(),
        ensures
            final(self).ram() == old(self).ram().update(
                SPRITE_F + old(self).slot_index(),
                old(self).ram()[SPRITE_F + old(self).slot_index()].wrapping_sub(1),
            ),
            final(self).slot_index() == old(self).slot_index(),
            final(final(self).ram)@ == final(old(self).ram)@,
    {
        proof {
            assert(self.ram@.len() == self.ram.len());
        }
        self.ram[SPRITE_F + self.slot] = self.ram[SPRITE_F + self.slot].wrapping_sub(1);
    }

    pub fn set_g(&mut self, value: u8)
        requires
            SPRITE_G + old(self).slot_index() < old(self).ram().len(),
        ensures
            final(self).ram() == old(self).ram().update(SPRITE_G + old(self).slot_index(), value),
            final(self).slot_index() == old(self).slot_index(),
            final(final(self).ram)@ == final(old(self).ram)@,
    {
        proof {
            assert(self.ram@.len() == self.ram.len());
        }
        self.ram[SPRITE_G + self.slot] = value;
    }

    pub fn increment_g(&mut self)
        requires
            SPRITE_G + old(self).slot_index() < old(self).ram().len(),
        ensures
            final(self).ram() == old(self).ram().update(
                SPRITE_G + old(self).slot_index(),
                old(self).ram()[SPRITE_G + old(self).slot_index()].wrapping_add(1),
            ),
            final(self).slot_index() == old(self).slot_index(),
            final(final(self).ram)@ == final(old(self).ram)@,
    {
        proof {
            assert(self.ram@.len() == self.ram.len());
        }
        self.ram[SPRITE_G + self.slot] = self.ram[SPRITE_G + self.slot].wrapping_add(1);
    }

    pub fn add_g(&mut self, value: u8)
        requires
            SPRITE_G + old(self).slot_index() < old(self).ram().len(),
        ensures
            final(self).ram() == old(self).ram().update(
                SPRITE_G + old(self).slot_index(),
                old(self).ram()[SPRITE_G + old(self).slot_index()].wrapping_add(value),
            ),
            final(self).slot_index() == old(self).slot_index(),
            final(final(self).ram)@ == final(old(self).ram)@,
    {
        proof {
            assert(self.ram@.len() == self.ram.len());
        }
        self.ram[SPRITE_G + self.slot] = self.ram[SPRITE_G + self.slot].wrapping_add(value);
    }

    pub fn subtract_g(&mut self, value: u8)
        requires
            SPRITE_G + old(self).slot_index() < old(self).ram().len(),
        ensures
            final(self).ram() == old(self).ram().update(
                SPRITE_G + old(self).slot_index(),
                old(self).ram()[SPRITE_G + old(self).slot_index()].wrapping_sub(value),
            ),
            final(self).slot_index() == old(self).slot_index(),
            final(final(self).ram)@ == final(old(self).ram)@,
    {
        proof {
            assert(self.ram@.len() == self.ram.len());
        }
        self.ram[SPRITE_G + self.slot] = self.ram[SPRITE_G + self.slot].wrapping_sub(value);
    }

    pub fn decrement_g(&mut self)
        requires
            SPRITE_G + old(self).slot_index() < old(self).ram().len(),
        ensures
            final(self).ram() == old(self).ram().update(
                SPRITE_G + old(self).slot_index(),
                old(self).ram()[SPRITE_G + old(self).slot_index()].wrapping_sub(1),
            ),
            final(self).slot_index() == old(self).slot_index(),
            final(final(self).ram)@ == final(old(self).ram)@,
    {
        proof {
            assert(self.ram@.len() == self.ram.len());
        }
        self.ram[SPRITE_G + self.slot] = self.ram[SPRITE_G + self.slot].wrapping_sub(1);
    }

    pub fn set_floor(&mut self, value: u8)
        requires
            SPRITE_FLOOR + old(self).slot_index() < old(self).ram().len(),
        ensures
            final(self).ram() == old(self).ram().update(
                SPRITE_FLOOR + old(self).slot_index(),
                value,
            ),
            final(self).slot_index() == old(self).slot_index(),
            final(final(self).ram)@ == final(old(self).ram)@,
    {
        proof {
            assert(self.ram@.len() == self.ram.len());
        }
        self.ram[SPRITE_FLOOR + self.slot] = value;
    }

    pub fn set_room(&mut self, value: u8)
        requires
            SPRITE_ROOM + old(self).slot_index() < old(self).ram().len(),
        ensures
            final(self).ram() == old(self).ram().update(
                SPRITE_ROOM + old(self).slot_index(),
                value,
            ),
            final(self).slot_index() == old(self).slot_index(),
            final(final(self).ram)@ == final(old(self).ram)@,
    {
        proof {
            assert(self.ram@.len() == self.ram.len());
        }
        self.ram[SPRITE_ROOM + self.slot] = value;
    }

    pub fn set_x_recoil(&mut self, value: u8)
        requires
            SPRITE_X_RECOIL + old(self).slot_index() < old(self).ram().len(),
        ensures
            final(self).ram() == old(self).ram().update(
                SPRITE_X_RECOIL + old(self).slot_index(),
                value,
            ),
            final(self).slot_index() == old(self).slot_index(),
            final(final(self).ram)@ == final(old(self).ram)@,
    {
        proof {
            assert(self.ram@.len() == self.ram.len());
        }
        self.ram[SPRITE_X_RECOIL + self.slot] = value;
    }

    pub fn set_y_recoil(&mut self, value: u8)
        requires
            SPRITE_Y_RECOIL + old(self).slot_index() < old(self).ram().len(),
        ensures
            final(self).ram() == old(self).ram().update(
                SPRITE_Y_RECOIL + old(self).slot_index(),
                value,
            ),
            final(self).slot_index() == old(self).slot_index(),
            final(final(self).ram)@ == final(old(self).ram)@,
    {
        proof {
            assert(self.ram@.len() == self.ram.len());
        }
        self.ram[SPRITE_Y_RECOIL + self.slot] = value;
    }

    pub fn set_oam_flags(&mut self, value: u8)
        requires
            SPRITE_OAM_FLAGS + old(self).slot_index() < old(self).ram().len(),
        ensures
            final(self).ram() == old(self).ram().update(
                SPRITE_OAM_FLAGS + old(self).slot_index(),
                value,
            ),
            final(self).slot_index() == old(self).slot_index(),
            final(final(self).ram)@ == final(old(self).ram)@,
    {
        proof {
            assert(self.ram@.len() == self.ram.len());
        }
        self.ram[SPRITE_OAM_FLAGS + self.slot] = value;
    }

    pub fn and_oam_flags(&mut self, value: u8)
        requires
            SPRITE_OAM_FLAGS + old(self).slot_index() < old(self).ram().len(),
        ensures
            final(self).ram() == old(self).ram().update(
                SPRITE_OAM_FLAGS + old(self).slot_index(),
                old(self).ram()[SPRITE_OAM_FLAGS + old(self).slot_index()] & value,
            ),
            final(self).slot_index() == old(self).slot_index(),
            final(final(self).ram)@ == final(old(self).ram)@,
    {
        proof {
            assert(self.ram@.len() == self.ram.len());
        }
        self.ram[SPRITE_OAM_FLAGS + self.slot] &= value;
    }

    pub fn xor_oam_flags(&mut self, value: u8)
        requires
            SPRITE_OAM_FLAGS + old(self).slot_index() < old(self).ram().len(),
        ensures
            final(self).ram() == old(self).ram().update(
                SPRITE_OAM_FLAGS + old(self).slot_index(),
                old(self).ram()[SPRITE_OAM_FLAGS + old(self).slot_index()] ^ value,
            ),
            final(self).slot_index() == old(self).slot_index(),
            final(final(self).ram)@ == final(old(self).ram)@,
    {
        proof {
            assert(self.ram@.len() == self.ram.len());
        }
        self.ram[SPRITE_OAM_FLAGS + self.slot] ^= value;
    }

    pub fn or_oam_flags(&mut self, value: u8)
        requires
            SPRITE_OAM_FLAGS + old(self).slot_index() < old(self).ram().len(),
        ensures
            final(self).ram() == old(self).ram().update(
                SPRITE_OAM_FLAGS + old(self).slot_index(),
                old(self).ram()[SPRITE_OAM_FLAGS + old(self).slot_index()] | value,
            ),
            final(self).slot_index() == old(self).slot_index(),
            final(final(self).ram)@ == final(old(self).ram)@,
    {
        proof {
            assert(self.ram@.len() == self.ram.len());
        }
        self.ram[SPRITE_OAM_FLAGS + self.slot] |= value;
    }

    pub fn masked_or_oam_flags(&mut self, mask: u8, value: u8)
        requires
            SPRITE_OAM_FLAGS + old(self).slot_index() < old(self).ram().len(),
        ensures
            final(self).ram() == old(self).ram().update(
                SPRITE_OAM_FLAGS + old(self).slot_index(),
                (old(self).ram()[SPRITE_OAM_FLAGS + old(self).slot_index()] & mask) | value,
            ),
            final(self).slot_index() == old(self).slot_index(),
            final(final(self).ram)@ == final(old(self).ram)@,
    {
        proof {
            assert(self.ram@.len() == self.ram.len());
        }
        self.ram[SPRITE_OAM_FLAGS + self.slot] = (self.ram[SPRITE_OAM_FLAGS + self.slot] & mask) | value;
    }

    pub fn set_stunned(&mut self, value: u8)
        requires
            SPRITE_STUNNED + old(self).slot_index() < old(self).ram().len(),
        ensures
            final(self).ram() == old(self).ram().update(
                SPRITE_STUNNED + old(self).slot_index(),
                value,
            ),
            final(self).slot_index() == old(self).slot_index(),
            final(final(self).ram)@ == final(old(self).ram)@,
    {
        proof {
            assert(self.ram@.len() == self.ram.len());
        }
        self.ram[SPRITE_STUNNED + self.slot] = value;
    }

    pub fn decrement_stunned(&mut self)
        requires
            SPRITE_STUNNED + old(self).slot_index() < old(self).ram().len(),
        ensures
            final(self).ram() == old(self).ram().update(
                SPRITE_STUNNED + old(self).slot_index(),
                old(self).ram()[SPRITE_STUNNED + old(self).slot_index()].wrapping_sub(1),
            ),
            final(self).slot_index() == old(self).slot_index(),
            final(final(self).ram)@ == final(old(self).ram)@,
    {
        proof {
            assert(self.ram@.len() == self.ram.len());
        }
        self.ram[SPRITE_STUNNED + self.slot] = self.ram[SPRITE_STUNNED + self.slot].wrapping_sub(1);
    }

    pub fn set_pause(&mut self, value: u8)
        requires
            SPRITE_PAUSE + old(self).slot_index() < old(self).ram().len(),
        ensures
            final(self).ram() == old(self).ram().update(
                SPRITE_PAUSE + old(self).slot_index(),
                value,
            ),
            final(self).slot_index() == old(self).slot_index(),
            final(final(self).ram)@ == final(old(self).ram)@,
    {
        proof {
            assert(self.ram@.len() == self.ram.len());
        }
        self.ram[SPRITE_PAUSE + self.slot] = value;
    }

    pub fn set_health(&mut self, value: u8)
        requires
            SPRITE_HEALTH + old(self).slot_index() < old(self).ram().len(),
        ensures
            final(self).ram() == old(self).ram().update(
                SPRITE_HEALTH + old(self).slot_index(),
                value,
            ),
            final(self).slot_index() == old(self).slot_index(),
            final(final(self).ram)@ == final(old(self).ram)@,
    {
        proof {
            assert(self.ram@.len() == self.ram.len());
        }
        self.ram[SPRITE_HEALTH + self.slot] = value;
    }

    pub fn decrement_health(&mut self)
        requires
            SPRITE_HEALTH + old(self).slot_index() < old(self).ram().len(),
        ensures
            final(self).ram() == old(self).ram().update(
                SPRITE_HEALTH + old(self).slot_index(),
                old(self).ram()[SPRITE_HEALTH + old(self).slot_index()].wrapping_sub(1),
            ),
            final(self).slot_index() == old(self).slot_index(),
            final(final(self).ram)@ == final(old(self).ram)@,
    {
        proof {
            assert(self.ram@.len() == self.ram.len());
        }
        self.ram[SPRITE_HEALTH + self.slot] = self.ram[SPRITE_HEALTH + self.slot].wrapping_sub(1);
    }

    pub fn set_ignore_projectile(&mut self, value: u8)
        requires
            SPRITE_IGNORE_PROJECTILE + old(self).slot_index() < old(self).ram().len(),
        ensures
            final(self).ram() == old(self).ram().update(
                SPRITE_IGNORE_PROJECTILE + old(self).slot_index(),
                value,
            ),
            final(self).slot_index() == old(self).slot_index(),
            final(final(self).ram)@ == final(old(self).ram)@,
    {
        proof {
            assert(self.ram@.len() == self.ram.len());
        }
        self.ram[SPRITE_IGNORE_PROJECTILE + self.slot] = value;
    }

    pub fn set_draw_work_byte_2(&mut self, value: u8)
        requires
            SPRITE_DRAW_WORK_BYTE_2 + old(self).slot_index() < old(self).ram().len(),
        ensures
            final(self).ram() == old(self).ram().update(
                SPRITE_DRAW_WORK_BYTE_2 + old(self).slot_index(),
                value,
            ),
            final(self).slot_index() == old(self).slot_index(),
            final(final(self).ram)@ == final(old(self).ram)@,
    {
        proof {
            assert(self.ram@.len() == self.ram.len());
        }
        self.ram[SPRITE_DRAW_WORK_BYTE_2 + self.slot] = value;
    }

    pub fn set_draw_i(&mut self, value: u8)
        requires
            SPRITE_DRAW_I + old(self).slot_index() < old(self).ram().len(),
        ensures
            final(self).ram() == old(self).ram().update(
                SPRITE_DRAW_I + old(self).slot_index(),
                value,
            ),
            final(self).slot_index() == old(self).slot_index(),
            final(final(self).ram)@ == final(old(self).ram)@,
    {
        proof {
            assert(self.ram@.len() == self.ram.len());
        }
        self.ram[SPRITE_DRAW_I + self.slot] = value;
    }

    pub fn set_draw_work_byte_3(&mut self, value: u8)
        requires
            SPRITE_DRAW_WORK_BYTE_3 + old(self).slot_index() < old(self).ram().len(),
        ensures
            final(self).ram() == old(self).ram().update(
                SPRITE_DRAW_WORK_BYTE_3 + old(self).slot_index(),
                value,
            ),
            final(self).slot_index() == old(self).slot_index(),
            final(final(self).ram)@ == final(old(self).ram)@,
    {
        proof {
            assert(self.ram@.len() == self.ram.len());
        }
        self.ram[SPRITE_DRAW_WORK_BYTE_3 + self.slot] = value;
    }

    pub fn increment_draw_work_byte_3(&mut self)
        requires
            SPRITE_DRAW_WORK_BYTE_3 + old(self).slot_index() < old(self).ram().len(),
        ensures
            final(self).ram() == old(self).ram().update(
                SPRITE_DRAW_WORK_BYTE_3 + old(self).slot_index(),
                old(self).ram()[SPRITE_DRAW_WORK_BYTE_3 + old(self).slot_index()].wrapping_add(1),
            ),
            final(self).slot_index() == old(self).slot_index(),
            final(final(self).ram)@ == final(old(self).ram)@,
    {
        proof {
            assert(self.ram@.len() == self.ram.len());
        }
        self.ram[SPRITE_DRAW_WORK_BYTE_3 + self.slot] = self.ram[SPRITE_DRAW_WORK_BYTE_3 + self.slot].wrapping_add(1);
    }

    pub fn set_draw_work_byte_4(&mut self, value: u8)
        requires
            SPRITE_DRAW_WORK_BYTE_4 + old(self).slot_index() < old(self).ram().len(),
        ensures
            final(self).ram() == old(self).ram().update(
                SPRITE_DRAW_WORK_BYTE_4 + old(self).slot_index(),
                value,
            ),
            final(self).slot_index() == old(self).slot_index(),
            final(final(self).ram)@ == final(old(self).ram)@,
    {
        proof {
            assert(self.ram@.len() == self.ram.len());
        }
        self.ram[SPRITE_DRAW_WORK_BYTE_4 + self.slot] = value;
    }

    pub fn set_draw_work_byte_5(&mut self, value: u8)
        requires
            SPRITE_DRAW_WORK_BYTE_5 + old(self).slot_index() < old(self).ram().len(),
        ensures
            final(self).ram() == old(self).ram().update(
                SPRITE_DRAW_WORK_BYTE_5 + old(self).slot_index(),
                value,
            ),
            final(self).slot_index() == old(self).slot_index(),
            final(final(self).ram)@ == final(old(self).ram)@,
    {
        proof {
            assert(self.ram@.len() == self.ram.len());
        }
        self.ram[SPRITE_DRAW_WORK_BYTE_5 + self.slot] = value;
    }

    pub fn set_draw_work_byte_1(&mut self, value: u8)
        requires
            SPRITE_DRAW_WORK_BYTE_1 + old(self).slot_index() < old(self).ram().len(),
        ensures
            final(self).ram() == old(self).ram().update(
                SPRITE_DRAW_WORK_BYTE_1 + old(self).slot_index(),
                value,
            ),
            final(self).slot_index() == old(self).slot_index(),
            final(final(self).ram)@ == final(old(self).ram)@,
    {
        proof {
            assert(self.ram@.len() == self.ram.len());
        }
        self.ram[SPRITE_DRAW_WORK_BYTE_1 + self.slot] = value;
    }

    pub fn increment_ignore_projectile(&mut self)
        requires
            SPRITE_IGNORE_PROJECTILE + old(self).slot_index() < old(self).ram().len(),
        ensures
            final(self).ram() == old(self).ram().update(
                SPRITE_IGNORE_PROJECTILE + old(self).slot_index(),
                old(self).ram()[SPRITE_IGNORE_PROJECTILE + old(self).slot_index()].wrapping_add(1),
            ),
            final(self).slot_index() == old(self).slot_index(),
            final(final(self).ram)@ == final(old(self).ram)@,
    {
        proof {
            assert(self.ram@.len() == self.ram.len());
        }
        self.ram[SPRITE_IGNORE_PROJECTILE + self.slot] = self.ram[SPRITE_IGNORE_PROJECTILE + self.slot].wrapping_add(1);
    }

    pub fn set_deflection_bits(&mut self, value: u8)
        requires
            SPRITE_DEFL_BITS + old(self).slot_index() < old(self).ram().len(),
        ensures
            final(self).ram() == old(self).ram().update(
                SPRITE_DEFL_BITS + old(self).slot_index(),
                value,
            ),
            final(self).slot_index() == old(self).slot_index(),
            final(final(self).ram)@ == final(old(self).ram)@,
    {
        proof {
            assert(self.ram@.len() == self.ram.len());
        }
        self.ram[SPRITE_DEFL_BITS + self.slot] = value;
    }

    pub fn or_deflection_bits(&mut self, value: u8)
        requires
            SPRITE_DEFL_BITS + old(self).slot_index() < old(self).ram().len(),
        ensures
            final(self).ram() == old(self).ram().update(
                SPRITE_DEFL_BITS + old(self).slot_index(),
                old(self).ram()[SPRITE_DEFL_BITS + old(self).slot_index()] | value,
            ),
            final(self).slot_index() == old(self).slot_index(),
            final(final(self).ram)@ == final(old(self).ram)@,
    {
        proof {
            assert(self.ram@.len() == self.ram.len());
        }
        self.ram[SPRITE_DEFL_BITS + self.slot] |= value;
    }

    pub fn clear_deflection_bits(&mut self, mask: u8)
        requires
            SPRITE_DEFL_BITS + old(self).slot_index() < old(self).ram().len(),
        ensures
            final(self).ram() == old(self).ram().update(
                SPRITE_DEFL_BITS + old(self).slot_index(),
                old(self).ram()[SPRITE_DEFL_BITS + old(self).slot_index()] & (!mask),
            ),
            final(self).slot_index() == old(self).slot_index(),
            final(final(self).ram)@ == final(old(self).ram)@,
    {
        proof {
            assert(self.ram@.len() == self.ram.len());
        }
        self.ram[SPRITE_DEFL_BITS + self.slot] &= !mask;
    }

    pub fn and_deflection_bits(&mut self, value: u8)
        requires
            SPRITE_DEFL_BITS + old(self).slot_index() < old(self).ram().len(),
        ensures
            final(self).ram() == old(self).ram().update(
                SPRITE_DEFL_BITS + old(self).slot_index(),
                old(self).ram()[SPRITE_DEFL_BITS + old(self).slot_index()] & value,
            ),
            final(self).slot_index() == old(self).slot_index(),
            final(final(self).ram)@ == final(old(self).ram)@,
    {
        proof {
            assert(self.ram@.len() == self.ram.len());
        }
        self.ram[SPRITE_DEFL_BITS + self.slot] &= value;
    }

    pub fn set_bump_damage(&mut self, value: u8)
        requires
            SPRITE_BUMP_DAMAGE + old(self).slot_index() < old(self).ram().len(),
        ensures
            final(self).ram() == old(self).ram().update(
                SPRITE_BUMP_DAMAGE + old(self).slot_index(),
                value,
            ),
            final(self).slot_index() == old(self).slot_index(),
            final(final(self).ram)@ == final(old(self).ram)@,
    {
        proof {
            assert(self.ram@.len() == self.ram.len());
        }
        self.ram[SPRITE_BUMP_DAMAGE + self.slot] = value;
    }

    pub fn and_bump_damage(&mut self, value: u8)
        requires
            SPRITE_BUMP_DAMAGE + old(self).slot_index() < old(self).ram().len(),
        ensures
            final(self).ram() == old(self).ram().update(
                SPRITE_BUMP_DAMAGE + old(self).slot_index(),
                old(self).ram()[SPRITE_BUMP_DAMAGE + old(self).slot_index()] & value,
            ),
            final(self).slot_index() == old(self).slot_index(),
            final(final(self).ram)@ == final(old(self).ram)@,
    {
        proof {
            assert(self.ram@.len() == self.ram.len());
        }
        self.ram[SPRITE_BUMP_DAMAGE + self.slot] &= value;
    }

    pub fn set_incoming_damage(&mut self, value: u8)
        requires
            SPRITE_INCOMING_DAMAGE + old(self).slot_index() < old(self).ram().len(),
        ensures
            final(self).ram() == old(self).ram().update(
                SPRITE_INCOMING_DAMAGE + old(self).slot_index(),
                value,
            ),
            final(self).slot_index() == old(self).slot_index(),
            final(final(self).ram)@ == final(old(self).ram)@,
    {
        proof {
            assert(self.ram@.len() == self.ram.len());
        }
        self.ram[SPRITE_INCOMING_DAMAGE + self.slot] = value;
    }

    pub fn set_n(&mut self, value: u8)
        requires
            SPRITE_N + old(self).slot_index() < old(self).ram().len(),
        ensures
            final(self).ram() == old(self).ram().update(SPRITE_N + old(self).slot_index(), value),
            final(self).slot_index() == old(self).slot_index(),
            final(final(self).ram)@ == final(old(self).ram)@,
    {
        proof {
            assert(self.ram@.len() == self.ram.len());
        }
        self.ram[SPRITE_N + self.slot] = value;
    }

    pub fn set_n_word(&mut self, value: u16)
        requires
            (SPRITE_N + (old(self).slot_index() * 2)) + 1 < old(self).ram().len(),
        ensures
            final(self).ram() == types::with_u16(
                old(self).ram(),
                SPRITE_N + (old(self).slot_index() * 2),
                value,
            ),
            final(self).slot_index() == old(self).slot_index(),
            final(final(self).ram)@ == final(old(self).ram)@,
    {
        proof {
            assert(self.ram@.len() == self.ram.len());
        }
        write_le_u16(self.ram, SPRITE_N + self.slot * 2, value);
    }

    pub fn set_die_action(&mut self, value: u8)
        requires
            SPRITE_DIE_ACTION + old(self).slot_index() < old(self).ram().len(),
        ensures
            final(self).ram() == old(self).ram().update(
                SPRITE_DIE_ACTION + old(self).slot_index(),
                value,
            ),
            final(self).slot_index() == old(self).slot_index(),
            final(final(self).ram)@ == final(old(self).ram)@,
    {
        proof {
            assert(self.ram@.len() == self.ram.len());
        }
        self.ram[SPRITE_DIE_ACTION + self.slot] = value;
    }

    pub fn increment_die_action(&mut self)
        requires
            SPRITE_DIE_ACTION + old(self).slot_index() < old(self).ram().len(),
        ensures
            final(self).ram() == old(self).ram().update(
                SPRITE_DIE_ACTION + old(self).slot_index(),
                old(self).ram()[SPRITE_DIE_ACTION + old(self).slot_index()].wrapping_add(1),
            ),
            final(self).slot_index() == old(self).slot_index(),
            final(final(self).ram)@ == final(old(self).ram)@,
    {
        proof {
            assert(self.ram@.len() == self.ram.len());
        }
        self.ram[SPRITE_DIE_ACTION + self.slot] = self.ram[SPRITE_DIE_ACTION + self.slot].wrapping_add(1);
    }

    pub fn set_object_priority(&mut self, value: u8)
        requires
            SPRITE_OBJ_PRIO + old(self).slot_index() < old(self).ram().len(),
        ensures
            final(self).ram() == old(self).ram().update(
                SPRITE_OBJ_PRIO + old(self).slot_index(),
                value,
            ),
            final(self).slot_index() == old(self).slot_index(),
            final(final(self).ram)@ == final(old(self).ram)@,
    {
        proof {
            assert(self.ram@.len() == self.ram.len());
        }
        self.ram[SPRITE_OBJ_PRIO + self.slot] = value;
    }

    pub fn clear_object_priority_bits(&mut self, mask: u8)
        requires
            SPRITE_OBJ_PRIO + old(self).slot_index() < old(self).ram().len(),
        ensures
            final(self).ram() == old(self).ram().update(
                SPRITE_OBJ_PRIO + old(self).slot_index(),
                old(self).ram()[SPRITE_OBJ_PRIO + old(self).slot_index()] & (!mask),
            ),
            final(self).slot_index() == old(self).slot_index(),
            final(final(self).ram)@ == final(old(self).ram)@,
    {
        proof {
            assert(self.ram@.len() == self.ram.len());
        }
        self.ram[SPRITE_OBJ_PRIO + self.slot] &= !mask;
    }

    pub fn or_object_priority_bits(&mut self, value: u8)
        requires
            SPRITE_OBJ_PRIO + old(self).slot_index() < old(self).ram().len(),
        ensures
            final(self).ram() == old(self).ram().update(
                SPRITE_OBJ_PRIO + old(self).slot_index(),
                old(self).ram()[SPRITE_OBJ_PRIO + old(self).slot_index()] | value,
            ),
            final(self).slot_index() == old(self).slot_index(),
            final(final(self).ram)@ == final(old(self).ram)@,
    {
        proof {
            assert(self.ram@.len() == self.ram.len());
        }
        self.ram[SPRITE_OBJ_PRIO + self.slot] |= value;
    }

    pub fn or_object_priority(&mut self, value: u8)
        requires
            SPRITE_OBJ_PRIO + old(self).slot_index() < old(self).ram().len(),
        ensures
            final(self).ram() == old(self).ram().update(
                SPRITE_OBJ_PRIO + old(self).slot_index(),
                old(self).ram()[SPRITE_OBJ_PRIO + old(self).slot_index()] | value,
            ),
            final(self).slot_index() == old(self).slot_index(),
            final(final(self).ram)@ == final(old(self).ram)@,
    {
        proof {
            assert(self.ram@.len() == self.ram.len());
        }
        self.ram[SPRITE_OBJ_PRIO + self.slot] |= value;
    }

    pub fn and_object_priority(&mut self, value: u8)
        requires
            SPRITE_OBJ_PRIO + old(self).slot_index() < old(self).ram().len(),
        ensures
            final(self).ram() == old(self).ram().update(
                SPRITE_OBJ_PRIO + old(self).slot_index(),
                old(self).ram()[SPRITE_OBJ_PRIO + old(self).slot_index()] & value,
            ),
            final(self).slot_index() == old(self).slot_index(),
            final(final(self).ram)@ == final(old(self).ram)@,
    {
        proof {
            assert(self.ram@.len() == self.ram.len());
        }
        self.ram[SPRITE_OBJ_PRIO + self.slot] &= value;
    }

    pub fn set_hit_timer(&mut self, value: u8)
        requires
            SPRITE_HIT_TIMER + old(self).slot_index() < old(self).ram().len(),
        ensures
            final(self).ram() == old(self).ram().update(
                SPRITE_HIT_TIMER + old(self).slot_index(),
                value,
            ),
            final(self).slot_index() == old(self).slot_index(),
            final(final(self).ram)@ == final(old(self).ram)@,
    {
        proof {
            assert(self.ram@.len() == self.ram.len());
        }
        self.ram[SPRITE_HIT_TIMER + self.slot] = value;
    }

    pub fn or_hit_timer(&mut self, value: u8)
        requires
            SPRITE_HIT_TIMER + old(self).slot_index() < old(self).ram().len(),
        ensures
            final(self).ram() == old(self).ram().update(
                SPRITE_HIT_TIMER + old(self).slot_index(),
                old(self).ram()[SPRITE_HIT_TIMER + old(self).slot_index()] | value,
            ),
            final(self).slot_index() == old(self).slot_index(),
            final(final(self).ram)@ == final(old(self).ram)@,
    {
        proof {
            assert(self.ram@.len() == self.ram.len());
        }
        self.ram[SPRITE_HIT_TIMER + self.slot] |= value;
    }

    pub fn set_anim_clock(&mut self, value: u8)
        requires
            SPRITE_ANIM_CLOCK + old(self).slot_index() < old(self).ram().len(),
        ensures
            final(self).ram() == old(self).ram().update(
                SPRITE_ANIM_CLOCK + old(self).slot_index(),
                value,
            ),
            final(self).slot_index() == old(self).slot_index(),
            final(final(self).ram)@ == final(old(self).ram)@,
    {
        proof {
            assert(self.ram@.len() == self.ram.len());
        }
        self.ram[SPRITE_ANIM_CLOCK + self.slot] = value;
    }

    pub fn add_anim_clock(&mut self, value: u8)
        requires
            SPRITE_ANIM_CLOCK + old(self).slot_index() < old(self).ram().len(),
        ensures
            final(self).ram() == old(self).ram().update(
                SPRITE_ANIM_CLOCK + old(self).slot_index(),
                old(self).ram()[SPRITE_ANIM_CLOCK + old(self).slot_index()].wrapping_add(value),
            ),
            final(self).slot_index() == old(self).slot_index(),
            final(final(self).ram)@ == final(old(self).ram)@,
    {
        proof {
            assert(self.ram@.len() == self.ram.len());
        }
        self.ram[SPRITE_ANIM_CLOCK + self.slot] = self.ram[SPRITE_ANIM_CLOCK + self.slot].wrapping_add(value);
    }

    pub fn increment_anim_clock(&mut self)
        requires
            SPRITE_ANIM_CLOCK + old(self).slot_index() < old(self).ram().len(),
        ensures
            final(self).ram() == old(self).ram().update(
                SPRITE_ANIM_CLOCK + old(self).slot_index(),
                old(self).ram()[SPRITE_ANIM_CLOCK + old(self).slot_index()].wrapping_add(1),
            ),
            final(self).slot_index() == old(self).slot_index(),
            final(final(self).ram)@ == final(old(self).ram)@,
    {
        proof {
            assert(self.ram@.len() == self.ram.len());
        }
        self.ram[SPRITE_ANIM_CLOCK + self.slot] = self.ram[SPRITE_ANIM_CLOCK + self.slot].wrapping_add(1);
    }

    pub fn decrement_anim_clock(&mut self)
        requires
            SPRITE_ANIM_CLOCK + old(self).slot_index() < old(self).ram().len(),
        ensures
            final(self).ram() == old(self).ram().update(
                SPRITE_ANIM_CLOCK + old(self).slot_index(),
                old(self).ram()[SPRITE_ANIM_CLOCK + old(self).slot_index()].wrapping_sub(1),
            ),
            final(self).slot_index() == old(self).slot_index(),
            final(final(self).ram)@ == final(old(self).ram)@,
    {
        proof {
            assert(self.ram@.len() == self.ram.len());
        }
        self.ram[SPRITE_ANIM_CLOCK + self.slot] = self.ram[SPRITE_ANIM_CLOCK + self.slot].wrapping_sub(1);
    }

    pub fn set_wall_collision(&mut self, value: u8)
        requires
            SPRITE_WALL_COLLISION + old(self).slot_index() < old(self).ram().len(),
        ensures
            final(self).ram() == old(self).ram().update(
                SPRITE_WALL_COLLISION + old(self).slot_index(),
                value,
            ),
            final(self).slot_index() == old(self).slot_index(),
            final(final(self).ram)@ == final(old(self).ram)@,
    {
        proof {
            assert(self.ram@.len() == self.ram.len());
        }
        self.ram[SPRITE_WALL_COLLISION + self.slot] = value;
    }

    pub fn or_wall_collision(&mut self, value: u8)
        requires
            SPRITE_WALL_COLLISION + old(self).slot_index() < old(self).ram().len(),
        ensures
            final(self).ram() == old(self).ram().update(
                SPRITE_WALL_COLLISION + old(self).slot_index(),
                old(self).ram()[SPRITE_WALL_COLLISION + old(self).slot_index()] | value,
            ),
            final(self).slot_index() == old(self).slot_index(),
            final(final(self).ram)@ == final(old(self).ram)@,
    {
        proof {
            assert(self.ram@.len() == self.ram.len());
        }
        self.ram[SPRITE_WALL_COLLISION + self.slot] |= value;
    }

    pub fn decrement_wall_collision(&mut self)
        requires
            SPRITE_WALL_COLLISION + old(self).slot_index() < old(self).ram().len(),
        ensures
            final(self).ram() == old(self).ram().update(
                SPRITE_WALL_COLLISION + old(self).slot_index(),
                old(self).ram()[SPRITE_WALL_COLLISION + old(self).slot_index()].wrapping_sub(1),
            ),
            final(self).slot_index() == old(self).slot_index(),
            final(final(self).ram)@ == final(old(self).ram)@,
    {
        proof {
            assert(self.ram@.len() == self.ram.len());
        }
        self.ram[SPRITE_WALL_COLLISION + self.slot] = self.ram[SPRITE_WALL_COLLISION + self.slot].wrapping_sub(1);
    }

    pub fn move_x(&mut self)
        requires
            SPRITE_X_VELOCITY + old(self).slot_index() < old(self).ram().len(),
            old(self).ram()[SPRITE_X_VELOCITY + old(self).slot_index()] != 0
                ==> SPRITE_X_SUBPIXEL + old(self).slot_index() < old(self).ram().len(),
            old(self).ram()[SPRITE_X_VELOCITY + old(self).slot_index()] != 0
                ==> SPRITE_X_LO + old(self).slot_index() < old(self).ram().len(),
            old(self).ram()[SPRITE_X_VELOCITY + old(self).slot_index()] != 0
                ==> SPRITE_X_HI + old(self).slot_index() < old(self).ram().len(),
        ensures
            final(self).ram() == (if old(self).ram()[SPRITE_X_VELOCITY + old(self).slot_index()] == 0 {
                old(self).ram()
            } else {
                access::moved_axis24(
                    old(self).ram(),
                    SPRITE_X_SUBPIXEL + old(self).slot_index(),
                    SPRITE_X_LO + old(self).slot_index(),
                    SPRITE_X_HI + old(self).slot_index(),
                    SPRITE_X_VELOCITY + old(self).slot_index(),
                )
            }),
            final(self).slot_index() == old(self).slot_index(),
            final(final(self).ram)@ == final(old(self).ram)@,
    {
        proof {
            assert(self.ram@.len() == self.ram.len());
        }
        if self.ram[SPRITE_X_VELOCITY + self.slot] == 0 {
            return;
        }
        move_axis24(
            self.ram,
            SPRITE_X_SUBPIXEL + self.slot,
            SPRITE_X_LO + self.slot,
            SPRITE_X_HI + self.slot,
            SPRITE_X_VELOCITY + self.slot,
        );
    }

    pub fn move_y(&mut self)
        requires
            SPRITE_Y_VELOCITY + old(self).slot_index() < old(self).ram().len(),
            old(self).ram()[SPRITE_Y_VELOCITY + old(self).slot_index()] != 0
                ==> SPRITE_Y_SUBPIXEL + old(self).slot_index() < old(self).ram().len(),
            old(self).ram()[SPRITE_Y_VELOCITY + old(self).slot_index()] != 0
                ==> SPRITE_Y_LO + old(self).slot_index() < old(self).ram().len(),
            old(self).ram()[SPRITE_Y_VELOCITY + old(self).slot_index()] != 0
                ==> SPRITE_Y_HI + old(self).slot_index() < old(self).ram().len(),
        ensures
            final(self).ram() == (if old(self).ram()[SPRITE_Y_VELOCITY + old(self).slot_index()] == 0 {
                old(self).ram()
            } else {
                access::moved_axis24(
                    old(self).ram(),
                    SPRITE_Y_SUBPIXEL + old(self).slot_index(),
                    SPRITE_Y_LO + old(self).slot_index(),
                    SPRITE_Y_HI + old(self).slot_index(),
                    SPRITE_Y_VELOCITY + old(self).slot_index(),
                )
            }),
            final(self).slot_index() == old(self).slot_index(),
            final(final(self).ram)@ == final(old(self).ram)@,
    {
        proof {
            assert(self.ram@.len() == self.ram.len());
        }
        if self.ram[SPRITE_Y_VELOCITY + self.slot] == 0 {
            return;
        }
        move_axis24(
            self.ram,
            SPRITE_Y_SUBPIXEL + self.slot,
            SPRITE_Y_LO + self.slot,
            SPRITE_Y_HI + self.slot,
            SPRITE_Y_VELOCITY + self.slot,
        );
    }

    pub fn move_z(&mut self)
        requires
            SPRITE_Z_SUBPIXEL + old(self).slot_index() < old(self).ram().len(),
            SPRITE_Z + old(self).slot_index() < old(self).ram().len(),
            SPRITE_Z_VELOCITY + old(self).slot_index() < old(self).ram().len(),
        ensures
            final(self).ram() == access::moved_axis16(
                old(self).ram(),
                SPRITE_Z_SUBPIXEL + old(self).slot_index(),
                SPRITE_Z + old(self).slot_index(),
                SPRITE_Z_VELOCITY + old(self).slot_index(),
            ),
            final(self).slot_index() == old(self).slot_index(),
            final(final(self).ram)@ == final(old(self).ram)@,
    {
        proof {
            assert(self.ram@.len() == self.ram.len());
        }
        move_axis16(
            self.ram,
            SPRITE_Z_SUBPIXEL + self.slot,
            SPRITE_Z + self.slot,
            SPRITE_Z_VELOCITY + self.slot,
        );
    }
}

} // verus!
