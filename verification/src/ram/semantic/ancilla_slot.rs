use vstd::prelude::*;
use super::access;
use super::access::{byte, packed_position, write_position, move_axis24, move_axis16};
use super::addresses::{
    ANCILLA_A, ANCILLA_AUX_TIMER, ANCILLA_B, ANCILLA_DIRECTION, ANCILLA_FLOOR, ANCILLA_FLOOR2,
    ANCILLA_G, ANCILLA_H, ANCILLA_ITEM_TO_LINK, ANCILLA_K, ANCILLA_L, ANCILLA_NUMSPR,
    ANCILLA_OAM_IDX, ANCILLA_OBJPRIO, ANCILLA_R, ANCILLA_STEP, ANCILLA_S_PLAYER,
    ANCILLA_TILE_ATTRIBUTE, ANCILLA_TIMER, ANCILLA_TYPE, ANCILLA_T_PLAYER, ANCILLA_U,
    ANCILLA_WORK_BYTE_1, ANCILLA_WORK_BYTE_22, ANCILLA_WORK_BYTE_23, ANCILLA_WORK_BYTE_24,
    ANCILLA_WORK_BYTE_25, ANCILLA_WORK_BYTE_26, ANCILLA_WORK_BYTE_3, ANCILLA_WORK_BYTE_4,
    ANCILLA_X_HI, ANCILLA_X_LO, ANCILLA_X_SUBPIXEL, ANCILLA_X_VELOCITY, ANCILLA_Y_HI, ANCILLA_Y_LO,
    ANCILLA_Y_SUBPIXEL, ANCILLA_Y_VELOCITY, ANCILLA_Z, ANCILLA_Z_SUBPIXEL_PLAYER,
    ANCILLA_Z_VELOCITY,
};
use crate::types;

verus! {

pub struct AncillaSlotView<'a> {
    ram: &'a [u8],
    slot: usize,
}

impl<'a> AncillaSlotView<'a> {
    /// The bytes of RAM this view reads and writes.
    pub closed spec fn ram(&self) -> Seq<u8> {
        self.ram@
    }

    /// The slot whose fields this view addresses.
    pub closed spec fn slot_index(&self) -> usize {
        self.slot
    }

    pub fn new(ram: &'a [u8], slot: usize) -> (view: Self)
        ensures
            view.ram() == ram@,
            view.slot_index() == slot,
    {
        Self { ram, slot }
    }

    pub fn slot(&self) -> (result: u8)
        ensures
            result == (self.slot_index() as u8),
    {
        self.slot as u8
    }

    pub fn ancilla_type(&self) -> (result: u8)
        requires
            ANCILLA_TYPE + self.slot_index() <= usize::MAX,
        ensures
            result == access::byte_at(self.ram(), ANCILLA_TYPE + self.slot_index()),
    {
        byte(self.ram, ANCILLA_TYPE + self.slot)
    }

    pub fn is_active(&self) -> (result: bool)
        requires
            ANCILLA_TYPE + self.slot_index() <= usize::MAX,
        ensures
            result == (access::byte_at(self.ram(), ANCILLA_TYPE + self.slot_index()) != 0),
    {
        self.ancilla_type() != 0
    }

    pub fn x(&self) -> (result: u16)
        requires
            ANCILLA_X_LO + self.slot_index() <= usize::MAX,
            ANCILLA_X_HI + self.slot_index() <= usize::MAX,
        ensures
            result == types::le_word(
                access::byte_at(self.ram(), ANCILLA_X_LO + self.slot_index()),
                access::byte_at(self.ram(), ANCILLA_X_HI + self.slot_index()),
            ),
    {
        packed_position(self.ram, ANCILLA_X_LO + self.slot, ANCILLA_X_HI + self.slot)
    }

    pub fn x_low(&self) -> (result: u8)
        requires
            ANCILLA_X_LO + self.slot_index() <= usize::MAX,
        ensures
            result == access::byte_at(self.ram(), ANCILLA_X_LO + self.slot_index()),
    {
        byte(self.ram, ANCILLA_X_LO + self.slot)
    }

    pub fn x_high(&self) -> (result: u8)
        requires
            ANCILLA_X_HI + self.slot_index() <= usize::MAX,
        ensures
            result == access::byte_at(self.ram(), ANCILLA_X_HI + self.slot_index()),
    {
        byte(self.ram, ANCILLA_X_HI + self.slot)
    }

    pub fn y(&self) -> (result: u16)
        requires
            ANCILLA_Y_LO + self.slot_index() <= usize::MAX,
            ANCILLA_Y_HI + self.slot_index() <= usize::MAX,
        ensures
            result == types::le_word(
                access::byte_at(self.ram(), ANCILLA_Y_LO + self.slot_index()),
                access::byte_at(self.ram(), ANCILLA_Y_HI + self.slot_index()),
            ),
    {
        packed_position(self.ram, ANCILLA_Y_LO + self.slot, ANCILLA_Y_HI + self.slot)
    }

    pub fn y_low(&self) -> (result: u8)
        requires
            ANCILLA_Y_LO + self.slot_index() <= usize::MAX,
        ensures
            result == access::byte_at(self.ram(), ANCILLA_Y_LO + self.slot_index()),
    {
        byte(self.ram, ANCILLA_Y_LO + self.slot)
    }

    pub fn y_high(&self) -> (result: u8)
        requires
            ANCILLA_Y_HI + self.slot_index() <= usize::MAX,
        ensures
            result == access::byte_at(self.ram(), ANCILLA_Y_HI + self.slot_index()),
    {
        byte(self.ram, ANCILLA_Y_HI + self.slot)
    }

    pub fn x_velocity(&self) -> (result: u8)
        requires
            ANCILLA_X_VELOCITY + self.slot_index() <= usize::MAX,
        ensures
            result == access::byte_at(self.ram(), ANCILLA_X_VELOCITY + self.slot_index()),
    {
        byte(self.ram, ANCILLA_X_VELOCITY + self.slot)
    }

    pub fn y_velocity(&self) -> (result: u8)
        requires
            ANCILLA_Y_VELOCITY + self.slot_index() <= usize::MAX,
        ensures
            result == access::byte_at(self.ram(), ANCILLA_Y_VELOCITY + self.slot_index()),
    {
        byte(self.ram, ANCILLA_Y_VELOCITY + self.slot)
    }

    pub fn z_velocity(&self) -> (result: u8)
        requires
            ANCILLA_Z_VELOCITY + self.slot_index() <= usize::MAX,
        ensures
            result == access::byte_at(self.ram(), ANCILLA_Z_VELOCITY + self.slot_index()),
    {
        byte(self.ram, ANCILLA_Z_VELOCITY + self.slot)
    }

    pub fn x_subpixel(&self) -> (result: u8)
        requires
            ANCILLA_X_SUBPIXEL + self.slot_index() <= usize::MAX,
        ensures
            result == access::byte_at(self.ram(), ANCILLA_X_SUBPIXEL + self.slot_index()),
    {
        byte(self.ram, ANCILLA_X_SUBPIXEL + self.slot)
    }

    pub fn y_subpixel(&self) -> (result: u8)
        requires
            ANCILLA_Y_SUBPIXEL + self.slot_index() <= usize::MAX,
        ensures
            result == access::byte_at(self.ram(), ANCILLA_Y_SUBPIXEL + self.slot_index()),
    {
        byte(self.ram, ANCILLA_Y_SUBPIXEL + self.slot)
    }

    pub fn z(&self) -> (result: u8)
        requires
            ANCILLA_Z + self.slot_index() <= usize::MAX,
        ensures
            result == access::byte_at(self.ram(), ANCILLA_Z + self.slot_index()),
    {
        byte(self.ram, ANCILLA_Z + self.slot)
    }

    pub fn z_subpixel(&self) -> (result: u8)
        requires
            ANCILLA_Z_SUBPIXEL_PLAYER + self.slot_index() <= usize::MAX,
        ensures
            result == access::byte_at(self.ram(), ANCILLA_Z_SUBPIXEL_PLAYER + self.slot_index()),
    {
        byte(self.ram, ANCILLA_Z_SUBPIXEL_PLAYER + self.slot)
    }

    pub fn item_to_link(&self) -> (result: u8)
        requires
            ANCILLA_ITEM_TO_LINK + self.slot_index() <= usize::MAX,
        ensures
            result == access::byte_at(self.ram(), ANCILLA_ITEM_TO_LINK + self.slot_index()),
    {
        byte(self.ram, ANCILLA_ITEM_TO_LINK + self.slot)
    }

    pub fn timer(&self) -> (result: u8)
        requires
            ANCILLA_TIMER + self.slot_index() <= usize::MAX,
        ensures
            result == access::byte_at(self.ram(), ANCILLA_TIMER + self.slot_index()),
    {
        byte(self.ram, ANCILLA_TIMER + self.slot)
    }

    pub fn floor(&self) -> (result: u8)
        requires
            ANCILLA_FLOOR + self.slot_index() <= usize::MAX,
        ensures
            result == access::byte_at(self.ram(), ANCILLA_FLOOR + self.slot_index()),
    {
        byte(self.ram, ANCILLA_FLOOR + self.slot)
    }

    pub fn floor2(&self) -> (result: u8)
        requires
            ANCILLA_FLOOR2 + self.slot_index() <= usize::MAX,
        ensures
            result == access::byte_at(self.ram(), ANCILLA_FLOOR2 + self.slot_index()),
    {
        byte(self.ram, ANCILLA_FLOOR2 + self.slot)
    }

    pub fn object_priority(&self) -> (result: u8)
        requires
            ANCILLA_OBJPRIO + self.slot_index() <= usize::MAX,
        ensures
            result == access::byte_at(self.ram(), ANCILLA_OBJPRIO + self.slot_index()),
    {
        byte(self.ram, ANCILLA_OBJPRIO + self.slot)
    }

    pub fn u(&self) -> (result: u8)
        requires
            ANCILLA_U + self.slot_index() <= usize::MAX,
        ensures
            result == access::byte_at(self.ram(), ANCILLA_U + self.slot_index()),
    {
        byte(self.ram, ANCILLA_U + self.slot)
    }

    pub fn num_sprites(&self) -> (result: u8)
        requires
            ANCILLA_NUMSPR + self.slot_index() <= usize::MAX,
        ensures
            result == access::byte_at(self.ram(), ANCILLA_NUMSPR + self.slot_index()),
    {
        byte(self.ram, ANCILLA_NUMSPR + self.slot)
    }

    pub fn direction(&self) -> (result: u8)
        requires
            ANCILLA_DIRECTION + self.slot_index() <= usize::MAX,
        ensures
            result == access::byte_at(self.ram(), ANCILLA_DIRECTION + self.slot_index()),
    {
        byte(self.ram, ANCILLA_DIRECTION + self.slot)
    }

    pub fn tile_attribute(&self) -> (result: u8)
        requires
            ANCILLA_TILE_ATTRIBUTE + self.slot_index() <= usize::MAX,
        ensures
            result == access::byte_at(self.ram(), ANCILLA_TILE_ATTRIBUTE + self.slot_index()),
    {
        byte(self.ram, ANCILLA_TILE_ATTRIBUTE + self.slot)
    }

    pub fn step(&self) -> (result: u8)
        requires
            ANCILLA_STEP + self.slot_index() <= usize::MAX,
        ensures
            result == access::byte_at(self.ram(), ANCILLA_STEP + self.slot_index()),
    {
        byte(self.ram, ANCILLA_STEP + self.slot)
    }

    pub fn aux_timer(&self) -> (result: u8)
        requires
            ANCILLA_AUX_TIMER + self.slot_index() <= usize::MAX,
        ensures
            result == access::byte_at(self.ram(), ANCILLA_AUX_TIMER + self.slot_index()),
    {
        byte(self.ram, ANCILLA_AUX_TIMER + self.slot)
    }

    pub fn work_byte_3(&self) -> (result: u8)
        requires
            ANCILLA_WORK_BYTE_3 + self.slot_index() <= usize::MAX,
        ensures
            result == access::byte_at(self.ram(), ANCILLA_WORK_BYTE_3 + self.slot_index()),
    {
        byte(self.ram, ANCILLA_WORK_BYTE_3 + self.slot)
    }

    pub fn work_byte_1(&self) -> (result: u8)
        requires
            ANCILLA_WORK_BYTE_1 + self.slot_index() <= usize::MAX,
        ensures
            result == access::byte_at(self.ram(), ANCILLA_WORK_BYTE_1 + self.slot_index()),
    {
        byte(self.ram, ANCILLA_WORK_BYTE_1 + self.slot)
    }

    pub fn s_player(&self) -> (result: u8)
        requires
            ANCILLA_S_PLAYER + self.slot_index() <= usize::MAX,
        ensures
            result == access::byte_at(self.ram(), ANCILLA_S_PLAYER + self.slot_index()),
    {
        byte(self.ram, ANCILLA_S_PLAYER + self.slot)
    }

    pub fn t_player(&self) -> (result: u8)
        requires
            ANCILLA_T_PLAYER + self.slot_index() <= usize::MAX,
        ensures
            result == access::byte_at(self.ram(), ANCILLA_T_PLAYER + self.slot_index()),
    {
        byte(self.ram, ANCILLA_T_PLAYER + self.slot)
    }

    pub fn a(&self) -> (result: u8)
        requires
            ANCILLA_A + self.slot_index() <= usize::MAX,
        ensures
            result == access::byte_at(self.ram(), ANCILLA_A + self.slot_index()),
    {
        byte(self.ram, ANCILLA_A + self.slot)
    }

    pub fn b(&self) -> (result: u8)
        requires
            ANCILLA_B + self.slot_index() <= usize::MAX,
        ensures
            result == access::byte_at(self.ram(), ANCILLA_B + self.slot_index()),
    {
        byte(self.ram, ANCILLA_B + self.slot)
    }

    pub fn ab_word(&self) -> (result: u16)
        requires
            ANCILLA_A + self.slot_index() <= usize::MAX,
            ANCILLA_B + self.slot_index() <= usize::MAX,
        ensures
            result == ((access::byte_at(self.ram(), ANCILLA_A + self.slot_index()) as u16)
                 | ((access::byte_at(self.ram(), ANCILLA_B + self.slot_index()) as u16) << 8)),
    {
        self.a() as u16 | ((self.b() as u16) << 8)
    }

    pub fn l(&self) -> (result: u8)
        requires
            ANCILLA_L + self.slot_index() <= usize::MAX,
        ensures
            result == access::byte_at(self.ram(), ANCILLA_L + self.slot_index()),
    {
        byte(self.ram, ANCILLA_L + self.slot)
    }

    pub fn h(&self) -> (result: u8)
        requires
            ANCILLA_H + self.slot_index() <= usize::MAX,
        ensures
            result == access::byte_at(self.ram(), ANCILLA_H + self.slot_index()),
    {
        byte(self.ram, ANCILLA_H + self.slot)
    }

    pub fn k(&self) -> (result: u8)
        requires
            ANCILLA_K + self.slot_index() <= usize::MAX,
        ensures
            result == access::byte_at(self.ram(), ANCILLA_K + self.slot_index()),
    {
        byte(self.ram, ANCILLA_K + self.slot)
    }

    pub fn g(&self) -> (result: u8)
        requires
            ANCILLA_G + self.slot_index() <= usize::MAX,
        ensures
            result == access::byte_at(self.ram(), ANCILLA_G + self.slot_index()),
    {
        byte(self.ram, ANCILLA_G + self.slot)
    }

    pub fn r(&self) -> (result: u8)
        requires
            ANCILLA_R + self.slot_index() <= usize::MAX,
        ensures
            result == access::byte_at(self.ram(), ANCILLA_R + self.slot_index()),
    {
        byte(self.ram, ANCILLA_R + self.slot)
    }

    pub fn work_byte_22(&self) -> (result: u8)
        requires
            ANCILLA_WORK_BYTE_22 + self.slot_index() <= usize::MAX,
        ensures
            result == access::byte_at(self.ram(), ANCILLA_WORK_BYTE_22 + self.slot_index()),
    {
        byte(self.ram, ANCILLA_WORK_BYTE_22 + self.slot)
    }

    pub fn work_byte_23(&self) -> (result: u8)
        requires
            ANCILLA_WORK_BYTE_23 + self.slot_index() <= usize::MAX,
        ensures
            result == access::byte_at(self.ram(), ANCILLA_WORK_BYTE_23 + self.slot_index()),
    {
        byte(self.ram, ANCILLA_WORK_BYTE_23 + self.slot)
    }

    pub fn work_byte_24(&self) -> (result: u8)
        requires
            ANCILLA_WORK_BYTE_24 + self.slot_index() <= usize::MAX,
        ensures
            result == access::byte_at(self.ram(), ANCILLA_WORK_BYTE_24 + self.slot_index()),
    {
        byte(self.ram, ANCILLA_WORK_BYTE_24 + self.slot)
    }

    pub fn work_byte_4(&self) -> (result: u8)
        requires
            ANCILLA_WORK_BYTE_4 + self.slot_index() <= usize::MAX,
        ensures
            result == access::byte_at(self.ram(), ANCILLA_WORK_BYTE_4 + self.slot_index()),
    {
        byte(self.ram, ANCILLA_WORK_BYTE_4 + self.slot)
    }

    pub fn work_byte_25(&self) -> (result: u8)
        requires
            ANCILLA_WORK_BYTE_25 + self.slot_index() <= usize::MAX,
        ensures
            result == access::byte_at(self.ram(), ANCILLA_WORK_BYTE_25 + self.slot_index()),
    {
        byte(self.ram, ANCILLA_WORK_BYTE_25 + self.slot)
    }

    pub fn work_byte_26(&self) -> (result: u8)
        requires
            ANCILLA_WORK_BYTE_26 + self.slot_index() <= usize::MAX,
        ensures
            result == access::byte_at(self.ram(), ANCILLA_WORK_BYTE_26 + self.slot_index()),
    {
        byte(self.ram, ANCILLA_WORK_BYTE_26 + self.slot)
    }
}

pub struct AncillaSlotViewMut<'a> {
    pub ram: &'a mut [u8],
    pub slot: usize,
}

impl<'a> AncillaSlotViewMut<'a> {
    /// The bytes of RAM this view reads and writes.
    pub open spec fn ram(&self) -> Seq<u8> {
        self.ram@
    }

    /// The slot whose fields this view addresses.
    pub open spec fn slot_index(&self) -> usize {
        self.slot
    }

    pub fn new(ram: &'a mut [u8], slot: usize) -> (view: Self)
        ensures
            view.ram() == old(ram)@,
            view.slot_index() == slot,
            final(view.ram)@ == final(ram)@,
    {
        Self { ram, slot }
    }

    pub fn set_ancilla_type(&mut self, value: u8)
        requires
            ANCILLA_TYPE + old(self).slot_index() < old(self).ram().len(),
        ensures
            final(self).ram() == old(self).ram().update(
                ANCILLA_TYPE + old(self).slot_index(),
                value,
            ),
            final(self).slot_index() == old(self).slot_index(),
            final(final(self).ram)@ == final(old(self).ram)@,
    {
        proof {
            assert(self.ram@.len() == self.ram.len());
        }
        self.ram[ANCILLA_TYPE + self.slot] = value;
    }

    pub fn increment_ancilla_type(&mut self) -> (result: u8)
        requires
            ANCILLA_TYPE + old(self).slot_index() < old(self).ram().len(),
        ensures
            result == old(self).ram()[ANCILLA_TYPE + old(self).slot_index()].wrapping_add(1),
            final(self).ram() == old(self).ram().update(
                ANCILLA_TYPE + old(self).slot_index(),
                old(self).ram()[ANCILLA_TYPE + old(self).slot_index()].wrapping_add(1),
            ),
            final(self).slot_index() == old(self).slot_index(),
            final(final(self).ram)@ == final(old(self).ram)@,
    {
        proof {
            assert(self.ram@.len() == self.ram.len());
        }
        self.ram[ANCILLA_TYPE + self.slot] = self.ram[ANCILLA_TYPE + self.slot].wrapping_add(1);
        self.ram[ANCILLA_TYPE + self.slot]
    }

    pub fn clear(&mut self)
        requires
            ANCILLA_TYPE + old(self).slot_index() < old(self).ram().len(),
        ensures
            final(self).ram() == old(self).ram().update(ANCILLA_TYPE + old(self).slot_index(), 0),
            final(self).slot_index() == old(self).slot_index(),
            final(final(self).ram)@ == final(old(self).ram)@,
    {
        proof {
            assert(self.ram@.len() == self.ram.len());
        }
        self.set_ancilla_type(0);
    }

    pub fn set_x(&mut self, value: u16)
        requires
            ANCILLA_X_LO + old(self).slot_index() < old(self).ram().len(),
            ANCILLA_X_HI + old(self).slot_index() < old(self).ram().len(),
        ensures
            final(self).ram() == old(self).ram()
                .update(ANCILLA_X_LO + old(self).slot_index(), types::low_byte(value))
                .update(ANCILLA_X_HI + old(self).slot_index(), types::high_byte(value)),
            final(self).slot_index() == old(self).slot_index(),
            final(final(self).ram)@ == final(old(self).ram)@,
    {
        proof {
            assert(self.ram@.len() == self.ram.len());
        }
        write_position(self.ram, ANCILLA_X_LO + self.slot, ANCILLA_X_HI + self.slot, value);
    }

    pub fn set_x_low(&mut self, value: u8)
        requires
            ANCILLA_X_LO + old(self).slot_index() < old(self).ram().len(),
        ensures
            final(self).ram() == old(self).ram().update(
                ANCILLA_X_LO + old(self).slot_index(),
                value,
            ),
            final(self).slot_index() == old(self).slot_index(),
            final(final(self).ram)@ == final(old(self).ram)@,
    {
        proof {
            assert(self.ram@.len() == self.ram.len());
        }
        self.ram[ANCILLA_X_LO + self.slot] = value;
    }

    pub fn set_x_high(&mut self, value: u8)
        requires
            ANCILLA_X_HI + old(self).slot_index() < old(self).ram().len(),
        ensures
            final(self).ram() == old(self).ram().update(
                ANCILLA_X_HI + old(self).slot_index(),
                value,
            ),
            final(self).slot_index() == old(self).slot_index(),
            final(final(self).ram)@ == final(old(self).ram)@,
    {
        proof {
            assert(self.ram@.len() == self.ram.len());
        }
        self.ram[ANCILLA_X_HI + self.slot] = value;
    }

    pub fn set_y(&mut self, value: u16)
        requires
            ANCILLA_Y_LO + old(self).slot_index() < old(self).ram().len(),
            ANCILLA_Y_HI + old(self).slot_index() < old(self).ram().len(),
        ensures
            final(self).ram() == old(self).ram()
                .update(ANCILLA_Y_LO + old(self).slot_index(), types::low_byte(value))
                .update(ANCILLA_Y_HI + old(self).slot_index(), types::high_byte(value)),
            final(self).slot_index() == old(self).slot_index(),
            final(final(self).ram)@ == final(old(self).ram)@,
    {
        proof {
            assert(self.ram@.len() == self.ram.len());
        }
        write_position(self.ram, ANCILLA_Y_LO + self.slot, ANCILLA_Y_HI + self.slot, value);
    }

    pub fn set_y_low(&mut self, value: u8)
        requires
            ANCILLA_Y_LO + old(self).slot_index() < old(self).ram().len(),
        ensures
            final(self).ram() == old(self).ram().update(
                ANCILLA_Y_LO + old(self).slot_index(),
                value,
            ),
            final(self).slot_index() == old(self).slot_index(),
            final(final(self).ram)@ == final(old(self).ram)@,
    {
        proof {
            assert(self.ram@.len() == self.ram.len());
        }
        self.ram[ANCILLA_Y_LO + self.slot] = value;
    }

    pub fn set_y_high(&mut self, value: u8)
        requires
            ANCILLA_Y_HI + old(self).slot_index() < old(self).ram().len(),
        ensures
            final(self).ram() == old(self).ram().update(
                ANCILLA_Y_HI + old(self).slot_index(),
                value,
            ),
            final(self).slot_index() == old(self).slot_index(),
            final(final(self).ram)@ == final(old(self).ram)@,
    {
        proof {
            assert(self.ram@.len() == self.ram.len());
        }
        self.ram[ANCILLA_Y_HI + self.slot] = value;
    }

    pub fn set_x_subpixel(&mut self, value: u8)
        requires
            ANCILLA_X_SUBPIXEL + old(self).slot_index() < old(self).ram().len(),
        ensures
            final(self).ram() == old(self).ram().update(
                ANCILLA_X_SUBPIXEL + old(self).slot_index(),
                value,
            ),
            final(self).slot_index() == old(self).slot_index(),
            final(final(self).ram)@ == final(old(self).ram)@,
    {
        proof {
            assert(self.ram@.len() == self.ram.len());
        }
        self.ram[ANCILLA_X_SUBPIXEL + self.slot] = value;
    }

    pub fn set_y_subpixel(&mut self, value: u8)
        requires
            ANCILLA_Y_SUBPIXEL + old(self).slot_index() < old(self).ram().len(),
        ensures
            final(self).ram() == old(self).ram().update(
                ANCILLA_Y_SUBPIXEL + old(self).slot_index(),
                value,
            ),
            final(self).slot_index() == old(self).slot_index(),
            final(final(self).ram)@ == final(old(self).ram)@,
    {
        proof {
            assert(self.ram@.len() == self.ram.len());
        }
        self.ram[ANCILLA_Y_SUBPIXEL + self.slot] = value;
    }

    pub fn set_x_velocity(&mut self, value: u8)
        requires
            ANCILLA_X_VELOCITY + old(self).slot_index() < old(self).ram().len(),
        ensures
            final(self).ram() == old(self).ram().update(
                ANCILLA_X_VELOCITY + old(self).slot_index(),
                value,
            ),
            final(self).slot_index() == old(self).slot_index(),
            final(final(self).ram)@ == final(old(self).ram)@,
    {
        proof {
            assert(self.ram@.len() == self.ram.len());
        }
        self.ram[ANCILLA_X_VELOCITY + self.slot] = value;
    }

    pub fn set_y_velocity(&mut self, value: u8)
        requires
            ANCILLA_Y_VELOCITY + old(self).slot_index() < old(self).ram().len(),
        ensures
            final(self).ram() == old(self).ram().update(
                ANCILLA_Y_VELOCITY + old(self).slot_index(),
                value,
            ),
            final(self).slot_index() == old(self).slot_index(),
            final(final(self).ram)@ == final(old(self).ram)@,
    {
        proof {
            assert(self.ram@.len() == self.ram.len());
        }
        self.ram[ANCILLA_Y_VELOCITY + self.slot] = value;
    }

    pub fn x_velocity(&self) -> (result: u8)
        requires
            ANCILLA_X_VELOCITY + self.slot_index() < self.ram().len(),
        ensures
            result == self.ram()[ANCILLA_X_VELOCITY + self.slot_index()],
    {
        proof {
            assert(self.ram@.len() == self.ram.len());
        }
        self.ram[ANCILLA_X_VELOCITY + self.slot]
    }

    pub fn y_velocity(&self) -> (result: u8)
        requires
            ANCILLA_Y_VELOCITY + self.slot_index() < self.ram().len(),
        ensures
            result == self.ram()[ANCILLA_Y_VELOCITY + self.slot_index()],
    {
        proof {
            assert(self.ram@.len() == self.ram.len());
        }
        self.ram[ANCILLA_Y_VELOCITY + self.slot]
    }

    pub fn add_x_velocity(&mut self, value: u8) -> (result: u8)
        requires
            ANCILLA_X_VELOCITY + old(self).slot_index() < old(self).ram().len(),
        ensures
            result == old(self).ram()[ANCILLA_X_VELOCITY + old(self).slot_index()].wrapping_add(value),
            final(self).ram() == old(self).ram().update(
                ANCILLA_X_VELOCITY + old(self).slot_index(),
                old(self).ram()[ANCILLA_X_VELOCITY + old(self).slot_index()].wrapping_add(value),
            ),
            final(self).slot_index() == old(self).slot_index(),
            final(final(self).ram)@ == final(old(self).ram)@,
    {
        proof {
            assert(self.ram@.len() == self.ram.len());
        }
        let velocity = self.ram[ANCILLA_X_VELOCITY + self.slot].wrapping_add(value);
        self.set_x_velocity(velocity);
        velocity
    }

    pub fn add_y_velocity(&mut self, value: u8) -> (result: u8)
        requires
            ANCILLA_Y_VELOCITY + old(self).slot_index() < old(self).ram().len(),
        ensures
            result == old(self).ram()[ANCILLA_Y_VELOCITY + old(self).slot_index()].wrapping_add(value),
            final(self).ram() == old(self).ram().update(
                ANCILLA_Y_VELOCITY + old(self).slot_index(),
                old(self).ram()[ANCILLA_Y_VELOCITY + old(self).slot_index()].wrapping_add(value),
            ),
            final(self).slot_index() == old(self).slot_index(),
            final(final(self).ram)@ == final(old(self).ram)@,
    {
        proof {
            assert(self.ram@.len() == self.ram.len());
        }
        let velocity = self.ram[ANCILLA_Y_VELOCITY + self.slot].wrapping_add(value);
        self.set_y_velocity(velocity);
        velocity
    }

    pub fn subtract_y_velocity(&mut self, value: u8)
        requires
            ANCILLA_Y_VELOCITY + old(self).slot_index() < old(self).ram().len(),
        ensures
            final(self).ram() == old(self).ram().update(
                ANCILLA_Y_VELOCITY + old(self).slot_index(),
                old(self).ram()[ANCILLA_Y_VELOCITY + old(self).slot_index()].wrapping_sub(value),
            ),
            final(self).slot_index() == old(self).slot_index(),
            final(final(self).ram)@ == final(old(self).ram)@,
    {
        proof {
            assert(self.ram@.len() == self.ram.len());
        }
        self.ram[ANCILLA_Y_VELOCITY + self.slot] = self.ram[ANCILLA_Y_VELOCITY + self.slot].wrapping_sub(value);
    }

    pub fn negate_x_velocity(&mut self)
        requires
            ANCILLA_X_VELOCITY + old(self).slot_index() < old(self).ram().len(),
        ensures
            final(self).ram() == old(self).ram().update(
                ANCILLA_X_VELOCITY + old(self).slot_index(),
                0u8.wrapping_sub(old(self).ram()[ANCILLA_X_VELOCITY + old(self).slot_index()]),
            ),
            final(self).slot_index() == old(self).slot_index(),
            final(final(self).ram)@ == final(old(self).ram)@,
    {
        proof {
            assert(self.ram@.len() == self.ram.len());
        }
        self.ram[ANCILLA_X_VELOCITY + self.slot] = 0u8.wrapping_sub(self.ram[ANCILLA_X_VELOCITY + self.slot]);
    }

    pub fn negate_y_velocity(&mut self)
        requires
            ANCILLA_Y_VELOCITY + old(self).slot_index() < old(self).ram().len(),
        ensures
            final(self).ram() == old(self).ram().update(
                ANCILLA_Y_VELOCITY + old(self).slot_index(),
                0u8.wrapping_sub(old(self).ram()[ANCILLA_Y_VELOCITY + old(self).slot_index()]),
            ),
            final(self).slot_index() == old(self).slot_index(),
            final(final(self).ram)@ == final(old(self).ram)@,
    {
        proof {
            assert(self.ram@.len() == self.ram.len());
        }
        self.ram[ANCILLA_Y_VELOCITY + self.slot] = 0u8.wrapping_sub(self.ram[ANCILLA_Y_VELOCITY + self.slot]);
    }

    pub fn set_z_velocity(&mut self, value: u8)
        requires
            ANCILLA_Z_VELOCITY + old(self).slot_index() < old(self).ram().len(),
        ensures
            final(self).ram() == old(self).ram().update(
                ANCILLA_Z_VELOCITY + old(self).slot_index(),
                value,
            ),
            final(self).slot_index() == old(self).slot_index(),
            final(final(self).ram)@ == final(old(self).ram)@,
    {
        proof {
            assert(self.ram@.len() == self.ram.len());
        }
        self.ram[ANCILLA_Z_VELOCITY + self.slot] = value;
    }

    pub fn add_z_velocity(&mut self, value: u8)
        requires
            ANCILLA_Z_VELOCITY + old(self).slot_index() < old(self).ram().len(),
        ensures
            final(self).ram() == old(self).ram().update(
                ANCILLA_Z_VELOCITY + old(self).slot_index(),
                old(self).ram()[ANCILLA_Z_VELOCITY + old(self).slot_index()].wrapping_add(value),
            ),
            final(self).slot_index() == old(self).slot_index(),
            final(final(self).ram)@ == final(old(self).ram)@,
    {
        proof {
            assert(self.ram@.len() == self.ram.len());
        }
        self.ram[ANCILLA_Z_VELOCITY + self.slot] = self.ram[ANCILLA_Z_VELOCITY + self.slot].wrapping_add(value);
    }

    pub fn tick_z_velocity(&mut self) -> (result: u8)
        requires
            ANCILLA_Z_VELOCITY + old(self).slot_index() < old(self).ram().len(),
        ensures
            result == old(self).ram()[ANCILLA_Z_VELOCITY + old(self).slot_index()].wrapping_sub(1),
            final(self).ram() == old(self).ram().update(
                ANCILLA_Z_VELOCITY + old(self).slot_index(),
                old(self).ram()[ANCILLA_Z_VELOCITY + old(self).slot_index()].wrapping_sub(1),
            ),
            final(self).slot_index() == old(self).slot_index(),
            final(final(self).ram)@ == final(old(self).ram)@,
    {
        proof {
            assert(self.ram@.len() == self.ram.len());
        }
        let value = self.ram[ANCILLA_Z_VELOCITY + self.slot].wrapping_sub(1);
        self.set_z_velocity(value);
        value
    }

    pub fn set_z(&mut self, value: u8)
        requires
            ANCILLA_Z + old(self).slot_index() < old(self).ram().len(),
        ensures
            final(self).ram() == old(self).ram().update(ANCILLA_Z + old(self).slot_index(), value),
            final(self).slot_index() == old(self).slot_index(),
            final(final(self).ram)@ == final(old(self).ram)@,
    {
        proof {
            assert(self.ram@.len() == self.ram.len());
        }
        self.ram[ANCILLA_Z + self.slot] = value;
    }

    pub fn set_z_subpixel(&mut self, value: u8)
        requires
            ANCILLA_Z_SUBPIXEL_PLAYER + old(self).slot_index() < old(self).ram().len(),
        ensures
            final(self).ram() == old(self).ram().update(
                ANCILLA_Z_SUBPIXEL_PLAYER + old(self).slot_index(),
                value,
            ),
            final(self).slot_index() == old(self).slot_index(),
            final(final(self).ram)@ == final(old(self).ram)@,
    {
        proof {
            assert(self.ram@.len() == self.ram.len());
        }
        self.ram[ANCILLA_Z_SUBPIXEL_PLAYER + self.slot] = value;
    }

    pub fn move_x(&mut self)
        requires
            ANCILLA_X_SUBPIXEL + old(self).slot_index() < old(self).ram().len(),
            ANCILLA_X_LO + old(self).slot_index() < old(self).ram().len(),
            ANCILLA_X_HI + old(self).slot_index() < old(self).ram().len(),
            ANCILLA_X_VELOCITY + old(self).slot_index() < old(self).ram().len(),
        ensures
            final(self).ram() == access::moved_axis24(
                old(self).ram(),
                ANCILLA_X_SUBPIXEL + old(self).slot_index(),
                ANCILLA_X_LO + old(self).slot_index(),
                ANCILLA_X_HI + old(self).slot_index(),
                ANCILLA_X_VELOCITY + old(self).slot_index(),
            ),
            final(self).slot_index() == old(self).slot_index(),
            final(final(self).ram)@ == final(old(self).ram)@,
    {
        proof {
            assert(self.ram@.len() == self.ram.len());
        }
        move_axis24(
            self.ram,
            ANCILLA_X_SUBPIXEL + self.slot,
            ANCILLA_X_LO + self.slot,
            ANCILLA_X_HI + self.slot,
            ANCILLA_X_VELOCITY + self.slot,
        );
    }

    pub fn move_y(&mut self)
        requires
            ANCILLA_Y_SUBPIXEL + old(self).slot_index() < old(self).ram().len(),
            ANCILLA_Y_LO + old(self).slot_index() < old(self).ram().len(),
            ANCILLA_Y_HI + old(self).slot_index() < old(self).ram().len(),
            ANCILLA_Y_VELOCITY + old(self).slot_index() < old(self).ram().len(),
        ensures
            final(self).ram() == access::moved_axis24(
                old(self).ram(),
                ANCILLA_Y_SUBPIXEL + old(self).slot_index(),
                ANCILLA_Y_LO + old(self).slot_index(),
                ANCILLA_Y_HI + old(self).slot_index(),
                ANCILLA_Y_VELOCITY + old(self).slot_index(),
            ),
            final(self).slot_index() == old(self).slot_index(),
            final(final(self).ram)@ == final(old(self).ram)@,
    {
        proof {
            assert(self.ram@.len() == self.ram.len());
        }
        move_axis24(
            self.ram,
            ANCILLA_Y_SUBPIXEL + self.slot,
            ANCILLA_Y_LO + self.slot,
            ANCILLA_Y_HI + self.slot,
            ANCILLA_Y_VELOCITY + self.slot,
        );
    }

    pub fn move_z(&mut self)
        requires
            ANCILLA_Z_SUBPIXEL_PLAYER + old(self).slot_index() < old(self).ram().len(),
            ANCILLA_Z + old(self).slot_index() < old(self).ram().len(),
            ANCILLA_Z_VELOCITY + old(self).slot_index() < old(self).ram().len(),
        ensures
            final(self).ram() == access::moved_axis16(
                old(self).ram(),
                ANCILLA_Z_SUBPIXEL_PLAYER + old(self).slot_index(),
                ANCILLA_Z + old(self).slot_index(),
                ANCILLA_Z_VELOCITY + old(self).slot_index(),
            ),
            final(self).slot_index() == old(self).slot_index(),
            final(final(self).ram)@ == final(old(self).ram)@,
    {
        proof {
            assert(self.ram@.len() == self.ram.len());
        }
        move_axis16(
            self.ram,
            ANCILLA_Z_SUBPIXEL_PLAYER + self.slot,
            ANCILLA_Z + self.slot,
            ANCILLA_Z_VELOCITY + self.slot,
        );
    }

    pub fn set_item_to_link(&mut self, value: u8)
        requires
            ANCILLA_ITEM_TO_LINK + old(self).slot_index() < old(self).ram().len(),
        ensures
            final(self).ram() == old(self).ram().update(
                ANCILLA_ITEM_TO_LINK + old(self).slot_index(),
                value,
            ),
            final(self).slot_index() == old(self).slot_index(),
            final(final(self).ram)@ == final(old(self).ram)@,
    {
        proof {
            assert(self.ram@.len() == self.ram.len());
        }
        self.ram[ANCILLA_ITEM_TO_LINK + self.slot] = value;
    }

    pub fn advance_item_to_link(&mut self) -> (result: u8)
        requires
            ANCILLA_ITEM_TO_LINK + old(self).slot_index() < old(self).ram().len(),
        ensures
            result == old(self).ram()[ANCILLA_ITEM_TO_LINK + old(self).slot_index()].wrapping_add(1),
            final(self).ram() == old(self).ram().update(
                ANCILLA_ITEM_TO_LINK + old(self).slot_index(),
                old(self).ram()[ANCILLA_ITEM_TO_LINK + old(self).slot_index()].wrapping_add(1),
            ),
            final(self).slot_index() == old(self).slot_index(),
            final(final(self).ram)@ == final(old(self).ram)@,
    {
        proof {
            assert(self.ram@.len() == self.ram.len());
        }
        let value = self.ram[ANCILLA_ITEM_TO_LINK + self.slot].wrapping_add(1);
        self.set_item_to_link(value);
        value
    }

    pub fn add_item_to_link(&mut self, value: u8)
        requires
            ANCILLA_ITEM_TO_LINK + old(self).slot_index() < old(self).ram().len(),
        ensures
            final(self).ram() == old(self).ram().update(
                ANCILLA_ITEM_TO_LINK + old(self).slot_index(),
                old(self).ram()[ANCILLA_ITEM_TO_LINK + old(self).slot_index()].wrapping_add(value),
            ),
            final(self).slot_index() == old(self).slot_index(),
            final(final(self).ram)@ == final(old(self).ram)@,
    {
        proof {
            assert(self.ram@.len() == self.ram.len());
        }
        self.ram[ANCILLA_ITEM_TO_LINK + self.slot] = self.ram[ANCILLA_ITEM_TO_LINK + self.slot].wrapping_add(value);
    }

    pub fn retreat_item_to_link(&mut self) -> (result: u8)
        requires
            ANCILLA_ITEM_TO_LINK + old(self).slot_index() < old(self).ram().len(),
        ensures
            result == old(self).ram()[ANCILLA_ITEM_TO_LINK + old(self).slot_index()].wrapping_sub(1),
            final(self).ram() == old(self).ram().update(
                ANCILLA_ITEM_TO_LINK + old(self).slot_index(),
                old(self).ram()[ANCILLA_ITEM_TO_LINK + old(self).slot_index()].wrapping_sub(1),
            ),
            final(self).slot_index() == old(self).slot_index(),
            final(final(self).ram)@ == final(old(self).ram)@,
    {
        proof {
            assert(self.ram@.len() == self.ram.len());
        }
        let value = self.ram[ANCILLA_ITEM_TO_LINK + self.slot].wrapping_sub(1);
        self.set_item_to_link(value);
        value
    }

    pub fn toggle_item_to_link_bit0(&mut self) -> (result: u8)
        requires
            ANCILLA_ITEM_TO_LINK + old(self).slot_index() < old(self).ram().len(),
        ensures
            result == (old(self).ram()[ANCILLA_ITEM_TO_LINK + old(self).slot_index()] ^ 1u8),
            final(self).ram() == old(self).ram().update(
                ANCILLA_ITEM_TO_LINK + old(self).slot_index(),
                old(self).ram()[ANCILLA_ITEM_TO_LINK + old(self).slot_index()] ^ 1u8,
            ),
            final(self).slot_index() == old(self).slot_index(),
            final(final(self).ram)@ == final(old(self).ram)@,
    {
        proof {
            assert(self.ram@.len() == self.ram.len());
        }
        let value = self.ram[ANCILLA_ITEM_TO_LINK + self.slot] ^ 1;
        self.set_item_to_link(value);
        value
    }

    pub fn set_timer(&mut self, value: u8)
        requires
            ANCILLA_TIMER + old(self).slot_index() < old(self).ram().len(),
        ensures
            final(self).ram() == old(self).ram().update(
                ANCILLA_TIMER + old(self).slot_index(),
                value,
            ),
            final(self).slot_index() == old(self).slot_index(),
            final(final(self).ram)@ == final(old(self).ram)@,
    {
        proof {
            assert(self.ram@.len() == self.ram.len());
        }
        self.ram[ANCILLA_TIMER + self.slot] = value;
    }

    pub fn tick_timer(&mut self) -> (result: u8)
        requires
            ANCILLA_TIMER + old(self).slot_index() < old(self).ram().len(),
        ensures
            result == old(self).ram()[ANCILLA_TIMER + old(self).slot_index()].wrapping_sub(1),
            final(self).ram() == old(self).ram().update(
                ANCILLA_TIMER + old(self).slot_index(),
                old(self).ram()[ANCILLA_TIMER + old(self).slot_index()].wrapping_sub(1),
            ),
            final(self).slot_index() == old(self).slot_index(),
            final(final(self).ram)@ == final(old(self).ram)@,
    {
        proof {
            assert(self.ram@.len() == self.ram.len());
        }
        let value = self.ram[ANCILLA_TIMER + self.slot].wrapping_sub(1);
        self.set_timer(value);
        value
    }

    pub fn set_floor(&mut self, value: u8)
        requires
            ANCILLA_FLOOR + old(self).slot_index() < old(self).ram().len(),
        ensures
            final(self).ram() == old(self).ram().update(
                ANCILLA_FLOOR + old(self).slot_index(),
                value,
            ),
            final(self).slot_index() == old(self).slot_index(),
            final(final(self).ram)@ == final(old(self).ram)@,
    {
        proof {
            assert(self.ram@.len() == self.ram.len());
        }
        self.ram[ANCILLA_FLOOR + self.slot] = value;
    }

    pub fn set_floor2(&mut self, value: u8)
        requires
            ANCILLA_FLOOR2 + old(self).slot_index() < old(self).ram().len(),
        ensures
            final(self).ram() == old(self).ram().update(
                ANCILLA_FLOOR2 + old(self).slot_index(),
                value,
            ),
            final(self).slot_index() == old(self).slot_index(),
            final(final(self).ram)@ == final(old(self).ram)@,
    {
        proof {
            assert(self.ram@.len() == self.ram.len());
        }
        self.ram[ANCILLA_FLOOR2 + self.slot] = value;
    }

    pub fn set_oam_index(&mut self, value: u8)
        requires
            ANCILLA_OAM_IDX + old(self).slot_index() < old(self).ram().len(),
        ensures
            final(self).ram() == old(self).ram().update(
                ANCILLA_OAM_IDX + old(self).slot_index(),
                value,
            ),
            final(self).slot_index() == old(self).slot_index(),
            final(final(self).ram)@ == final(old(self).ram)@,
    {
        proof {
            assert(self.ram@.len() == self.ram.len());
        }
        self.ram[ANCILLA_OAM_IDX + self.slot] = value;
    }

    pub fn set_num_sprites(&mut self, value: u8)
        requires
            ANCILLA_NUMSPR + old(self).slot_index() < old(self).ram().len(),
        ensures
            final(self).ram() == old(self).ram().update(
                ANCILLA_NUMSPR + old(self).slot_index(),
                value,
            ),
            final(self).slot_index() == old(self).slot_index(),
            final(final(self).ram)@ == final(old(self).ram)@,
    {
        proof {
            assert(self.ram@.len() == self.ram.len());
        }
        self.ram[ANCILLA_NUMSPR + self.slot] = value;
    }

    pub fn set_object_priority(&mut self, value: u8)
        requires
            ANCILLA_OBJPRIO + old(self).slot_index() < old(self).ram().len(),
        ensures
            final(self).ram() == old(self).ram().update(
                ANCILLA_OBJPRIO + old(self).slot_index(),
                value,
            ),
            final(self).slot_index() == old(self).slot_index(),
            final(final(self).ram)@ == final(old(self).ram)@,
    {
        proof {
            assert(self.ram@.len() == self.ram.len());
        }
        self.ram[ANCILLA_OBJPRIO + self.slot] = value;
    }

    pub fn xor_object_priority(&mut self, value: u8)
        requires
            ANCILLA_OBJPRIO + old(self).slot_index() < old(self).ram().len(),
        ensures
            final(self).ram() == old(self).ram().update(
                ANCILLA_OBJPRIO + old(self).slot_index(),
                old(self).ram()[ANCILLA_OBJPRIO + old(self).slot_index()] ^ value,
            ),
            final(self).slot_index() == old(self).slot_index(),
            final(final(self).ram)@ == final(old(self).ram)@,
    {
        proof {
            assert(self.ram@.len() == self.ram.len());
        }
        self.ram[ANCILLA_OBJPRIO + self.slot] ^= value;
    }

    pub fn set_direction(&mut self, value: u8)
        requires
            ANCILLA_DIRECTION + old(self).slot_index() < old(self).ram().len(),
        ensures
            final(self).ram() == old(self).ram().update(
                ANCILLA_DIRECTION + old(self).slot_index(),
                value,
            ),
            final(self).slot_index() == old(self).slot_index(),
            final(final(self).ram)@ == final(old(self).ram)@,
    {
        proof {
            assert(self.ram@.len() == self.ram.len());
        }
        self.ram[ANCILLA_DIRECTION + self.slot] = value;
    }

    pub fn or_direction(&mut self, value: u8)
        requires
            ANCILLA_DIRECTION + old(self).slot_index() < old(self).ram().len(),
        ensures
            final(self).ram() == old(self).ram().update(
                ANCILLA_DIRECTION + old(self).slot_index(),
                old(self).ram()[ANCILLA_DIRECTION + old(self).slot_index()] | value,
            ),
            final(self).slot_index() == old(self).slot_index(),
            final(final(self).ram)@ == final(old(self).ram)@,
    {
        proof {
            assert(self.ram@.len() == self.ram.len());
        }
        self.ram[ANCILLA_DIRECTION + self.slot] |= value;
    }

    pub fn and_direction(&mut self, value: u8)
        requires
            ANCILLA_DIRECTION + old(self).slot_index() < old(self).ram().len(),
        ensures
            final(self).ram() == old(self).ram().update(
                ANCILLA_DIRECTION + old(self).slot_index(),
                old(self).ram()[ANCILLA_DIRECTION + old(self).slot_index()] & value,
            ),
            final(self).slot_index() == old(self).slot_index(),
            final(final(self).ram)@ == final(old(self).ram)@,
    {
        proof {
            assert(self.ram@.len() == self.ram.len());
        }
        self.ram[ANCILLA_DIRECTION + self.slot] &= value;
    }

    pub fn add_direction(&mut self, value: u8)
        requires
            ANCILLA_DIRECTION + old(self).slot_index() < old(self).ram().len(),
        ensures
            final(self).ram() == old(self).ram().update(
                ANCILLA_DIRECTION + old(self).slot_index(),
                old(self).ram()[ANCILLA_DIRECTION + old(self).slot_index()].wrapping_add(value),
            ),
            final(self).slot_index() == old(self).slot_index(),
            final(final(self).ram)@ == final(old(self).ram)@,
    {
        proof {
            assert(self.ram@.len() == self.ram.len());
        }
        self.ram[ANCILLA_DIRECTION + self.slot] = self.ram[ANCILLA_DIRECTION + self.slot].wrapping_add(value);
    }

    pub fn set_tile_attribute(&mut self, value: u8)
        requires
            ANCILLA_TILE_ATTRIBUTE + old(self).slot_index() < old(self).ram().len(),
        ensures
            final(self).ram() == old(self).ram().update(
                ANCILLA_TILE_ATTRIBUTE + old(self).slot_index(),
                value,
            ),
            final(self).slot_index() == old(self).slot_index(),
            final(final(self).ram)@ == final(old(self).ram)@,
    {
        proof {
            assert(self.ram@.len() == self.ram.len());
        }
        self.ram[ANCILLA_TILE_ATTRIBUTE + self.slot] = value;
    }

    pub fn set_step(&mut self, value: u8)
        requires
            ANCILLA_STEP + old(self).slot_index() < old(self).ram().len(),
        ensures
            final(self).ram() == old(self).ram().update(
                ANCILLA_STEP + old(self).slot_index(),
                value,
            ),
            final(self).slot_index() == old(self).slot_index(),
            final(final(self).ram)@ == final(old(self).ram)@,
    {
        proof {
            assert(self.ram@.len() == self.ram.len());
        }
        self.ram[ANCILLA_STEP + self.slot] = value;
    }

    pub fn advance_step(&mut self) -> (result: u8)
        requires
            ANCILLA_STEP + old(self).slot_index() < old(self).ram().len(),
        ensures
            result == old(self).ram()[ANCILLA_STEP + old(self).slot_index()].wrapping_add(1),
            final(self).ram() == old(self).ram().update(
                ANCILLA_STEP + old(self).slot_index(),
                old(self).ram()[ANCILLA_STEP + old(self).slot_index()].wrapping_add(1),
            ),
            final(self).slot_index() == old(self).slot_index(),
            final(final(self).ram)@ == final(old(self).ram)@,
    {
        proof {
            assert(self.ram@.len() == self.ram.len());
        }
        let value = self.ram[ANCILLA_STEP + self.slot].wrapping_add(1);
        self.set_step(value);
        value
    }

    pub fn add_step(&mut self, value: u8)
        requires
            ANCILLA_STEP + old(self).slot_index() < old(self).ram().len(),
        ensures
            final(self).ram() == old(self).ram().update(
                ANCILLA_STEP + old(self).slot_index(),
                old(self).ram()[ANCILLA_STEP + old(self).slot_index()].wrapping_add(value),
            ),
            final(self).slot_index() == old(self).slot_index(),
            final(final(self).ram)@ == final(old(self).ram)@,
    {
        proof {
            assert(self.ram@.len() == self.ram.len());
        }
        self.ram[ANCILLA_STEP + self.slot] = self.ram[ANCILLA_STEP + self.slot].wrapping_add(value);
    }

    pub fn retreat_step(&mut self) -> (result: u8)
        requires
            ANCILLA_STEP + old(self).slot_index() < old(self).ram().len(),
        ensures
            result == old(self).ram()[ANCILLA_STEP + old(self).slot_index()].wrapping_sub(1),
            final(self).ram() == old(self).ram().update(
                ANCILLA_STEP + old(self).slot_index(),
                old(self).ram()[ANCILLA_STEP + old(self).slot_index()].wrapping_sub(1),
            ),
            final(self).slot_index() == old(self).slot_index(),
            final(final(self).ram)@ == final(old(self).ram)@,
    {
        proof {
            assert(self.ram@.len() == self.ram.len());
        }
        let value = self.ram[ANCILLA_STEP + self.slot].wrapping_sub(1);
        self.set_step(value);
        value
    }

    pub fn set_aux_timer(&mut self, value: u8)
        requires
            ANCILLA_AUX_TIMER + old(self).slot_index() < old(self).ram().len(),
        ensures
            final(self).ram() == old(self).ram().update(
                ANCILLA_AUX_TIMER + old(self).slot_index(),
                value,
            ),
            final(self).slot_index() == old(self).slot_index(),
            final(final(self).ram)@ == final(old(self).ram)@,
    {
        proof {
            assert(self.ram@.len() == self.ram.len());
        }
        self.ram[ANCILLA_AUX_TIMER + self.slot] = value;
    }

    pub fn advance_aux_timer(&mut self) -> (result: u8)
        requires
            ANCILLA_AUX_TIMER + old(self).slot_index() < old(self).ram().len(),
        ensures
            result == old(self).ram()[ANCILLA_AUX_TIMER + old(self).slot_index()].wrapping_add(1),
            final(self).ram() == old(self).ram().update(
                ANCILLA_AUX_TIMER + old(self).slot_index(),
                old(self).ram()[ANCILLA_AUX_TIMER + old(self).slot_index()].wrapping_add(1),
            ),
            final(self).slot_index() == old(self).slot_index(),
            final(final(self).ram)@ == final(old(self).ram)@,
    {
        proof {
            assert(self.ram@.len() == self.ram.len());
        }
        let value = self.ram[ANCILLA_AUX_TIMER + self.slot].wrapping_add(1);
        self.set_aux_timer(value);
        value
    }

    pub fn add_aux_timer(&mut self, value: u8)
        requires
            ANCILLA_AUX_TIMER + old(self).slot_index() < old(self).ram().len(),
        ensures
            final(self).ram() == old(self).ram().update(
                ANCILLA_AUX_TIMER + old(self).slot_index(),
                old(self).ram()[ANCILLA_AUX_TIMER + old(self).slot_index()].wrapping_add(value),
            ),
            final(self).slot_index() == old(self).slot_index(),
            final(final(self).ram)@ == final(old(self).ram)@,
    {
        proof {
            assert(self.ram@.len() == self.ram.len());
        }
        self.ram[ANCILLA_AUX_TIMER + self.slot] = self.ram[ANCILLA_AUX_TIMER + self.slot].wrapping_add(value);
    }

    pub fn tick_aux_timer(&mut self) -> (result: u8)
        requires
            ANCILLA_AUX_TIMER + old(self).slot_index() < old(self).ram().len(),
        ensures
            result == old(self).ram()[ANCILLA_AUX_TIMER + old(self).slot_index()].wrapping_sub(1),
            final(self).ram() == old(self).ram().update(
                ANCILLA_AUX_TIMER + old(self).slot_index(),
                old(self).ram()[ANCILLA_AUX_TIMER + old(self).slot_index()].wrapping_sub(1),
            ),
            final(self).slot_index() == old(self).slot_index(),
            final(final(self).ram)@ == final(old(self).ram)@,
    {
        proof {
            assert(self.ram@.len() == self.ram.len());
        }
        let value = self.ram[ANCILLA_AUX_TIMER + self.slot].wrapping_sub(1);
        self.set_aux_timer(value);
        value
    }

    pub fn set_work_byte_3(&mut self, value: u8)
        requires
            ANCILLA_WORK_BYTE_3 + old(self).slot_index() < old(self).ram().len(),
        ensures
            final(self).ram() == old(self).ram().update(
                ANCILLA_WORK_BYTE_3 + old(self).slot_index(),
                value,
            ),
            final(self).slot_index() == old(self).slot_index(),
            final(final(self).ram)@ == final(old(self).ram)@,
    {
        proof {
            assert(self.ram@.len() == self.ram.len());
        }
        self.ram[ANCILLA_WORK_BYTE_3 + self.slot] = value;
    }

    pub fn add_work_byte_3(&mut self, value: u8)
        requires
            ANCILLA_WORK_BYTE_3 + old(self).slot_index() < old(self).ram().len(),
        ensures
            final(self).ram() == old(self).ram().update(
                ANCILLA_WORK_BYTE_3 + old(self).slot_index(),
                old(self).ram()[ANCILLA_WORK_BYTE_3 + old(self).slot_index()].wrapping_add(value),
            ),
            final(self).slot_index() == old(self).slot_index(),
            final(final(self).ram)@ == final(old(self).ram)@,
    {
        proof {
            assert(self.ram@.len() == self.ram.len());
        }
        self.ram[ANCILLA_WORK_BYTE_3 + self.slot] = self.ram[ANCILLA_WORK_BYTE_3 + self.slot].wrapping_add(value);
    }

    pub fn set_work_byte_1(&mut self, value: u8)
        requires
            ANCILLA_WORK_BYTE_1 + old(self).slot_index() < old(self).ram().len(),
        ensures
            final(self).ram() == old(self).ram().update(
                ANCILLA_WORK_BYTE_1 + old(self).slot_index(),
                value,
            ),
            final(self).slot_index() == old(self).slot_index(),
            final(final(self).ram)@ == final(old(self).ram)@,
    {
        proof {
            assert(self.ram@.len() == self.ram.len());
        }
        self.ram[ANCILLA_WORK_BYTE_1 + self.slot] = value;
    }

    pub fn subtract_work_byte_1(&mut self, value: u8)
        requires
            ANCILLA_WORK_BYTE_1 + old(self).slot_index() < old(self).ram().len(),
        ensures
            final(self).ram() == old(self).ram().update(
                ANCILLA_WORK_BYTE_1 + old(self).slot_index(),
                old(self).ram()[ANCILLA_WORK_BYTE_1 + old(self).slot_index()].wrapping_sub(value),
            ),
            final(self).slot_index() == old(self).slot_index(),
            final(final(self).ram)@ == final(old(self).ram)@,
    {
        proof {
            assert(self.ram@.len() == self.ram.len());
        }
        self.ram[ANCILLA_WORK_BYTE_1 + self.slot] = self.ram[ANCILLA_WORK_BYTE_1 + self.slot].wrapping_sub(value);
    }

    pub fn set_a(&mut self, value: u8)
        requires
            ANCILLA_A + old(self).slot_index() < old(self).ram().len(),
        ensures
            final(self).ram() == old(self).ram().update(ANCILLA_A + old(self).slot_index(), value),
            final(self).slot_index() == old(self).slot_index(),
            final(final(self).ram)@ == final(old(self).ram)@,
    {
        proof {
            assert(self.ram@.len() == self.ram.len());
        }
        self.ram[ANCILLA_A + self.slot] = value;
    }

    pub fn advance_a(&mut self) -> (result: u8)
        requires
            ANCILLA_A + old(self).slot_index() < old(self).ram().len(),
        ensures
            result == old(self).ram()[ANCILLA_A + old(self).slot_index()].wrapping_add(1),
            final(self).ram() == old(self).ram().update(
                ANCILLA_A + old(self).slot_index(),
                old(self).ram()[ANCILLA_A + old(self).slot_index()].wrapping_add(1),
            ),
            final(self).slot_index() == old(self).slot_index(),
            final(final(self).ram)@ == final(old(self).ram)@,
    {
        proof {
            assert(self.ram@.len() == self.ram.len());
        }
        let value = self.ram[ANCILLA_A + self.slot].wrapping_add(1);
        self.set_a(value);
        value
    }

    pub fn set_b(&mut self, value: u8)
        requires
            ANCILLA_B + old(self).slot_index() < old(self).ram().len(),
        ensures
            final(self).ram() == old(self).ram().update(ANCILLA_B + old(self).slot_index(), value),
            final(self).slot_index() == old(self).slot_index(),
            final(final(self).ram)@ == final(old(self).ram)@,
    {
        proof {
            assert(self.ram@.len() == self.ram.len());
        }
        self.ram[ANCILLA_B + self.slot] = value;
    }

    pub fn set_l(&mut self, value: u8)
        requires
            ANCILLA_L + old(self).slot_index() < old(self).ram().len(),
        ensures
            final(self).ram() == old(self).ram().update(ANCILLA_L + old(self).slot_index(), value),
            final(self).slot_index() == old(self).slot_index(),
            final(final(self).ram)@ == final(old(self).ram)@,
    {
        proof {
            assert(self.ram@.len() == self.ram.len());
        }
        self.ram[ANCILLA_L + self.slot] = value;
    }

    pub fn advance_l(&mut self) -> (result: u8)
        requires
            ANCILLA_L + old(self).slot_index() < old(self).ram().len(),
        ensures
            result == old(self).ram()[ANCILLA_L + old(self).slot_index()].wrapping_add(1),
            final(self).ram() == old(self).ram().update(
                ANCILLA_L + old(self).slot_index(),
                old(self).ram()[ANCILLA_L + old(self).slot_index()].wrapping_add(1),
            ),
            final(self).slot_index() == old(self).slot_index(),
            final(final(self).ram)@ == final(old(self).ram)@,
    {
        proof {
            assert(self.ram@.len() == self.ram.len());
        }
        let value = self.ram[ANCILLA_L + self.slot].wrapping_add(1);
        self.set_l(value);
        value
    }

    pub fn add_l(&mut self, value: u8)
        requires
            ANCILLA_L + old(self).slot_index() < old(self).ram().len(),
        ensures
            final(self).ram() == old(self).ram().update(
                ANCILLA_L + old(self).slot_index(),
                old(self).ram()[ANCILLA_L + old(self).slot_index()].wrapping_add(value),
            ),
            final(self).slot_index() == old(self).slot_index(),
            final(final(self).ram)@ == final(old(self).ram)@,
    {
        proof {
            assert(self.ram@.len() == self.ram.len());
        }
        self.ram[ANCILLA_L + self.slot] = self.ram[ANCILLA_L + self.slot].wrapping_add(value);
    }

    pub fn retreat_l(&mut self) -> (result: u8)
        requires
            ANCILLA_L + old(self).slot_index() < old(self).ram().len(),
        ensures
            result == old(self).ram()[ANCILLA_L + old(self).slot_index()].wrapping_sub(1),
            final(self).ram() == old(self).ram().update(
                ANCILLA_L + old(self).slot_index(),
                old(self).ram()[ANCILLA_L + old(self).slot_index()].wrapping_sub(1),
            ),
            final(self).slot_index() == old(self).slot_index(),
            final(final(self).ram)@ == final(old(self).ram)@,
    {
        proof {
            assert(self.ram@.len() == self.ram.len());
        }
        let value = self.ram[ANCILLA_L + self.slot].wrapping_sub(1);
        self.set_l(value);
        value
    }

    pub fn set_h(&mut self, value: u8)
        requires
            ANCILLA_H + old(self).slot_index() < old(self).ram().len(),
        ensures
            final(self).ram() == old(self).ram().update(ANCILLA_H + old(self).slot_index(), value),
            final(self).slot_index() == old(self).slot_index(),
            final(final(self).ram)@ == final(old(self).ram)@,
    {
        proof {
            assert(self.ram@.len() == self.ram.len());
        }
        self.ram[ANCILLA_H + self.slot] = value;
    }

    pub fn set_k(&mut self, value: u8)
        requires
            ANCILLA_K + old(self).slot_index() < old(self).ram().len(),
        ensures
            final(self).ram() == old(self).ram().update(ANCILLA_K + old(self).slot_index(), value),
            final(self).slot_index() == old(self).slot_index(),
            final(final(self).ram)@ == final(old(self).ram)@,
    {
        proof {
            assert(self.ram@.len() == self.ram.len());
        }
        self.ram[ANCILLA_K + self.slot] = value;
    }

    pub fn toggle_k_bit0(&mut self) -> (result: u8)
        requires
            ANCILLA_K + old(self).slot_index() < old(self).ram().len(),
        ensures
            result == (old(self).ram()[ANCILLA_K + old(self).slot_index()] ^ 1u8),
            final(self).ram() == old(self).ram().update(
                ANCILLA_K + old(self).slot_index(),
                old(self).ram()[ANCILLA_K + old(self).slot_index()] ^ 1u8,
            ),
            final(self).slot_index() == old(self).slot_index(),
            final(final(self).ram)@ == final(old(self).ram)@,
    {
        proof {
            assert(self.ram@.len() == self.ram.len());
        }
        let value = self.ram[ANCILLA_K + self.slot] ^ 1;
        self.set_k(value);
        value
    }

    pub fn advance_k(&mut self) -> (result: u8)
        requires
            ANCILLA_K + old(self).slot_index() < old(self).ram().len(),
        ensures
            result == old(self).ram()[ANCILLA_K + old(self).slot_index()].wrapping_add(1),
            final(self).ram() == old(self).ram().update(
                ANCILLA_K + old(self).slot_index(),
                old(self).ram()[ANCILLA_K + old(self).slot_index()].wrapping_add(1),
            ),
            final(self).slot_index() == old(self).slot_index(),
            final(final(self).ram)@ == final(old(self).ram)@,
    {
        proof {
            assert(self.ram@.len() == self.ram.len());
        }
        let value = self.ram[ANCILLA_K + self.slot].wrapping_add(1);
        self.set_k(value);
        value
    }

    pub fn add_k(&mut self, value: u8)
        requires
            ANCILLA_K + old(self).slot_index() < old(self).ram().len(),
        ensures
            final(self).ram() == old(self).ram().update(
                ANCILLA_K + old(self).slot_index(),
                old(self).ram()[ANCILLA_K + old(self).slot_index()].wrapping_add(value),
            ),
            final(self).slot_index() == old(self).slot_index(),
            final(final(self).ram)@ == final(old(self).ram)@,
    {
        proof {
            assert(self.ram@.len() == self.ram.len());
        }
        self.ram[ANCILLA_K + self.slot] = self.ram[ANCILLA_K + self.slot].wrapping_add(value);
    }

    pub fn retreat_k(&mut self) -> (result: u8)
        requires
            ANCILLA_K + old(self).slot_index() < old(self).ram().len(),
        ensures
            result == old(self).ram()[ANCILLA_K + old(self).slot_index()].wrapping_sub(1),
            final(self).ram() == old(self).ram().update(
                ANCILLA_K + old(self).slot_index(),
                old(self).ram()[ANCILLA_K + old(self).slot_index()].wrapping_sub(1),
            ),
            final(self).slot_index() == old(self).slot_index(),
            final(final(self).ram)@ == final(old(self).ram)@,
    {
        proof {
            assert(self.ram@.len() == self.ram.len());
        }
        let value = self.ram[ANCILLA_K + self.slot].wrapping_sub(1);
        self.set_k(value);
        value
    }

    pub fn tick_k(&mut self) -> (result: u8)
        requires
            ANCILLA_K + old(self).slot_index() < old(self).ram().len(),
        ensures
            result == old(self).ram()[ANCILLA_K + old(self).slot_index()].wrapping_sub(1),
            final(self).ram() == old(self).ram().update(
                ANCILLA_K + old(self).slot_index(),
                old(self).ram()[ANCILLA_K + old(self).slot_index()].wrapping_sub(1),
            ),
            final(self).slot_index() == old(self).slot_index(),
            final(final(self).ram)@ == final(old(self).ram)@,
    {
        proof {
            assert(self.ram@.len() == self.ram.len());
        }
        let value = self.ram[ANCILLA_K + self.slot].wrapping_sub(1);
        self.set_k(value);
        value
    }

    pub fn set_g(&mut self, value: u8)
        requires
            ANCILLA_G + old(self).slot_index() < old(self).ram().len(),
        ensures
            final(self).ram() == old(self).ram().update(ANCILLA_G + old(self).slot_index(), value),
            final(self).slot_index() == old(self).slot_index(),
            final(final(self).ram)@ == final(old(self).ram)@,
    {
        proof {
            assert(self.ram@.len() == self.ram.len());
        }
        self.ram[ANCILLA_G + self.slot] = value;
    }

    pub fn subtract_g(&mut self, value: u8)
        requires
            ANCILLA_G + old(self).slot_index() < old(self).ram().len(),
        ensures
            final(self).ram() == old(self).ram().update(
                ANCILLA_G + old(self).slot_index(),
                old(self).ram()[ANCILLA_G + old(self).slot_index()].wrapping_sub(value),
            ),
            final(self).slot_index() == old(self).slot_index(),
            final(final(self).ram)@ == final(old(self).ram)@,
    {
        proof {
            assert(self.ram@.len() == self.ram.len());
        }
        self.ram[ANCILLA_G + self.slot] = self.ram[ANCILLA_G + self.slot].wrapping_sub(value);
    }

    pub fn tick_g(&mut self) -> (result: u8)
        requires
            ANCILLA_G + old(self).slot_index() < old(self).ram().len(),
        ensures
            result == old(self).ram()[ANCILLA_G + old(self).slot_index()].wrapping_sub(1),
            final(self).ram() == old(self).ram().update(
                ANCILLA_G + old(self).slot_index(),
                old(self).ram()[ANCILLA_G + old(self).slot_index()].wrapping_sub(1),
            ),
            final(self).slot_index() == old(self).slot_index(),
            final(final(self).ram)@ == final(old(self).ram)@,
    {
        proof {
            assert(self.ram@.len() == self.ram.len());
        }
        let value = self.ram[ANCILLA_G + self.slot].wrapping_sub(1);
        self.set_g(value);
        value
    }

    pub fn set_s_player(&mut self, value: u8)
        requires
            ANCILLA_S_PLAYER + old(self).slot_index() < old(self).ram().len(),
        ensures
            final(self).ram() == old(self).ram().update(
                ANCILLA_S_PLAYER + old(self).slot_index(),
                value,
            ),
            final(self).slot_index() == old(self).slot_index(),
            final(final(self).ram)@ == final(old(self).ram)@,
    {
        proof {
            assert(self.ram@.len() == self.ram.len());
        }
        self.ram[ANCILLA_S_PLAYER + self.slot] = value;
    }

    pub fn set_t_player(&mut self, value: u8)
        requires
            ANCILLA_T_PLAYER + old(self).slot_index() < old(self).ram().len(),
        ensures
            final(self).ram() == old(self).ram().update(
                ANCILLA_T_PLAYER + old(self).slot_index(),
                value,
            ),
            final(self).slot_index() == old(self).slot_index(),
            final(final(self).ram)@ == final(old(self).ram)@,
    {
        proof {
            assert(self.ram@.len() == self.ram.len());
        }
        self.ram[ANCILLA_T_PLAYER + self.slot] = value;
    }

    pub fn set_r(&mut self, value: u8)
        requires
            ANCILLA_R + old(self).slot_index() < old(self).ram().len(),
        ensures
            final(self).ram() == old(self).ram().update(ANCILLA_R + old(self).slot_index(), value),
            final(self).slot_index() == old(self).slot_index(),
            final(final(self).ram)@ == final(old(self).ram)@,
    {
        proof {
            assert(self.ram@.len() == self.ram.len());
        }
        self.ram[ANCILLA_R + self.slot] = value;
    }

    pub fn advance_r(&mut self) -> (result: u8)
        requires
            ANCILLA_R + old(self).slot_index() < old(self).ram().len(),
        ensures
            result == old(self).ram()[ANCILLA_R + old(self).slot_index()].wrapping_add(1),
            final(self).ram() == old(self).ram().update(
                ANCILLA_R + old(self).slot_index(),
                old(self).ram()[ANCILLA_R + old(self).slot_index()].wrapping_add(1),
            ),
            final(self).slot_index() == old(self).slot_index(),
            final(final(self).ram)@ == final(old(self).ram)@,
    {
        proof {
            assert(self.ram@.len() == self.ram.len());
        }
        let value = self.ram[ANCILLA_R + self.slot].wrapping_add(1);
        self.set_r(value);
        value
    }

    pub fn add_r(&mut self, value: u8)
        requires
            ANCILLA_R + old(self).slot_index() < old(self).ram().len(),
        ensures
            final(self).ram() == old(self).ram().update(
                ANCILLA_R + old(self).slot_index(),
                old(self).ram()[ANCILLA_R + old(self).slot_index()].wrapping_add(value),
            ),
            final(self).slot_index() == old(self).slot_index(),
            final(final(self).ram)@ == final(old(self).ram)@,
    {
        proof {
            assert(self.ram@.len() == self.ram.len());
        }
        self.ram[ANCILLA_R + self.slot] = self.ram[ANCILLA_R + self.slot].wrapping_add(value);
    }

    pub fn tick_s_player(&mut self) -> (result: u8)
        requires
            ANCILLA_S_PLAYER + old(self).slot_index() < old(self).ram().len(),
        ensures
            result == old(self).ram()[ANCILLA_S_PLAYER + old(self).slot_index()].wrapping_sub(1),
            final(self).ram() == old(self).ram().update(
                ANCILLA_S_PLAYER + old(self).slot_index(),
                old(self).ram()[ANCILLA_S_PLAYER + old(self).slot_index()].wrapping_sub(1),
            ),
            final(self).slot_index() == old(self).slot_index(),
            final(final(self).ram)@ == final(old(self).ram)@,
    {
        proof {
            assert(self.ram@.len() == self.ram.len());
        }
        let value = self.ram[ANCILLA_S_PLAYER + self.slot].wrapping_sub(1);
        self.set_s_player(value);
        value
    }

    pub fn set_u(&mut self, value: u8)
        requires
            ANCILLA_U + old(self).slot_index() < old(self).ram().len(),
        ensures
            final(self).ram() == old(self).ram().update(ANCILLA_U + old(self).slot_index(), value),
            final(self).slot_index() == old(self).slot_index(),
            final(final(self).ram)@ == final(old(self).ram)@,
    {
        proof {
            assert(self.ram@.len() == self.ram.len());
        }
        self.ram[ANCILLA_U + self.slot] = value;
    }

    pub fn subtract_u(&mut self, value: u8)
        requires
            ANCILLA_U + old(self).slot_index() < old(self).ram().len(),
        ensures
            final(self).ram() == old(self).ram().update(
                ANCILLA_U + old(self).slot_index(),
                old(self).ram()[ANCILLA_U + old(self).slot_index()].wrapping_sub(value),
            ),
            final(self).slot_index() == old(self).slot_index(),
            final(final(self).ram)@ == final(old(self).ram)@,
    {
        proof {
            assert(self.ram@.len() == self.ram.len());
        }
        self.ram[ANCILLA_U + self.slot] = self.ram[ANCILLA_U + self.slot].wrapping_sub(value);
    }

    pub fn advance_work_byte_1_mod4(&mut self) -> (result: u8)
        requires
            ANCILLA_WORK_BYTE_1 + old(self).slot_index() < old(self).ram().len(),
        ensures
            result == (old(self).ram()[ANCILLA_WORK_BYTE_1 + old(self).slot_index()].wrapping_add(1) & 3u8),
            final(self).ram() == old(self).ram().update(
                ANCILLA_WORK_BYTE_1 + old(self).slot_index(),
                old(self).ram()[ANCILLA_WORK_BYTE_1 + old(self).slot_index()].wrapping_add(1) & 3u8,
            ),
            final(self).slot_index() == old(self).slot_index(),
            final(final(self).ram)@ == final(old(self).ram)@,
    {
        proof {
            assert(self.ram@.len() == self.ram.len());
        }
        let value = self.ram[ANCILLA_WORK_BYTE_1 + self.slot].wrapping_add(1) & 3;
        self.set_work_byte_1(value);
        value
    }

    pub fn add_work_byte_1_mod4(&mut self, value: u8) -> (result: u8)
        requires
            ANCILLA_WORK_BYTE_1 + old(self).slot_index() < old(self).ram().len(),
        ensures
            result == (old(self).ram()[ANCILLA_WORK_BYTE_1 + old(self).slot_index()].wrapping_add(value) & 3u8),
            final(self).ram() == old(self).ram().update(
                ANCILLA_WORK_BYTE_1 + old(self).slot_index(),
                old(self).ram()[ANCILLA_WORK_BYTE_1 + old(self).slot_index()].wrapping_add(value) & 3u8,
            ),
            final(self).slot_index() == old(self).slot_index(),
            final(final(self).ram)@ == final(old(self).ram)@,
    {
        proof {
            assert(self.ram@.len() == self.ram.len());
        }
        let next = self.ram[ANCILLA_WORK_BYTE_1 + self.slot].wrapping_add(value) & 3;
        self.set_work_byte_1(next);
        next
    }

    pub fn tick_work_byte_3(&mut self) -> (result: u8)
        requires
            ANCILLA_WORK_BYTE_3 + old(self).slot_index() < old(self).ram().len(),
        ensures
            result == old(self).ram()[ANCILLA_WORK_BYTE_3 + old(self).slot_index()].wrapping_sub(1),
            final(self).ram() == old(self).ram().update(
                ANCILLA_WORK_BYTE_3 + old(self).slot_index(),
                old(self).ram()[ANCILLA_WORK_BYTE_3 + old(self).slot_index()].wrapping_sub(1),
            ),
            final(self).slot_index() == old(self).slot_index(),
            final(final(self).ram)@ == final(old(self).ram)@,
    {
        proof {
            assert(self.ram@.len() == self.ram.len());
        }
        let value = self.ram[ANCILLA_WORK_BYTE_3 + self.slot].wrapping_sub(1);
        self.set_work_byte_3(value);
        value
    }

    pub fn advance_work_byte_3(&mut self) -> (result: u8)
        requires
            ANCILLA_WORK_BYTE_3 + old(self).slot_index() < old(self).ram().len(),
        ensures
            result == old(self).ram()[ANCILLA_WORK_BYTE_3 + old(self).slot_index()].wrapping_add(1),
            final(self).ram() == old(self).ram().update(
                ANCILLA_WORK_BYTE_3 + old(self).slot_index(),
                old(self).ram()[ANCILLA_WORK_BYTE_3 + old(self).slot_index()].wrapping_add(1),
            ),
            final(self).slot_index() == old(self).slot_index(),
            final(final(self).ram)@ == final(old(self).ram)@,
    {
        proof {
            assert(self.ram@.len() == self.ram.len());
        }
        let value = self.ram[ANCILLA_WORK_BYTE_3 + self.slot].wrapping_add(1);
        self.set_work_byte_3(value);
        value
    }

    pub fn set_work_byte_4(&mut self, value: u8)
        requires
            ANCILLA_WORK_BYTE_4 + old(self).slot_index() < old(self).ram().len(),
        ensures
            final(self).ram() == old(self).ram().update(
                ANCILLA_WORK_BYTE_4 + old(self).slot_index(),
                value,
            ),
            final(self).slot_index() == old(self).slot_index(),
            final(final(self).ram)@ == final(old(self).ram)@,
    {
        proof {
            assert(self.ram@.len() == self.ram.len());
        }
        self.ram[ANCILLA_WORK_BYTE_4 + self.slot] = value;
    }

    pub fn subtract_work_byte_4(&mut self, value: u8)
        requires
            ANCILLA_WORK_BYTE_4 + old(self).slot_index() < old(self).ram().len(),
        ensures
            final(self).ram() == old(self).ram().update(
                ANCILLA_WORK_BYTE_4 + old(self).slot_index(),
                old(self).ram()[ANCILLA_WORK_BYTE_4 + old(self).slot_index()].wrapping_sub(value),
            ),
            final(self).slot_index() == old(self).slot_index(),
            final(final(self).ram)@ == final(old(self).ram)@,
    {
        proof {
            assert(self.ram@.len() == self.ram.len());
        }
        self.ram[ANCILLA_WORK_BYTE_4 + self.slot] = self.ram[ANCILLA_WORK_BYTE_4 + self.slot].wrapping_sub(value);
    }

    pub fn set_work_byte_22(&mut self, value: u8)
        requires
            ANCILLA_WORK_BYTE_22 + old(self).slot_index() < old(self).ram().len(),
        ensures
            final(self).ram() == old(self).ram().update(
                ANCILLA_WORK_BYTE_22 + old(self).slot_index(),
                value,
            ),
            final(self).slot_index() == old(self).slot_index(),
            final(final(self).ram)@ == final(old(self).ram)@,
    {
        proof {
            assert(self.ram@.len() == self.ram.len());
        }
        self.ram[ANCILLA_WORK_BYTE_22 + self.slot] = value;
    }

    pub fn tick_work_byte_22(&mut self) -> (result: u8)
        requires
            ANCILLA_WORK_BYTE_22 + old(self).slot_index() < old(self).ram().len(),
        ensures
            result == old(self).ram()[ANCILLA_WORK_BYTE_22 + old(self).slot_index()].wrapping_sub(1),
            final(self).ram() == old(self).ram().update(
                ANCILLA_WORK_BYTE_22 + old(self).slot_index(),
                old(self).ram()[ANCILLA_WORK_BYTE_22 + old(self).slot_index()].wrapping_sub(1),
            ),
            final(self).slot_index() == old(self).slot_index(),
            final(final(self).ram)@ == final(old(self).ram)@,
    {
        proof {
            assert(self.ram@.len() == self.ram.len());
        }
        let value = self.ram[ANCILLA_WORK_BYTE_22 + self.slot].wrapping_sub(1);
        self.set_work_byte_22(value);
        value
    }

    pub fn subtract_work_byte_22(&mut self, value: u8)
        requires
            ANCILLA_WORK_BYTE_22 + old(self).slot_index() < old(self).ram().len(),
        ensures
            final(self).ram() == old(self).ram().update(
                ANCILLA_WORK_BYTE_22 + old(self).slot_index(),
                old(self).ram()[ANCILLA_WORK_BYTE_22 + old(self).slot_index()].wrapping_sub(value),
            ),
            final(self).slot_index() == old(self).slot_index(),
            final(final(self).ram)@ == final(old(self).ram)@,
    {
        proof {
            assert(self.ram@.len() == self.ram.len());
        }
        self.ram[ANCILLA_WORK_BYTE_22 + self.slot] = self.ram[ANCILLA_WORK_BYTE_22 + self.slot].wrapping_sub(value);
    }

    pub fn set_work_byte_23(&mut self, value: u8)
        requires
            ANCILLA_WORK_BYTE_23 + old(self).slot_index() < old(self).ram().len(),
        ensures
            final(self).ram() == old(self).ram().update(
                ANCILLA_WORK_BYTE_23 + old(self).slot_index(),
                value,
            ),
            final(self).slot_index() == old(self).slot_index(),
            final(final(self).ram)@ == final(old(self).ram)@,
    {
        proof {
            assert(self.ram@.len() == self.ram.len());
        }
        self.ram[ANCILLA_WORK_BYTE_23 + self.slot] = value;
    }

    pub fn advance_work_byte_23(&mut self) -> (result: u8)
        requires
            ANCILLA_WORK_BYTE_23 + old(self).slot_index() < old(self).ram().len(),
        ensures
            result == old(self).ram()[ANCILLA_WORK_BYTE_23 + old(self).slot_index()].wrapping_add(1),
            final(self).ram() == old(self).ram().update(
                ANCILLA_WORK_BYTE_23 + old(self).slot_index(),
                old(self).ram()[ANCILLA_WORK_BYTE_23 + old(self).slot_index()].wrapping_add(1),
            ),
            final(self).slot_index() == old(self).slot_index(),
            final(final(self).ram)@ == final(old(self).ram)@,
    {
        proof {
            assert(self.ram@.len() == self.ram.len());
        }
        let value = self.ram[ANCILLA_WORK_BYTE_23 + self.slot].wrapping_add(1);
        self.set_work_byte_23(value);
        value
    }

    pub fn add_work_byte_23(&mut self, value: u8)
        requires
            ANCILLA_WORK_BYTE_23 + old(self).slot_index() < old(self).ram().len(),
        ensures
            final(self).ram() == old(self).ram().update(
                ANCILLA_WORK_BYTE_23 + old(self).slot_index(),
                old(self).ram()[ANCILLA_WORK_BYTE_23 + old(self).slot_index()].wrapping_add(value),
            ),
            final(self).slot_index() == old(self).slot_index(),
            final(final(self).ram)@ == final(old(self).ram)@,
    {
        proof {
            assert(self.ram@.len() == self.ram.len());
        }
        self.ram[ANCILLA_WORK_BYTE_23 + self.slot] = self.ram[ANCILLA_WORK_BYTE_23 + self.slot].wrapping_add(value);
    }

    pub fn set_work_byte_24(&mut self, value: u8)
        requires
            ANCILLA_WORK_BYTE_24 + old(self).slot_index() < old(self).ram().len(),
        ensures
            final(self).ram() == old(self).ram().update(
                ANCILLA_WORK_BYTE_24 + old(self).slot_index(),
                value,
            ),
            final(self).slot_index() == old(self).slot_index(),
            final(final(self).ram)@ == final(old(self).ram)@,
    {
        proof {
            assert(self.ram@.len() == self.ram.len());
        }
        self.ram[ANCILLA_WORK_BYTE_24 + self.slot] = value;
    }

    pub fn advance_work_byte_24(&mut self) -> (result: u8)
        requires
            ANCILLA_WORK_BYTE_24 + old(self).slot_index() < old(self).ram().len(),
        ensures
            result == old(self).ram()[ANCILLA_WORK_BYTE_24 + old(self).slot_index()].wrapping_add(1),
            final(self).ram() == old(self).ram().update(
                ANCILLA_WORK_BYTE_24 + old(self).slot_index(),
                old(self).ram()[ANCILLA_WORK_BYTE_24 + old(self).slot_index()].wrapping_add(1),
            ),
            final(self).slot_index() == old(self).slot_index(),
            final(final(self).ram)@ == final(old(self).ram)@,
    {
        proof {
            assert(self.ram@.len() == self.ram.len());
        }
        let value = self.ram[ANCILLA_WORK_BYTE_24 + self.slot].wrapping_add(1);
        self.set_work_byte_24(value);
        value
    }

    pub fn add_work_byte_24(&mut self, value: u8)
        requires
            ANCILLA_WORK_BYTE_24 + old(self).slot_index() < old(self).ram().len(),
        ensures
            final(self).ram() == old(self).ram().update(
                ANCILLA_WORK_BYTE_24 + old(self).slot_index(),
                old(self).ram()[ANCILLA_WORK_BYTE_24 + old(self).slot_index()].wrapping_add(value),
            ),
            final(self).slot_index() == old(self).slot_index(),
            final(final(self).ram)@ == final(old(self).ram)@,
    {
        proof {
            assert(self.ram@.len() == self.ram.len());
        }
        self.ram[ANCILLA_WORK_BYTE_24 + self.slot] = self.ram[ANCILLA_WORK_BYTE_24 + self.slot].wrapping_add(value);
    }

    pub fn set_work_byte_25(&mut self, value: u8)
        requires
            ANCILLA_WORK_BYTE_25 + old(self).slot_index() < old(self).ram().len(),
        ensures
            final(self).ram() == old(self).ram().update(
                ANCILLA_WORK_BYTE_25 + old(self).slot_index(),
                value,
            ),
            final(self).slot_index() == old(self).slot_index(),
            final(final(self).ram)@ == final(old(self).ram)@,
    {
        proof {
            assert(self.ram@.len() == self.ram.len());
        }
        self.ram[ANCILLA_WORK_BYTE_25 + self.slot] = value;
    }

    pub fn set_work_byte_26(&mut self, value: u8)
        requires
            ANCILLA_WORK_BYTE_26 + old(self).slot_index() < old(self).ram().len(),
        ensures
            final(self).ram() == old(self).ram().update(
                ANCILLA_WORK_BYTE_26 + old(self).slot_index(),
                value,
            ),
            final(self).slot_index() == old(self).slot_index(),
            final(final(self).ram)@ == final(old(self).ram)@,
    {
        proof {
            assert(self.ram@.len() == self.ram.len());
        }
        self.ram[ANCILLA_WORK_BYTE_26 + self.slot] = value;
    }

    pub fn advance_work_byte_25(&mut self) -> (result: u8)
        requires
            ANCILLA_WORK_BYTE_25 + old(self).slot_index() < old(self).ram().len(),
        ensures
            result == old(self).ram()[ANCILLA_WORK_BYTE_25 + old(self).slot_index()].wrapping_add(1),
            final(self).ram() == old(self).ram().update(
                ANCILLA_WORK_BYTE_25 + old(self).slot_index(),
                old(self).ram()[ANCILLA_WORK_BYTE_25 + old(self).slot_index()].wrapping_add(1),
            ),
            final(self).slot_index() == old(self).slot_index(),
            final(final(self).ram)@ == final(old(self).ram)@,
    {
        proof {
            assert(self.ram@.len() == self.ram.len());
        }
        let value = self.ram[ANCILLA_WORK_BYTE_25 + self.slot].wrapping_add(1);
        self.set_work_byte_25(value);
        value
    }

    pub fn retreat_work_byte_25(&mut self) -> (result: u8)
        requires
            ANCILLA_WORK_BYTE_25 + old(self).slot_index() < old(self).ram().len(),
        ensures
            result == old(self).ram()[ANCILLA_WORK_BYTE_25 + old(self).slot_index()].wrapping_sub(1),
            final(self).ram() == old(self).ram().update(
                ANCILLA_WORK_BYTE_25 + old(self).slot_index(),
                old(self).ram()[ANCILLA_WORK_BYTE_25 + old(self).slot_index()].wrapping_sub(1),
            ),
            final(self).slot_index() == old(self).slot_index(),
            final(final(self).ram)@ == final(old(self).ram)@,
    {
        proof {
            assert(self.ram@.len() == self.ram.len());
        }
        let value = self.ram[ANCILLA_WORK_BYTE_25 + self.slot].wrapping_sub(1);
        self.set_work_byte_25(value);
        value
    }

    pub fn advance_work_byte_4(&mut self) -> (result: u8)
        requires
            ANCILLA_WORK_BYTE_4 + old(self).slot_index() < old(self).ram().len(),
        ensures
            result == old(self).ram()[ANCILLA_WORK_BYTE_4 + old(self).slot_index()].wrapping_add(1),
            final(self).ram() == old(self).ram().update(
                ANCILLA_WORK_BYTE_4 + old(self).slot_index(),
                old(self).ram()[ANCILLA_WORK_BYTE_4 + old(self).slot_index()].wrapping_add(1),
            ),
            final(self).slot_index() == old(self).slot_index(),
            final(final(self).ram)@ == final(old(self).ram)@,
    {
        proof {
            assert(self.ram@.len() == self.ram.len());
        }
        let value = self.ram[ANCILLA_WORK_BYTE_4 + self.slot].wrapping_add(1);
        self.set_work_byte_4(value);
        value
    }
}

} // verus!
