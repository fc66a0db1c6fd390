use vstd::prelude::*;
use super::access;
use super::access::{byte, word, packed_position, write_position};
use super::addresses::{
    OVERLORD_FLOOR, OVERLORD_GEN1, OVERLORD_GEN2, OVERLORD_GEN3, OVERLORD_OFFSET_SPRITE_POS,
    OVERLORD_SPAWNED_AREA, OVERLORD_TYPE, OVERLORD_X_HI, OVERLORD_X_LO, OVERLORD_Y_HI,
    OVERLORD_Y_LO,
};
use crate::types;
use crate::types::{read_le_u16, write_le_u16};

verus! {

pub struct OverlordSlotView<'a> {
    ram: &'a [u8],
    slot: usize,
}

impl<'a> OverlordSlotView<'a> {
    /// The bytes of RAM this view reads and writes.
    pub closed spec fn ram(&self) -> Seq<u8> {
        self.ram@
    }

    /// The slot whose fields this view addresses.
    pub closed spec fn slot_index(&self) -> usize {
        self.slot
    }

    pub fn new(ram: &'a [u8], slot: usize) -> (view: Self)
        ensures
            view.ram() == ram@,
            view.slot_index() == slot,
    {
        Self { ram, slot }
    }

    pub fn x(&self) -> (result: u16)
        requires
            OVERLORD_X_LO + self.slot_index() <= usize::MAX,
            OVERLORD_X_HI + self.slot_index() <= usize::MAX,
        ensures
            result == types::le_word(
                access::byte_at(self.ram(), OVERLORD_X_LO + self.slot_index()),
                access::byte_at(self.ram(), OVERLORD_X_HI + self.slot_index()),
            ),
    {
        packed_position(self.ram, OVERLORD_X_LO + self.slot, OVERLORD_X_HI + self.slot)
    }

    pub fn y(&self) -> (result: u16)
        requires
            OVERLORD_Y_LO + self.slot_index() <= usize::MAX,
            OVERLORD_Y_HI + self.slot_index() <= usize::MAX,
        ensures
            result == types::le_word(
                access::byte_at(self.ram(), OVERLORD_Y_LO + self.slot_index()),
                access::byte_at(self.ram(), OVERLORD_Y_HI + self.slot_index()),
            ),
    {
        packed_position(self.ram, OVERLORD_Y_LO + self.slot, OVERLORD_Y_HI + self.slot)
    }

    pub fn x_low(&self) -> (result: u8)
        requires
            OVERLORD_X_LO + self.slot_index() <= usize::MAX,
        ensures
            result == access::byte_at(self.ram(), OVERLORD_X_LO + self.slot_index()),
    {
        byte(self.ram, OVERLORD_X_LO + self.slot)
    }

    pub fn adjacent_x_low_word(&self) -> (result: u16)
        requires
            (OVERLORD_X_LO + self.slot_index()) + 1 <= usize::MAX,
        ensures
            result == access::word_at(self.ram(), OVERLORD_X_LO + self.slot_index()),
    {
        word(self.ram, OVERLORD_X_LO + self.slot)
    }

    pub fn x_high(&self) -> (result: u8)
        requires
            OVERLORD_X_HI + self.slot_index() <= usize::MAX,
        ensures
            result == access::byte_at(self.ram(), OVERLORD_X_HI + self.slot_index()),
    {
        byte(self.ram, OVERLORD_X_HI + self.slot)
    }

    pub fn y_low(&self) -> (result: u8)
        requires
            OVERLORD_Y_LO + self.slot_index() <= usize::MAX,
        ensures
            result == access::byte_at(self.ram(), OVERLORD_Y_LO + self.slot_index()),
    {
        byte(self.ram, OVERLORD_Y_LO + self.slot)
    }

    pub fn y_high(&self) -> (result: u8)
        requires
            OVERLORD_Y_HI + self.slot_index() <= usize::MAX,
        ensures
            result == access::byte_at(self.ram(), OVERLORD_Y_HI + self.slot_index()),
    {
        byte(self.ram, OVERLORD_Y_HI + self.slot)
    }

    pub fn overlord_type(&self) -> (result: u8)
        requires
            OVERLORD_TYPE + self.slot_index() <= usize::MAX,
        ensures
            result == access::byte_at(self.ram(), OVERLORD_TYPE + self.slot_index()),
    {
        byte(self.ram, OVERLORD_TYPE + self.slot)
    }

    pub fn is_active(&self) -> (result: bool)
        requires
            OVERLORD_TYPE + self.slot_index() <= usize::MAX,
        ensures
            result == (access::byte_at(self.ram(), OVERLORD_TYPE + self.slot_index()) != 0),
    {
        self.overlord_type() != 0
    }

    pub fn gen1(&self) -> (result: u8)
        requires
            OVERLORD_GEN1 + self.slot_index() <= usize::MAX,
        ensures
            result == access::byte_at(self.ram(), OVERLORD_GEN1 + self.slot_index()),
    {
        byte(self.ram, OVERLORD_GEN1 + self.slot)
    }

    pub fn gen1_word(&self) -> (result: u16)
        requires
            (OVERLORD_GEN1 + self.slot_index()) + 1 <= usize::MAX,
        ensures
            result == types::le_word(
                access::byte_at(self.ram(), OVERLORD_GEN1 + self.slot_index()),
                access::byte_at(self.ram(), (OVERLORD_GEN1 + self.slot_index()) + 1),
            ),
    {
        packed_position(self.ram, OVERLORD_GEN1 + self.slot, OVERLORD_GEN1 + self.slot + 1)
    }

    pub fn gen2(&self) -> (result: u8)
        requires
            OVERLORD_GEN2 + self.slot_index() <= usize::MAX,
        ensures
            result == access::byte_at(self.ram(), OVERLORD_GEN2 + self.slot_index()),
    {
        byte(self.ram, OVERLORD_GEN2 + self.slot)
    }

    pub fn gen2_word(&self) -> (result: u16)
        requires
            (OVERLORD_GEN2 + self.slot_index()) + 1 <= usize::MAX,
        ensures
            result == types::le_word(
                access::byte_at(self.ram(), OVERLORD_GEN2 + self.slot_index()),
                access::byte_at(self.ram(), (OVERLORD_GEN2 + self.slot_index()) + 1),
            ),
    {
        packed_position(self.ram, OVERLORD_GEN2 + self.slot, OVERLORD_GEN2 + self.slot + 1)
    }

    pub fn gen3(&self) -> (result: u8)
        requires
            OVERLORD_GEN3 + self.slot_index() <= usize::MAX,
        ensures
            result == access::byte_at(self.ram(), OVERLORD_GEN3 + self.slot_index()),
    {
        byte(self.ram, OVERLORD_GEN3 + self.slot)
    }

    pub fn floor(&self) -> (result: u8)
        requires
            OVERLORD_FLOOR + self.slot_index() <= usize::MAX,
        ensures
            result == access::byte_at(self.ram(), OVERLORD_FLOOR + self.slot_index()),
    {
        byte(self.ram, OVERLORD_FLOOR + self.slot)
    }

    pub fn spawned_area(&self) -> (result: u8)
        requires
            OVERLORD_SPAWNED_AREA + self.slot_index() <= usize::MAX,
        ensures
            result == access::byte_at(self.ram(), OVERLORD_SPAWNED_AREA + self.slot_index()),
    {
        byte(self.ram, OVERLORD_SPAWNED_AREA + self.slot)
    }

    pub fn sprite_block_pos(&self) -> (result: u16)
        requires
            (OVERLORD_OFFSET_SPRITE_POS + (self.slot_index() * 2)) + 1 <= usize::MAX,
        ensures
            result == access::word_at(
                self.ram(),
                OVERLORD_OFFSET_SPRITE_POS + (self.slot_index() * 2),
            ),
    {
        word(self.ram, OVERLORD_OFFSET_SPRITE_POS + self.slot * 2)
    }
}

pub struct OverlordSlotViewMut<'a> {
    pub ram: &'a mut [u8],
    pub slot: usize,
}

impl<'a> OverlordSlotViewMut<'a> {
    /// The bytes of RAM this view reads and writes.
    pub open spec fn ram(&self) -> Seq<u8> {
        self.ram@
    }

    /// The slot whose fields this view addresses.
    pub open spec fn slot_index(&self) -> usize {
        self.slot
    }

    pub fn new(ram: &'a mut [u8], slot: usize) -> (view: Self)
        ensures
            view.ram() == old(ram)@,
            view.slot_index() == slot,
            final(view.ram)@ == final(ram)@,
    {
        Self { ram, slot }
    }

    pub fn set_x(&mut self, value: u16)
        requires
            OVERLORD_X_LO + old(self).slot_index() < old(self).ram().len(),
            OVERLORD_X_HI + old(self).slot_index() < old(self).ram().len(),
        ensures
            final(self).ram() == old(self).ram()
                .update(OVERLORD_X_LO + old(self).slot_index(), types::low_byte(value))
                .update(OVERLORD_X_HI + old(self).slot_index(), types::high_byte(value)),
            final(self).slot_index() == old(self).slot_index(),
            final(final(self).ram)@ == final(old(self).ram)@,
    {
        proof {
            assert(self.ram@.len() == self.ram.len());
        }
        write_position(self.ram, OVERLORD_X_LO + self.slot, OVERLORD_X_HI + self.slot, value);
    }

    pub fn set_x_low(&mut self, value: u8)
        requires
            OVERLORD_X_LO + old(self).slot_index() < old(self).ram().len(),
        ensures
            final(self).ram() == old(self).ram().update(
                OVERLORD_X_LO + old(self).slot_index(),
                value,
            ),
            final(self).slot_index() == old(self).slot_index(),
            final(final(self).ram)@ == final(old(self).ram)@,
    {
        proof {
            assert(self.ram@.len() == self.ram.len());
        }
        self.ram[OVERLORD_X_LO + self.slot] = value;
    }

    pub fn set_adjacent_x_low_word(&mut self, value: u16)
        requires
            (OVERLORD_X_LO + old(self).slot_index()) + 1 < old(self).ram().len(),
        ensures
            final(self).ram() == types::with_u16(
                old(self).ram(),
                OVERLORD_X_LO + old(self).slot_index(),
                value,
            ),
            final(self).slot_index() == old(self).slot_index(),
            final(final(self).ram)@ == final(old(self).ram)@,
    {
        proof {
            assert(self.ram@.len() == self.ram.len());
        }
        write_le_u16(self.ram, OVERLORD_X_LO + self.slot, value);
    }

    pub fn subtract_adjacent_x_low_word(&mut self, value: u16) -> (result: u16)
        requires
            (OVERLORD_X_LO + old(self).slot_index()) + 1 < old(self).ram().len(),
        ensures
            result == access::word_at(old(self).ram(), OVERLORD_X_LO + old(self).slot_index())
                .wrapping_sub(value),
            final(self).ram() == types::with_u16(
                old(self).ram(),
                OVERLORD_X_LO + old(self).slot_index(),
                access::word_at(
                    old(self).ram(),
                    OVERLORD_X_LO + old(self).slot_index(),
                )
                    .wrapping_sub(value),
            ),
            final(self).slot_index() == old(self).slot_index(),
            final(final(self).ram)@ == final(old(self).ram)@,
    {
        proof {
            assert(self.ram@.len() == self.ram.len());
        }
        let updated = word(self.ram, OVERLORD_X_LO + self.slot).wrapping_sub(value);
        self.set_adjacent_x_low_word(updated);
        updated
    }

    pub fn x_low(&self) -> (result: u8)
        requires
            OVERLORD_X_LO + self.slot_index() < self.ram().len(),
        ensures
            result == self.ram()[OVERLORD_X_LO + self.slot_index()],
    {
        proof {
            assert(self.ram@.len() == self.ram.len());
        }
        self.ram[OVERLORD_X_LO + self.slot]
    }

    pub fn set_x_high(&mut self, value: u8)
        requires
            OVERLORD_X_HI + old(self).slot_index() < old(self).ram().len(),
        ensures
            final(self).ram() == old(self).ram().update(
                OVERLORD_X_HI + old(self).slot_index(),
                value,
            ),
            final(self).slot_index() == old(self).slot_index(),
            final(final(self).ram)@ == final(old(self).ram)@,
    {
        proof {
            assert(self.ram@.len() == self.ram.len());
        }
        self.ram[OVERLORD_X_HI + self.slot] = value;
    }

    pub fn increment_x_high(&mut self)
        requires
            OVERLORD_X_HI + old(self).slot_index() < old(self).ram().len(),
        ensures
            final(self).ram() == old(self).ram().update(
                OVERLORD_X_HI + old(self).slot_index(),
                old(self).ram()[OVERLORD_X_HI + old(self).slot_index()].wrapping_add(1),
            ),
            final(self).slot_index() == old(self).slot_index(),
            final(final(self).ram)@ == final(old(self).ram)@,
    {
        proof {
            assert(self.ram@.len() == self.ram.len());
        }
        self.ram[OVERLORD_X_HI + self.slot] = self.ram[OVERLORD_X_HI + self.slot].wrapping_add(1);
    }

    pub fn add_x_low(&mut self, value: u8)
        requires
            OVERLORD_X_LO + old(self).slot_index() < old(self).ram().len(),
        ensures
            final(self).ram() == old(self).ram().update(
                OVERLORD_X_LO + old(self).slot_index(),
                old(self).ram()[OVERLORD_X_LO + old(self).slot_index()].wrapping_add(value),
            ),
            final(self).slot_index() == old(self).slot_index(),
            final(final(self).ram)@ == final(old(self).ram)@,
    {
        proof {
            assert(self.ram@.len() == self.ram.len());
        }
        self.ram[OVERLORD_X_LO + self.slot] = self.ram[OVERLORD_X_LO + self.slot].wrapping_add(value);
    }

    pub fn set_circle_x(&mut self, value: u16)
        requires
            OVERLORD_X_HI + old(self).slot_index() < old(self).ram().len(),
            OVERLORD_Y_HI + old(self).slot_index() < old(self).ram().len(),
        ensures
            final(self).ram() == old(self).ram()
                .update(OVERLORD_X_HI + old(self).slot_index(), value as u8)
                .update(OVERLORD_Y_HI + old(self).slot_index(), (value >> 8) as u8),
            final(self).slot_index() == old(self).slot_index(),
            final(final(self).ram)@ == final(old(self).ram)@,
    {
        proof {
            assert(self.ram@.len() == self.ram.len());
        }
        self.ram[OVERLORD_X_HI + self.slot] = value as u8;
        self.ram[OVERLORD_Y_HI + self.slot] = (value >> 8) as u8;
    }

    pub fn set_circle_y(&mut self, value: u16)
        requires
            OVERLORD_GEN2 + old(self).slot_index() < old(self).ram().len(),
            OVERLORD_FLOOR + old(self).slot_index() < old(self).ram().len(),
        ensures
            final(self).ram() == old(self).ram()
                .update(OVERLORD_GEN2 + old(self).slot_index(), value as u8)
                .update(OVERLORD_FLOOR + old(self).slot_index(), (value >> 8) as u8),
            final(self).slot_index() == old(self).slot_index(),
            final(final(self).ram)@ == final(old(self).ram)@,
    {
        proof {
            assert(self.ram@.len() == self.ram.len());
        }
        self.ram[OVERLORD_GEN2 + self.slot] = value as u8;
        self.ram[OVERLORD_FLOOR + self.slot] = (value >> 8) as u8;
    }

    pub fn set_y(&mut self, value: u16)
        requires
            OVERLORD_Y_LO + old(self).slot_index() < old(self).ram().len(),
            OVERLORD_Y_HI + old(self).slot_index() < old(self).ram().len(),
        ensures
            final(self).ram() == old(self).ram()
                .update(OVERLORD_Y_LO + old(self).slot_index(), types::low_byte(value))
                .update(OVERLORD_Y_HI + old(self).slot_index(), types::high_byte(value)),
            final(self).slot_index() == old(self).slot_index(),
            final(final(self).ram)@ == final(old(self).ram)@,
    {
        proof {
            assert(self.ram@.len() == self.ram.len());
        }
        write_position(self.ram, OVERLORD_Y_LO + self.slot, OVERLORD_Y_HI + self.slot, value);
    }

    pub fn set_y_low(&mut self, value: u8)
        requires
            OVERLORD_Y_LO + old(self).slot_index() < old(self).ram().len(),
        ensures
            final(self).ram() == old(self).ram().update(
                OVERLORD_Y_LO + old(self).slot_index(),
                value,
            ),
            final(self).slot_index() == old(self).slot_index(),
            final(final(self).ram)@ == final(old(self).ram)@,
    {
        proof {
            assert(self.ram@.len() == self.ram.len());
        }
        self.ram[OVERLORD_Y_LO + self.slot] = value;
    }

    pub fn set_y_high(&mut self, value: u8)
        requires
            OVERLORD_Y_HI + old(self).slot_index() < old(self).ram().len(),
        ensures
            final(self).ram() == old(self).ram().update(
                OVERLORD_Y_HI + old(self).slot_index(),
                value,
            ),
            final(self).slot_index() == old(self).slot_index(),
            final(final(self).ram)@ == final(old(self).ram)@,
    {
        proof {
            assert(self.ram@.len() == self.ram.len());
        }
        self.ram[OVERLORD_Y_HI + self.slot] = value;
    }

    pub fn subtract_x_low(&mut self, value: u8)
        requires
            OVERLORD_X_LO + old(self).slot_index() < old(self).ram().len(),
        ensures
            final(self).ram() == old(self).ram().update(
                OVERLORD_X_LO + old(self).slot_index(),
                old(self).ram()[OVERLORD_X_LO + old(self).slot_index()].wrapping_sub(value),
            ),
            final(self).slot_index() == old(self).slot_index(),
            final(final(self).ram)@ == final(old(self).ram)@,
    {
        proof {
            assert(self.ram@.len() == self.ram.len());
        }
        self.ram[OVERLORD_X_LO + self.slot] = self.ram[OVERLORD_X_LO + self.slot].wrapping_sub(value);
    }

    pub fn set_overlord_type(&mut self, value: u8)
        requires
            OVERLORD_TYPE + old(self).slot_index() < old(self).ram().len(),
        ensures
            final(self).ram() == old(self).ram().update(
                OVERLORD_TYPE + old(self).slot_index(),
                value,
            ),
            final(self).slot_index() == old(self).slot_index(),
            final(final(self).ram)@ == final(old(self).ram)@,
    {
        proof {
            assert(self.ram@.len() == self.ram.len());
        }
        self.ram[OVERLORD_TYPE + self.slot] = value;
    }

    pub fn clear(&mut self)
        requires
            OVERLORD_TYPE + old(self).slot_index() < old(self).ram().len(),
        ensures
            final(self).ram() == old(self).ram().update(OVERLORD_TYPE + old(self).slot_index(), 0),
            final(self).slot_index() == old(self).slot_index(),
            final(final(self).ram)@ == final(old(self).ram)@,
    {
        proof {
            assert(self.ram@.len() == self.ram.len());
        }
        self.set_overlord_type(0);
    }

    pub fn set_gen1(&mut self, value: u8)
        requires
            OVERLORD_GEN1 + old(self).slot_index() < old(self).ram().len(),
        ensures
            final(self).ram() == old(self).ram().update(
                OVERLORD_GEN1 + old(self).slot_index(),
                value,
            ),
            final(self).slot_index() == old(self).slot_index(),
            final(final(self).ram)@ == final(old(self).ram)@,
    {
        proof {
            assert(self.ram@.len() == self.ram.len());
        }
        self.ram[OVERLORD_GEN1 + self.slot] = value;
    }

    pub fn add_gen1(&mut self, value: u8)
        requires
            OVERLORD_GEN1 + old(self).slot_index() < old(self).ram().len(),
        ensures
            final(self).ram() == old(self).ram().update(
                OVERLORD_GEN1 + old(self).slot_index(),
                old(self).ram()[OVERLORD_GEN1 + old(self).slot_index()].wrapping_add(value),
            ),
            final(self).slot_index() == old(self).slot_index(),
            final(final(self).ram)@ == final(old(self).ram)@,
    {
        proof {
            assert(self.ram@.len() == self.ram.len());
        }
        self.ram[OVERLORD_GEN1 + self.slot] = self.ram[OVERLORD_GEN1 + self.slot].wrapping_add(value);
    }

    pub fn add_gen1_word(&mut self, value: u16)
        requires
            (OVERLORD_GEN1 + old(self).slot_index()) + 1 < old(self).ram().len(),
        ensures
            final(self).ram() == types::with_u16(
                old(self).ram(),
                OVERLORD_GEN1 + old(self).slot_index(),
                types::u16_at(
                    old(self).ram(),
                    OVERLORD_GEN1 + old(self).slot_index(),
                )
                    .wrapping_add(value),
            ),
            final(self).slot_index() == old(self).slot_index(),
            final(final(self).ram)@ == final(old(self).ram)@,
    {
        proof {
            assert(self.ram@.len() == self.ram.len());
        }
        let next = read_le_u16(self.ram, OVERLORD_GEN1 + self.slot).wrapping_add(value);
        write_le_u16(self.ram, OVERLORD_GEN1 + self.slot, next);
    }

    pub fn subtract_gen1(&mut self, value: u8)
        requires
            OVERLORD_GEN1 + old(self).slot_index() < old(self).ram().len(),
        ensures
            final(self).ram() == old(self).ram().update(
                OVERLORD_GEN1 + old(self).slot_index(),
                old(self).ram()[OVERLORD_GEN1 + old(self).slot_index()].wrapping_sub(value),
            ),
            final(self).slot_index() == old(self).slot_index(),
            final(final(self).ram)@ == final(old(self).ram)@,
    {
        proof {
            assert(self.ram@.len() == self.ram.len());
        }
        self.ram[OVERLORD_GEN1 + self.slot] = self.ram[OVERLORD_GEN1 + self.slot].wrapping_sub(value);
    }

    pub fn set_gen2(&mut self, value: u8)
        requires
            OVERLORD_GEN2 + old(self).slot_index() < old(self).ram().len(),
        ensures
            final(self).ram() == old(self).ram().update(
                OVERLORD_GEN2 + old(self).slot_index(),
                value,
            ),
            final(self).slot_index() == old(self).slot_index(),
            final(final(self).ram)@ == final(old(self).ram)@,
    {
        proof {
            assert(self.ram@.len() == self.ram.len());
        }
        self.ram[OVERLORD_GEN2 + self.slot] = value;
    }

    pub fn add_gen2(&mut self, value: u8)
        requires
            OVERLORD_GEN2 + old(self).slot_index() < old(self).ram().len(),
        ensures
            final(self).ram() == old(self).ram().update(
                OVERLORD_GEN2 + old(self).slot_index(),
                old(self).ram()[OVERLORD_GEN2 + old(self).slot_index()].wrapping_add(value),
            ),
            final(self).slot_index() == old(self).slot_index(),
            final(final(self).ram)@ == final(old(self).ram)@,
    {
        proof {
            assert(self.ram@.len() == self.ram.len());
        }
        self.ram[OVERLORD_GEN2 + self.slot] = self.ram[OVERLORD_GEN2 + self.slot].wrapping_add(value);
    }

    pub fn add_gen2_word(&mut self, value: u16)
        requires
            (OVERLORD_GEN2 + old(self).slot_index()) + 1 < old(self).ram().len(),
        ensures
            final(self).ram() == types::with_u16(
                old(self).ram(),
                OVERLORD_GEN2 + old(self).slot_index(),
                types::u16_at(
                    old(self).ram(),
                    OVERLORD_GEN2 + old(self).slot_index(),
                )
                    .wrapping_add(value),
            ),
            final(self).slot_index() == old(self).slot_index(),
            final(final(self).ram)@ == final(old(self).ram)@,
    {
        proof {
            assert(self.ram@.len() == self.ram.len());
        }
        let next = read_le_u16(self.ram, OVERLORD_GEN2 + self.slot).wrapping_add(value);
        write_le_u16(self.ram, OVERLORD_GEN2 + self.slot, next);
    }

    pub fn subtract_gen2(&mut self, value: u8)
        requires
            OVERLORD_GEN2 + old(self).slot_index() < old(self).ram().len(),
        ensures
            final(self).ram() == old(self).ram().update(
                OVERLORD_GEN2 + old(self).slot_index(),
                old(self).ram()[OVERLORD_GEN2 + old(self).slot_index()].wrapping_sub(value),
            ),
            final(self).slot_index() == old(self).slot_index(),
            final(final(self).ram)@ == final(old(self).ram)@,
    {
        proof {
            assert(self.ram@.len() == self.ram.len());
        }
        self.ram[OVERLORD_GEN2 + self.slot] = self.ram[OVERLORD_GEN2 + self.slot].wrapping_sub(value);
    }

    pub fn set_gen3(&mut self, value: u8)
        requires
            OVERLORD_GEN3 + old(self).slot_index() < old(self).ram().len(),
        ensures
            final(self).ram() == old(self).ram().update(
                OVERLORD_GEN3 + old(self).slot_index(),
                value,
            ),
            final(self).slot_index() == old(self).slot_index(),
            final(final(self).ram)@ == final(old(self).ram)@,
    {
        proof {
            assert(self.ram@.len() == self.ram.len());
        }
        self.ram[OVERLORD_GEN3 + self.slot] = value;
    }

    pub fn add_gen3(&mut self, value: u8)
        requires
            OVERLORD_GEN3 + old(self).slot_index() < old(self).ram().len(),
        ensures
            final(self).ram() == old(self).ram().update(
                OVERLORD_GEN3 + old(self).slot_index(),
                old(self).ram()[OVERLORD_GEN3 + old(self).slot_index()].wrapping_add(value),
            ),
            final(self).slot_index() == old(self).slot_index(),
            final(final(self).ram)@ == final(old(self).ram)@,
    {
        proof {
            assert(self.ram@.len() == self.ram.len());
        }
        self.ram[OVERLORD_GEN3 + self.slot] = self.ram[OVERLORD_GEN3 + self.slot].wrapping_add(value);
    }

    pub fn set_floor(&mut self, value: u8)
        requires
            OVERLORD_FLOOR + old(self).slot_index() < old(self).ram().len(),
        ensures
            final(self).ram() == old(self).ram().update(
                OVERLORD_FLOOR + old(self).slot_index(),
                value,
            ),
            final(self).slot_index() == old(self).slot_index(),
            final(final(self).ram)@ == final(old(self).ram)@,
    {
        proof {
            assert(self.ram@.len() == self.ram.len());
        }
        self.ram[OVERLORD_FLOOR + self.slot] = value;
    }

    pub fn set_sprite_block_pos(&mut self, value: u16)
        requires
            (OVERLORD_OFFSET_SPRITE_POS + (old(self).slot_index() * 2)) + 1 < old(self).ram().len(),
        ensures
            final(self).ram() == types::with_u16(
                old(self).ram(),
                OVERLORD_OFFSET_SPRITE_POS + (old(self).slot_index() * 2),
                value,
            ),
            final(self).slot_index() == old(self).slot_index(),
            final(final(self).ram)@ == final(old(self).ram)@,
    {
        proof {
            assert(self.ram@.len() == self.ram.len());
        }
        write_le_u16(self.ram, OVERLORD_OFFSET_SPRITE_POS + self.slot * 2, value);
    }

    pub fn set_spawned_area(&mut self, value: u8)
        requires
            OVERLORD_SPAWNED_AREA + old(self).slot_index() < old(self).ram().len(),
        ensures
            final(self).ram() == old(self).ram().update(
                OVERLORD_SPAWNED_AREA + old(self).slot_index(),
                value,
            ),
            final(self).slot_index() == old(self).slot_index(),
            final(final(self).ram)@ == final(old(self).ram)@,
    {
        proof {
            assert(self.ram@.len() == self.ram.len());
        }
        self.ram[OVERLORD_SPAWNED_AREA + self.slot] = value;
    }
}

} // verus!
