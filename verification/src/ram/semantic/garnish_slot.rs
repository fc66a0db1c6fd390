use vstd::prelude::*;
use super::access;
use super::access::{byte, packed_position, write_position};
use super::addresses::{
    GARNISH_COUNTDOWN, GARNISH_FLOOR, GARNISH_OAM_FLAGS, GARNISH_SPRITE, GARNISH_TYPE,
    GARNISH_X_HI, GARNISH_X_LO, GARNISH_X_SUBPIXEL, GARNISH_X_VELOCITY, GARNISH_Y_HI, GARNISH_Y_LO,
    GARNISH_Y_SUBPIXEL, GARNISH_Y_VELOCITY,
};
use crate::types;

verus! {

pub struct GarnishSlotView<'a> {
    ram: &'a [u8],
    slot: usize,
}

impl<'a> GarnishSlotView<'a> {
    /// The bytes of RAM this view reads and writes.
    pub closed spec fn ram(&self) -> Seq<u8> {
        self.ram@
    }

    /// The slot whose fields this view addresses.
    pub closed spec fn slot_index(&self) -> usize {
        self.slot
    }

    pub fn new(ram: &'a [u8], slot: usize) -> (view: Self)
        ensures
            view.ram() == ram@,
            view.slot_index() == slot,
    {
        Self { ram, slot }
    }

    pub fn garnish_type(&self) -> (result: u8)
        requires
            GARNISH_TYPE + self.slot_index() <= usize::MAX,
        ensures
            result == access::byte_at(self.ram(), GARNISH_TYPE + self.slot_index()),
    {
        byte(self.ram, GARNISH_TYPE + self.slot)
    }

    pub fn is_empty(&self) -> (result: bool)
        requires
            GARNISH_TYPE + self.slot_index() <= usize::MAX,
        ensures
            result == (access::byte_at(self.ram(), GARNISH_TYPE + self.slot_index()) == 0),
    {
        self.garnish_type() == 0
    }

    pub fn x(&self) -> (result: u16)
        requires
            GARNISH_X_LO + self.slot_index() <= usize::MAX,
            GARNISH_X_HI + self.slot_index() <= usize::MAX,
        ensures
            result == types::le_word(
                access::byte_at(self.ram(), GARNISH_X_LO + self.slot_index()),
                access::byte_at(self.ram(), GARNISH_X_HI + self.slot_index()),
            ),
    {
        packed_position(self.ram, GARNISH_X_LO + self.slot, GARNISH_X_HI + self.slot)
    }

    pub fn x_low(&self) -> (result: u8)
        requires
            GARNISH_X_LO + self.slot_index() <= usize::MAX,
        ensures
            result == access::byte_at(self.ram(), GARNISH_X_LO + self.slot_index()),
    {
        byte(self.ram, GARNISH_X_LO + self.slot)
    }

    pub fn x_high(&self) -> (result: u8)
        requires
            GARNISH_X_HI + self.slot_index() <= usize::MAX,
        ensures
            result == access::byte_at(self.ram(), GARNISH_X_HI + self.slot_index()),
    {
        byte(self.ram, GARNISH_X_HI + self.slot)
    }

    pub fn y(&self) -> (result: u16)
        requires
            GARNISH_Y_LO + self.slot_index() <= usize::MAX,
            GARNISH_Y_HI + self.slot_index() <= usize::MAX,
        ensures
            result == types::le_word(
                access::byte_at(self.ram(), GARNISH_Y_LO + self.slot_index()),
                access::byte_at(self.ram(), GARNISH_Y_HI + self.slot_index()),
            ),
    {
        packed_position(self.ram, GARNISH_Y_LO + self.slot, GARNISH_Y_HI + self.slot)
    }

    pub fn y_low(&self) -> (result: u8)
        requires
            GARNISH_Y_LO + self.slot_index() <= usize::MAX,
        ensures
            result == access::byte_at(self.ram(), GARNISH_Y_LO + self.slot_index()),
    {
        byte(self.ram, GARNISH_Y_LO + self.slot)
    }

    pub fn y_high(&self) -> (result: u8)
        requires
            GARNISH_Y_HI + self.slot_index() <= usize::MAX,
        ensures
            result == access::byte_at(self.ram(), GARNISH_Y_HI + self.slot_index()),
    {
        byte(self.ram, GARNISH_Y_HI + self.slot)
    }

    pub fn x_velocity(&self) -> (result: u8)
        requires
            GARNISH_X_VELOCITY + self.slot_index() <= usize::MAX,
        ensures
            result == access::byte_at(self.ram(), GARNISH_X_VELOCITY + self.slot_index()),
    {
        byte(self.ram, GARNISH_X_VELOCITY + self.slot)
    }

    pub fn y_velocity(&self) -> (result: u8)
        requires
            GARNISH_Y_VELOCITY + self.slot_index() <= usize::MAX,
        ensures
            result == access::byte_at(self.ram(), GARNISH_Y_VELOCITY + self.slot_index()),
    {
        byte(self.ram, GARNISH_Y_VELOCITY + self.slot)
    }

    pub fn x_subpixel(&self) -> (result: u8)
        requires
            GARNISH_X_SUBPIXEL + self.slot_index() <= usize::MAX,
        ensures
            result == access::byte_at(self.ram(), GARNISH_X_SUBPIXEL + self.slot_index()),
    {
        byte(self.ram, GARNISH_X_SUBPIXEL + self.slot)
    }

    pub fn y_subpixel(&self) -> (result: u8)
        requires
            GARNISH_Y_SUBPIXEL + self.slot_index() <= usize::MAX,
        ensures
            result == access::byte_at(self.ram(), GARNISH_Y_SUBPIXEL + self.slot_index()),
    {
        byte(self.ram, GARNISH_Y_SUBPIXEL + self.slot)
    }

    pub fn countdown(&self) -> (result: u8)
        requires
            GARNISH_COUNTDOWN + self.slot_index() <= usize::MAX,
        ensures
            result == access::byte_at(self.ram(), GARNISH_COUNTDOWN + self.slot_index()),
    {
        byte(self.ram, GARNISH_COUNTDOWN + self.slot)
    }

    pub fn sprite(&self) -> (result: u8)
        requires
            GARNISH_SPRITE + self.slot_index() <= usize::MAX,
        ensures
            result == access::byte_at(self.ram(), GARNISH_SPRITE + self.slot_index()),
    {
        byte(self.ram, GARNISH_SPRITE + self.slot)
    }

    pub fn floor(&self) -> (result: u8)
        requires
            GARNISH_FLOOR + self.slot_index() <= usize::MAX,
        ensures
            result == access::byte_at(self.ram(), GARNISH_FLOOR + self.slot_index()),
    {
        byte(self.ram, GARNISH_FLOOR + self.slot)
    }

    pub fn oam_flags(&self) -> (result: u8)
        requires
            GARNISH_OAM_FLAGS + self.slot_index() <= usize::MAX,
        ensures
            result == access::byte_at(self.ram(), GARNISH_OAM_FLAGS + self.slot_index()),
    {
        byte(self.ram, GARNISH_OAM_FLAGS + self.slot)
    }
}

pub struct GarnishSlotViewMut<'a> {
    pub ram: &'a mut [u8],
    pub slot: usize,
}

impl<'a> GarnishSlotViewMut<'a> {
    /// The bytes of RAM this view reads and writes.
    pub open spec fn ram(&self) -> Seq<u8> {
        self.ram@
    }

    /// The slot whose fields this view addresses.
    pub open spec fn slot_index(&self) -> usize {
        self.slot
    }

    pub fn new(ram: &'a mut [u8], slot: usize) -> (view: Self)
        ensures
            view.ram() == old(ram)@,
            view.slot_index() == slot,
            final(view.ram)@ == final(ram)@,
    {
        Self { ram, slot }
    }

    pub fn set_garnish_type(&mut self, value: u8)
        requires
            GARNISH_TYPE + old(self).slot_index() < old(self).ram().len(),
        ensures
            final(self).ram() == old(self).ram().update(
                GARNISH_TYPE + old(self).slot_index(),
                value,
            ),
            final(self).slot_index() == old(self).slot_index(),
            final(final(self).ram)@ == final(old(self).ram)@,
    {
        proof {
            assert(self.ram@.len() == self.ram.len());
        }
        self.ram[GARNISH_TYPE + self.slot] = value;
    }

    pub fn clear(&mut self)
        requires
            GARNISH_TYPE + old(self).slot_index() < old(self).ram().len(),
        ensures
            final(self).ram() == old(self).ram().update(GARNISH_TYPE + old(self).slot_index(), 0),
            final(self).slot_index() == old(self).slot_index(),
            final(final(self).ram)@ == final(old(self).ram)@,
    {
        proof {
            assert(self.ram@.len() == self.ram.len());
        }
        self.set_garnish_type(0);
    }

    pub fn set_x(&mut self, value: u16)
        requires
            GARNISH_X_LO + old(self).slot_index() < old(self).ram().len(),
            GARNISH_X_HI + old(self).slot_index() < old(self).ram().len(),
        ensures
            final(self).ram() == old(self).ram()
                .update(GARNISH_X_LO + old(self).slot_index(), types::low_byte(value))
                .update(GARNISH_X_HI + old(self).slot_index(), types::high_byte(value)),
            final(self).slot_index() == old(self).slot_index(),
            final(final(self).ram)@ == final(old(self).ram)@,
    {
        proof {
            assert(self.ram@.len() == self.ram.len());
        }
        write_position(self.ram, GARNISH_X_LO + self.slot, GARNISH_X_HI + self.slot, value);
    }

    pub fn set_x_low(&mut self, value: u8)
        requires
            GARNISH_X_LO + old(self).slot_index() < old(self).ram().len(),
        ensures
            final(self).ram() == old(self).ram().update(
                GARNISH_X_LO + old(self).slot_index(),
                value,
            ),
            final(self).slot_index() == old(self).slot_index(),
            final(final(self).ram)@ == final(old(self).ram)@,
    {
        proof {
            assert(self.ram@.len() == self.ram.len());
        }
        self.ram[GARNISH_X_LO + self.slot] = value;
    }

    pub fn set_x_high(&mut self, value: u8)
        requires
            GARNISH_X_HI + old(self).slot_index() < old(self).ram().len(),
        ensures
            final(self).ram() == old(self).ram().update(
                GARNISH_X_HI + old(self).slot_index(),
                value,
            ),
            final(self).slot_index() == old(self).slot_index(),
            final(final(self).ram)@ == final(old(self).ram)@,
    {
        proof {
            assert(self.ram@.len() == self.ram.len());
        }
        self.ram[GARNISH_X_HI + self.slot] = value;
    }

    pub fn set_y(&mut self, value: u16)
        requires
            GARNISH_Y_LO + old(self).slot_index() < old(self).ram().len(),
            GARNISH_Y_HI + old(self).slot_index() < old(self).ram().len(),
        ensures
            final(self).ram() == old(self).ram()
                .update(GARNISH_Y_LO + old(self).slot_index(), types::low_byte(value))
                .update(GARNISH_Y_HI + old(self).slot_index(), types::high_byte(value)),
            final(self).slot_index() == old(self).slot_index(),
            final(final(self).ram)@ == final(old(self).ram)@,
    {
        proof {
            assert(self.ram@.len() == self.ram.len());
        }
        write_position(self.ram, GARNISH_Y_LO + self.slot, GARNISH_Y_HI + self.slot, value);
    }

    pub fn set_y_low(&mut self, value: u8)
        requires
            GARNISH_Y_LO + old(self).slot_index() < old(self).ram().len(),
        ensures
            final(self).ram() == old(self).ram().update(
                GARNISH_Y_LO + old(self).slot_index(),
                value,
            ),
            final(self).slot_index() == old(self).slot_index(),
            final(final(self).ram)@ == final(old(self).ram)@,
    {
        proof {
            assert(self.ram@.len() == self.ram.len());
        }
        self.ram[GARNISH_Y_LO + self.slot] = value;
    }

    pub fn add_y_low(&mut self, value: u8)
        requires
            GARNISH_Y_LO + old(self).slot_index() < old(self).ram().len(),
        ensures
            final(self).ram() == old(self).ram().update(
                GARNISH_Y_LO + old(self).slot_index(),
                old(self).ram()[GARNISH_Y_LO + old(self).slot_index()].wrapping_add(value),
            ),
            final(self).slot_index() == old(self).slot_index(),
            final(final(self).ram)@ == final(old(self).ram)@,
    {
        proof {
            assert(self.ram@.len() == self.ram.len());
        }
        self.ram[GARNISH_Y_LO + self.slot] = self.ram[GARNISH_Y_LO + self.slot].wrapping_add(value);
    }

    pub fn subtract_y_low(&mut self, value: u8)
        requires
            GARNISH_Y_LO + old(self).slot_index() < old(self).ram().len(),
        ensures
            final(self).ram() == old(self).ram().update(
                GARNISH_Y_LO + old(self).slot_index(),
                old(self).ram()[GARNISH_Y_LO + old(self).slot_index()].wrapping_sub(value),
            ),
            final(self).slot_index() == old(self).slot_index(),
            final(final(self).ram)@ == final(old(self).ram)@,
    {
        proof {
            assert(self.ram@.len() == self.ram.len());
        }
        self.ram[GARNISH_Y_LO + self.slot] = self.ram[GARNISH_Y_LO + self.slot].wrapping_sub(value);
    }

    pub fn set_y_high(&mut self, value: u8)
        requires
            GARNISH_Y_HI + old(self).slot_index() < old(self).ram().len(),
        ensures
            final(self).ram() == old(self).ram().update(
                GARNISH_Y_HI + old(self).slot_index(),
                value,
            ),
            final(self).slot_index() == old(self).slot_index(),
            final(final(self).ram)@ == final(old(self).ram)@,
    {
        proof {
            assert(self.ram@.len() == self.ram.len());
        }
        self.ram[GARNISH_Y_HI + self.slot] = value;
    }

    pub fn set_x_velocity(&mut self, value: u8)
        requires
            GARNISH_X_VELOCITY + old(self).slot_index() < old(self).ram().len(),
        ensures
            final(self).ram() == old(self).ram().update(
                GARNISH_X_VELOCITY + old(self).slot_index(),
                value,
            ),
            final(self).slot_index() == old(self).slot_index(),
            final(final(self).ram)@ == final(old(self).ram)@,
    {
        proof {
            assert(self.ram@.len() == self.ram.len());
        }
        self.ram[GARNISH_X_VELOCITY + self.slot] = value;
    }

    pub fn set_y_velocity(&mut self, value: u8)
        requires
            GARNISH_Y_VELOCITY + old(self).slot_index() < old(self).ram().len(),
        ensures
            final(self).ram() == old(self).ram().update(
                GARNISH_Y_VELOCITY + old(self).slot_index(),
                value,
            ),
            final(self).slot_index() == old(self).slot_index(),
            final(final(self).ram)@ == final(old(self).ram)@,
    {
        proof {
            assert(self.ram@.len() == self.ram.len());
        }
        self.ram[GARNISH_Y_VELOCITY + self.slot] = value;
    }

    pub fn add_y_velocity(&mut self, value: u8)
        requires
            GARNISH_Y_VELOCITY + old(self).slot_index() < old(self).ram().len(),
        ensures
            final(self).ram() == old(self).ram().update(
                GARNISH_Y_VELOCITY + old(self).slot_index(),
                old(self).ram()[GARNISH_Y_VELOCITY + old(self).slot_index()].wrapping_add(value),
            ),
            final(self).slot_index() == old(self).slot_index(),
            final(final(self).ram)@ == final(old(self).ram)@,
    {
        proof {
            assert(self.ram@.len() == self.ram.len());
        }
        self.ram[GARNISH_Y_VELOCITY + self.slot] = self.ram[GARNISH_Y_VELOCITY + self.slot].wrapping_add(value);
    }

    pub fn set_x_subpixel(&mut self, value: u8)
        requires
            GARNISH_X_SUBPIXEL + old(self).slot_index() < old(self).ram().len(),
        ensures
            final(self).ram() == old(self).ram().update(
                GARNISH_X_SUBPIXEL + old(self).slot_index(),
                value,
            ),
            final(self).slot_index() == old(self).slot_index(),
            final(final(self).ram)@ == final(old(self).ram)@,
    {
        proof {
            assert(self.ram@.len() == self.ram.len());
        }
        self.ram[GARNISH_X_SUBPIXEL + self.slot] = value;
    }

    pub fn set_y_subpixel(&mut self, value: u8)
        requires
            GARNISH_Y_SUBPIXEL + old(self).slot_index() < old(self).ram().len(),
        ensures
            final(self).ram() == old(self).ram().update(
                GARNISH_Y_SUBPIXEL + old(self).slot_index(),
                value,
            ),
            final(self).slot_index() == old(self).slot_index(),
            final(final(self).ram)@ == final(old(self).ram)@,
    {
        proof {
            assert(self.ram@.len() == self.ram.len());
        }
        self.ram[GARNISH_Y_SUBPIXEL + self.slot] = value;
    }

    pub fn set_countdown(&mut self, value: u8)
        requires
            GARNISH_COUNTDOWN + old(self).slot_index() < old(self).ram().len(),
        ensures
            final(self).ram() == old(self).ram().update(
                GARNISH_COUNTDOWN + old(self).slot_index(),
                value,
            ),
            final(self).slot_index() == old(self).slot_index(),
            final(final(self).ram)@ == final(old(self).ram)@,
    {
        proof {
            assert(self.ram@.len() == self.ram.len());
        }
        self.ram[GARNISH_COUNTDOWN + self.slot] = value;
    }

    pub fn subtract_countdown(&mut self, value: u8)
        requires
            GARNISH_COUNTDOWN + old(self).slot_index() < old(self).ram().len(),
        ensures
            final(self).ram() == old(self).ram().update(
                GARNISH_COUNTDOWN + old(self).slot_index(),
                old(self).ram()[GARNISH_COUNTDOWN + old(self).slot_index()].wrapping_sub(value),
            ),
            final(self).slot_index() == old(self).slot_index(),
            final(final(self).ram)@ == final(old(self).ram)@,
    {
        proof {
            assert(self.ram@.len() == self.ram.len());
        }
        self.ram[GARNISH_COUNTDOWN + self.slot] = self.ram[GARNISH_COUNTDOWN + self.slot].wrapping_sub(value);
    }

    pub fn set_sprite(&mut self, value: u8)
        requires
            GARNISH_SPRITE + old(self).slot_index() < old(self).ram().len(),
        ensures
            final(self).ram() == old(self).ram().update(
                GARNISH_SPRITE + old(self).slot_index(),
                value,
            ),
            final(self).slot_index() == old(self).slot_index(),
            final(final(self).ram)@ == final(old(self).ram)@,
    {
        proof {
            assert(self.ram@.len() == self.ram.len());
        }
        self.ram[GARNISH_SPRITE + self.slot] = value;
    }

    pub fn set_floor(&mut self, value: u8)
        requires
            GARNISH_FLOOR + old(self).slot_index() < old(self).ram().len(),
        ensures
            final(self).ram() == old(self).ram().update(
                GARNISH_FLOOR + old(self).slot_index(),
                value,
            ),
            final(self).slot_index() == old(self).slot_index(),
            final(final(self).ram)@ == final(old(self).ram)@,
    {
        proof {
            assert(self.ram@.len() == self.ram.len());
        }
        self.ram[GARNISH_FLOOR + self.slot] = value;
    }

    pub fn set_oam_flags(&mut self, value: u8)
        requires
            GARNISH_OAM_FLAGS + old(self).slot_index() < old(self).ram().len(),
        ensures
            final(self).ram() == old(self).ram().update(
                GARNISH_OAM_FLAGS + old(self).slot_index(),
                value,
            ),
            final(self).slot_index() == old(self).slot_index(),
            final(final(self).ram)@ == final(old(self).ram)@,
    {
        proof {
            assert(self.ram@.len() == self.ram.len());
        }
        self.ram[GARNISH_OAM_FLAGS + self.slot] = value;
    }
}

} // verus!
