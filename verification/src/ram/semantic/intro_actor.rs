use vstd::prelude::*;
use super::access;
use super::access::{byte, move_axis24};
use super::addresses::{
    INTRO_SPRITE_IS_INITED, INTRO_SPRITE_STATE, INTRO_SPRITE_SUBTYPE, INTRO_X_HI, INTRO_X_LO,
    INTRO_X_SUBPIXEL, INTRO_X_VEL, INTRO_Y_HI, INTRO_Y_LO, INTRO_Y_SUBPIXEL, INTRO_Y_VEL,
};

verus! {

pub struct IntroActorView<'a> {
    ram: &'a [u8],
    slot: usize,
}

impl<'a> IntroActorView<'a> {
    /// The bytes of RAM this view reads and writes.
    pub closed spec fn ram(&self) -> Seq<u8> {
        self.ram@
    }

    /// The slot whose fields this view addresses.
    pub closed spec fn slot_index(&self) -> usize {
        self.slot
    }

    pub fn new(ram: &'a [u8], slot: usize) -> (view: Self)
        ensures
            view.ram() == ram@,
            view.slot_index() == slot,
    {
        Self { ram, slot }
    }

    pub fn x(&self) -> (result: u16)
        requires
            INTRO_X_LO + self.slot_index() <= usize::MAX,
            INTRO_X_HI + self.slot_index() <= usize::MAX,
        ensures
            result == ((access::byte_at(self.ram(), INTRO_X_LO + self.slot_index()) as u16)
                 | ((access::byte_at(self.ram(), INTRO_X_HI + self.slot_index()) as u16) << 8)),
    {
        byte(self.ram, INTRO_X_LO + self.slot) as u16
            | ((byte(self.ram, INTRO_X_HI + self.slot) as u16) << 8)
    }

    pub fn y(&self) -> (result: u16)
        requires
            INTRO_Y_LO + self.slot_index() <= usize::MAX,
            INTRO_Y_HI + self.slot_index() <= usize::MAX,
        ensures
            result == ((access::byte_at(self.ram(), INTRO_Y_LO + self.slot_index()) as u16)
                 | ((access::byte_at(self.ram(), INTRO_Y_HI + self.slot_index()) as u16) << 8)),
    {
        byte(self.ram, INTRO_Y_LO + self.slot) as u16
            | ((byte(self.ram, INTRO_Y_HI + self.slot) as u16) << 8)
    }

    pub fn x_low(&self) -> (result: u8)
        requires
            INTRO_X_LO + self.slot_index() <= usize::MAX,
        ensures
            result == access::byte_at(self.ram(), INTRO_X_LO + self.slot_index()),
    {
        byte(self.ram, INTRO_X_LO + self.slot)
    }

    pub fn y_low(&self) -> (result: u8)
        requires
            INTRO_Y_LO + self.slot_index() <= usize::MAX,
        ensures
            result == access::byte_at(self.ram(), INTRO_Y_LO + self.slot_index()),
    {
        byte(self.ram, INTRO_Y_LO + self.slot)
    }

    pub fn x_velocity(&self) -> (result: u8)
        requires
            INTRO_X_VEL + self.slot_index() <= usize::MAX,
        ensures
            result == access::byte_at(self.ram(), INTRO_X_VEL + self.slot_index()),
    {
        byte(self.ram, INTRO_X_VEL + self.slot)
    }

    pub fn y_velocity(&self) -> (result: u8)
        requires
            INTRO_Y_VEL + self.slot_index() <= usize::MAX,
        ensures
            result == access::byte_at(self.ram(), INTRO_Y_VEL + self.slot_index()),
    {
        byte(self.ram, INTRO_Y_VEL + self.slot)
    }

    pub fn init_phase(&self) -> (result: u8)
        requires
            INTRO_SPRITE_IS_INITED + self.slot_index() <= usize::MAX,
        ensures
            result == access::byte_at(self.ram(), INTRO_SPRITE_IS_INITED + self.slot_index()),
    {
        byte(self.ram, INTRO_SPRITE_IS_INITED + self.slot)
    }

    pub fn subtype(&self) -> (result: u8)
        requires
            INTRO_SPRITE_SUBTYPE + self.slot_index() <= usize::MAX,
        ensures
            result == access::byte_at(self.ram(), INTRO_SPRITE_SUBTYPE + self.slot_index()),
    {
        byte(self.ram, INTRO_SPRITE_SUBTYPE + self.slot)
    }

    pub fn state(&self) -> (result: u8)
        requires
            INTRO_SPRITE_STATE + self.slot_index() <= usize::MAX,
        ensures
            result == access::byte_at(self.ram(), INTRO_SPRITE_STATE + self.slot_index()),
    {
        byte(self.ram, INTRO_SPRITE_STATE + self.slot)
    }
}

pub struct IntroActorViewMut<'a> {
    pub ram: &'a mut [u8],
    pub slot: usize,
}

impl<'a> IntroActorViewMut<'a> {
    /// The bytes of RAM this view reads and writes.
    pub open spec fn ram(&self) -> Seq<u8> {
        self.ram@
    }

    /// The slot whose fields this view addresses.
    pub open spec fn slot_index(&self) -> usize {
        self.slot
    }

    pub fn new(ram: &'a mut [u8], slot: usize) -> (view: Self)
        ensures
            view.ram() == old(ram)@,
            view.slot_index() == slot,
            final(view.ram)@ == final(ram)@,
    {
        Self { ram, slot }
    }

    pub fn set_x(&mut self, value: i16)
        requires
            INTRO_X_LO + old(self).slot_index() < old(self).ram().len(),
            INTRO_X_HI + old(self).slot_index() < old(self).ram().len(),
        ensures
            final(self).ram() == old(self).ram()
                .update(INTRO_X_LO + old(self).slot_index(), value as u8)
                .update(INTRO_X_HI + old(self).slot_index(), (value >> 8) as u8),
            final(self).slot_index() == old(self).slot_index(),
            final(final(self).ram)@ == final(old(self).ram)@,
    {
        proof {
            assert(self.ram@.len() == self.ram.len());
        }
        self.ram[INTRO_X_LO + self.slot] = value as u8;
        self.ram[INTRO_X_HI + self.slot] = (value >> 8) as u8;
    }

    pub fn set_y(&mut self, value: i16)
        requires
            INTRO_Y_LO + old(self).slot_index() < old(self).ram().len(),
            INTRO_Y_HI + old(self).slot_index() < old(self).ram().len(),
        ensures
            final(self).ram() == old(self).ram()
                .update(INTRO_Y_LO + old(self).slot_index(), value as u8)
                .update(INTRO_Y_HI + old(self).slot_index(), (value >> 8) as u8),
            final(self).slot_index() == old(self).slot_index(),
            final(final(self).ram)@ == final(old(self).ram)@,
    {
        proof {
            assert(self.ram@.len() == self.ram.len());
        }
        self.ram[INTRO_Y_LO + self.slot] = value as u8;
        self.ram[INTRO_Y_HI + self.slot] = (value >> 8) as u8;
    }

    pub fn set_x_low(&mut self, value: u8)
        requires
            INTRO_X_LO + old(self).slot_index() < old(self).ram().len(),
        ensures
            final(self).ram() == old(self).ram().update(INTRO_X_LO + old(self).slot_index(), value),
            final(self).slot_index() == old(self).slot_index(),
            final(final(self).ram)@ == final(old(self).ram)@,
    {
        proof {
            assert(self.ram@.len() == self.ram.len());
        }
        self.ram[INTRO_X_LO + self.slot] = value;
    }

    pub fn set_y_low(&mut self, value: u8)
        requires
            INTRO_Y_LO + old(self).slot_index() < old(self).ram().len(),
        ensures
            final(self).ram() == old(self).ram().update(INTRO_Y_LO + old(self).slot_index(), value),
            final(self).slot_index() == old(self).slot_index(),
            final(final(self).ram)@ == final(old(self).ram)@,
    {
        proof {
            assert(self.ram@.len() == self.ram.len());
        }
        self.ram[INTRO_Y_LO + self.slot] = value;
    }

    pub fn set_x_velocity(&mut self, value: u8)
        requires
            INTRO_X_VEL + old(self).slot_index() < old(self).ram().len(),
        ensures
            final(self).ram() == old(self).ram().update(
                INTRO_X_VEL + old(self).slot_index(),
                value,
            ),
            final(self).slot_index() == old(self).slot_index(),
            final(final(self).ram)@ == final(old(self).ram)@,
    {
        proof {
            assert(self.ram@.len() == self.ram.len());
        }
        self.ram[INTRO_X_VEL + self.slot] = value;
    }

    pub fn set_y_velocity(&mut self, value: u8)
        requires
            INTRO_Y_VEL + old(self).slot_index() < old(self).ram().len(),
        ensures
            final(self).ram() == old(self).ram().update(
                INTRO_Y_VEL + old(self).slot_index(),
                value,
            ),
            final(self).slot_index() == old(self).slot_index(),
            final(final(self).ram)@ == final(old(self).ram)@,
    {
        proof {
            assert(self.ram@.len() == self.ram.len());
        }
        self.ram[INTRO_Y_VEL + self.slot] = value;
    }

    pub fn add_x_velocity(&mut self, value: u8)
        requires
            INTRO_X_VEL + old(self).slot_index() < old(self).ram().len(),
        ensures
            final(self).ram() == old(self).ram().update(
                INTRO_X_VEL + old(self).slot_index(),
                old(self).ram()[INTRO_X_VEL + old(self).slot_index()].wrapping_add(value),
            ),
            final(self).slot_index() == old(self).slot_index(),
            final(final(self).ram)@ == final(old(self).ram)@,
    {
        proof {
            assert(self.ram@.len() == self.ram.len());
        }
        self.ram[INTRO_X_VEL + self.slot] = self.ram[INTRO_X_VEL + self.slot].wrapping_add(value);
    }

    pub fn add_y_velocity(&mut self, value: u8)
        requires
            INTRO_Y_VEL + old(self).slot_index() < old(self).ram().len(),
        ensures
            final(self).ram() == old(self).ram().update(
                INTRO_Y_VEL + old(self).slot_index(),
                old(self).ram()[INTRO_Y_VEL + old(self).slot_index()].wrapping_add(value),
            ),
            final(self).slot_index() == old(self).slot_index(),
            final(final(self).ram)@ == final(old(self).ram)@,
    {
        proof {
            assert(self.ram@.len() == self.ram.len());
        }
        self.ram[INTRO_Y_VEL + self.slot] = self.ram[INTRO_Y_VEL + self.slot].wrapping_add(value);
    }

    pub fn set_init_phase(&mut self, value: u8)
        requires
            INTRO_SPRITE_IS_INITED + old(self).slot_index() < old(self).ram().len(),
        ensures
            final(self).ram() == old(self).ram().update(
                INTRO_SPRITE_IS_INITED + old(self).slot_index(),
                value,
            ),
            final(self).slot_index() == old(self).slot_index(),
            final(final(self).ram)@ == final(old(self).ram)@,
    {
        proof {
            assert(self.ram@.len() == self.ram.len());
        }
        self.ram[INTRO_SPRITE_IS_INITED + self.slot] = value;
    }

    pub fn increment_init_phase(&mut self)
        requires
            INTRO_SPRITE_IS_INITED + old(self).slot_index() < old(self).ram().len(),
        ensures
            final(self).ram() == old(self).ram().update(
                INTRO_SPRITE_IS_INITED + old(self).slot_index(),
                old(self).ram()[INTRO_SPRITE_IS_INITED + old(self).slot_index()].wrapping_add(1),
            ),
            final(self).slot_index() == old(self).slot_index(),
            final(final(self).ram)@ == final(old(self).ram)@,
    {
        proof {
            assert(self.ram@.len() == self.ram.len());
        }
        self.ram[INTRO_SPRITE_IS_INITED + self.slot] = self.ram[INTRO_SPRITE_IS_INITED + self.slot].wrapping_add(1);
    }

    pub fn set_subtype(&mut self, value: u8)
        requires
            INTRO_SPRITE_SUBTYPE + old(self).slot_index() < old(self).ram().len(),
        ensures
            final(self).ram() == old(self).ram().update(
                INTRO_SPRITE_SUBTYPE + old(self).slot_index(),
                value,
            ),
            final(self).slot_index() == old(self).slot_index(),
            final(final(self).ram)@ == final(old(self).ram)@,
    {
        proof {
            assert(self.ram@.len() == self.ram.len());
        }
        self.ram[INTRO_SPRITE_SUBTYPE + self.slot] = value;
    }

    pub fn set_state(&mut self, value: u8)
        requires
            INTRO_SPRITE_STATE + old(self).slot_index() < old(self).ram().len(),
        ensures
            final(self).ram() == old(self).ram().update(
                INTRO_SPRITE_STATE + old(self).slot_index(),
                value,
            ),
            final(self).slot_index() == old(self).slot_index(),
            final(final(self).ram)@ == final(old(self).ram)@,
    {
        proof {
            assert(self.ram@.len() == self.ram.len());
        }
        self.ram[INTRO_SPRITE_STATE + self.slot] = value;
    }

    pub fn increment_state(&mut self)
        requires
            INTRO_SPRITE_STATE + old(self).slot_index() < old(self).ram().len(),
        ensures
            final(self).ram() == old(self).ram().update(
                INTRO_SPRITE_STATE + old(self).slot_index(),
                old(self).ram()[INTRO_SPRITE_STATE + old(self).slot_index()].wrapping_add(1),
            ),
            final(self).slot_index() == old(self).slot_index(),
            final(final(self).ram)@ == final(old(self).ram)@,
    {
        proof {
            assert(self.ram@.len() == self.ram.len());
        }
        self.ram[INTRO_SPRITE_STATE + self.slot] = self.ram[INTRO_SPRITE_STATE + self.slot].wrapping_add(1);
    }

    pub fn move_x(&mut self)
        requires
            INTRO_X_SUBPIXEL + old(self).slot_index() < old(self).ram().len(),
            INTRO_X_LO + old(self).slot_index() < old(self).ram().len(),
            INTRO_X_HI + old(self).slot_index() < old(self).ram().len(),
            INTRO_X_VEL + old(self).slot_index() < old(self).ram().len(),
        ensures
            final(self).ram() == access::moved_axis24(
                old(self).ram(),
                INTRO_X_SUBPIXEL + old(self).slot_index(),
                INTRO_X_LO + old(self).slot_index(),
                INTRO_X_HI + old(self).slot_index(),
                INTRO_X_VEL + old(self).slot_index(),
            ),
            final(self).slot_index() == old(self).slot_index(),
            final(final(self).ram)@ == final(old(self).ram)@,
    {
        proof {
            assert(self.ram@.len() == self.ram.len());
        }
        move_axis24(
            self.ram,
            INTRO_X_SUBPIXEL + self.slot,
            INTRO_X_LO + self.slot,
            INTRO_X_HI + self.slot,
            INTRO_X_VEL + self.slot,
        );
    }

    pub fn move_y(&mut self)
        requires
            INTRO_Y_SUBPIXEL + old(self).slot_index() < old(self).ram().len(),
            INTRO_Y_LO + old(self).slot_index() < old(self).ram().len(),
            INTRO_Y_HI + old(self).slot_index() < old(self).ram().len(),
            INTRO_Y_VEL + old(self).slot_index() < old(self).ram().len(),
        ensures
            final(self).ram() == access::moved_axis24(
                old(self).ram(),
                INTRO_Y_SUBPIXEL + old(self).slot_index(),
                INTRO_Y_LO + old(self).slot_index(),
                INTRO_Y_HI + old(self).slot_index(),
                INTRO_Y_VEL + old(self).slot_index(),
            ),
            final(self).slot_index() == old(self).slot_index(),
            final(final(self).ram)@ == final(old(self).ram)@,
    {
        proof {
            assert(self.ram@.len() == self.ram.len());
        }
        move_axis24(
            self.ram,
            INTRO_Y_SUBPIXEL + self.slot,
            INTRO_Y_LO + self.slot,
            INTRO_Y_HI + self.slot,
            INTRO_Y_VEL + self.slot,
        );
    }
}

} // verus!
