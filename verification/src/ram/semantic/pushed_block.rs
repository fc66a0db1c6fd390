use vstd::prelude::*;
use super::access;
use super::access::{byte};
use super::addresses::{
    PUSHEDBLOCKS_SUBPIXEL, PUSHEDBLOCKS_TARGET, PUSHEDBLOCKS_X_HI, PUSHEDBLOCKS_X_LO,
    PUSHEDBLOCKS_Y_HI, PUSHEDBLOCKS_Y_LO, PUSHEDBLOCK_FACING_PLAYER,
};

verus! {

pub struct PushedBlockView<'a> {
    ram: &'a [u8],
}

impl<'a> PushedBlockView<'a> {
    /// The bytes of RAM this view reads and writes.
    pub closed spec fn ram(&self) -> Seq<u8> {
        self.ram@
    }

    pub fn new(ram: &'a [u8]) -> (view: Self)
        ensures
            view.ram() == ram@,
    {
        Self { ram }
    }

    pub fn x(&self, slot: usize) -> (result: u16)
        requires
            PUSHEDBLOCKS_X_LO + (slot * 2) <= usize::MAX,
            PUSHEDBLOCKS_X_HI + (slot * 2) <= usize::MAX,
        ensures
            result == ((access::byte_at(self.ram(), PUSHEDBLOCKS_X_LO + (slot * 2)) as u16)
                 | ((access::byte_at(self.ram(), PUSHEDBLOCKS_X_HI + (slot * 2)) as u16) << 8)),
    {
        byte(self.ram, PUSHEDBLOCKS_X_LO + slot * 2) as u16
            | ((byte(self.ram, PUSHEDBLOCKS_X_HI + slot * 2) as u16) << 8)
    }

    pub fn y(&self, slot: usize) -> (result: u16)
        requires
            PUSHEDBLOCKS_Y_LO + (slot * 2) <= usize::MAX,
            PUSHEDBLOCKS_Y_HI + (slot * 2) <= usize::MAX,
        ensures
            result == ((access::byte_at(self.ram(), PUSHEDBLOCKS_Y_LO + (slot * 2)) as u16)
                 | ((access::byte_at(self.ram(), PUSHEDBLOCKS_Y_HI + (slot * 2)) as u16) << 8)),
    {
        byte(self.ram, PUSHEDBLOCKS_Y_LO + slot * 2) as u16
            | ((byte(self.ram, PUSHEDBLOCKS_Y_HI + slot * 2) as u16) << 8)
    }

    pub fn x_low(&self, slot: usize) -> (result: u8)
        requires
            PUSHEDBLOCKS_X_LO + (slot * 2) <= usize::MAX,
        ensures
            result == access::byte_at(self.ram(), PUSHEDBLOCKS_X_LO + (slot * 2)),
    {
        byte(self.ram, PUSHEDBLOCKS_X_LO + slot * 2)
    }

    pub fn y_low(&self, slot: usize) -> (result: u8)
        requires
            PUSHEDBLOCKS_Y_LO + (slot * 2) <= usize::MAX,
        ensures
            result == access::byte_at(self.ram(), PUSHEDBLOCKS_Y_LO + (slot * 2)),
    {
        byte(self.ram, PUSHEDBLOCKS_Y_LO + slot * 2)
    }

    pub fn subpixel(&self, slot: usize) -> (result: u8)
        requires
            PUSHEDBLOCKS_SUBPIXEL + (slot * 2) <= usize::MAX,
        ensures
            result == access::byte_at(self.ram(), PUSHEDBLOCKS_SUBPIXEL + (slot * 2)),
    {
        byte(self.ram, PUSHEDBLOCKS_SUBPIXEL + slot * 2)
    }

    pub fn target_low(&self, slot: usize) -> (result: u8)
        requires
            PUSHEDBLOCKS_TARGET + (slot * 2) <= usize::MAX,
        ensures
            result == access::byte_at(self.ram(), PUSHEDBLOCKS_TARGET + (slot * 2)),
    {
        byte(self.ram, PUSHEDBLOCKS_TARGET + slot * 2)
    }

    pub fn facing_player(&self, slot: usize) -> (result: u8)
        requires
            PUSHEDBLOCK_FACING_PLAYER + (slot * 2) <= usize::MAX,
        ensures
            result == access::byte_at(self.ram(), PUSHEDBLOCK_FACING_PLAYER + (slot * 2)),
    {
        byte(self.ram, PUSHEDBLOCK_FACING_PLAYER + slot * 2)
    }

    pub fn x_fixed24(&self, slot: usize) -> (result: u32)
        requires
            PUSHEDBLOCKS_SUBPIXEL + (slot * 2) <= usize::MAX,
            PUSHEDBLOCKS_X_LO + (slot * 2) <= usize::MAX,
            PUSHEDBLOCKS_X_HI + (slot * 2) <= usize::MAX,
        ensures
            result == (((access::byte_at(self.ram(), PUSHEDBLOCKS_SUBPIXEL + (slot * 2)) as u32)
                  | ((access::byte_at(self.ram(), PUSHEDBLOCKS_X_LO + (slot * 2)) as u32) << 8))
                 | ((access::byte_at(self.ram(), PUSHEDBLOCKS_X_HI + (slot * 2)) as u32) << 16)),
    {
        self.subpixel(slot) as u32
            | ((self.x_low(slot) as u32) << 8)
            | ((byte(self.ram, PUSHEDBLOCKS_X_HI + slot * 2) as u32) << 16)
    }

    pub fn y_fixed24(&self, slot: usize) -> (result: u32)
        requires
            PUSHEDBLOCKS_SUBPIXEL + (slot * 2) <= usize::MAX,
            PUSHEDBLOCKS_Y_LO + (slot * 2) <= usize::MAX,
            PUSHEDBLOCKS_Y_HI + (slot * 2) <= usize::MAX,
        ensures
            result == (((access::byte_at(self.ram(), PUSHEDBLOCKS_SUBPIXEL + (slot * 2)) as u32)
                  | ((access::byte_at(self.ram(), PUSHEDBLOCKS_Y_LO + (slot * 2)) as u32) << 8))
                 | ((access::byte_at(self.ram(), PUSHEDBLOCKS_Y_HI + (slot * 2)) as u32) << 16)),
    {
        self.subpixel(slot) as u32
            | ((self.y_low(slot) as u32) << 8)
            | ((byte(self.ram, PUSHEDBLOCKS_Y_HI + slot * 2) as u32) << 16)
    }
}

pub struct PushedBlockViewMut<'a> {
    pub ram: &'a mut [u8],
}

impl<'a> PushedBlockViewMut<'a> {
    /// The bytes of RAM this view reads and writes.
    pub open spec fn ram(&self) -> Seq<u8> {
        self.ram@
    }

    pub fn new(ram: &'a mut [u8]) -> (view: Self)
        ensures
            view.ram() == old(ram)@,
            final(view.ram)@ == final(ram)@,
    {
        Self { ram }
    }

    pub fn set_facing_player(&mut self, slot: usize, value: u8)
        requires
            PUSHEDBLOCK_FACING_PLAYER + (slot * 2) < old(self).ram().len(),
        ensures
            final(self).ram() == old(self).ram().update(
                PUSHEDBLOCK_FACING_PLAYER + (slot * 2),
                value,
            ),
            final(final(self).ram)@ == final(old(self).ram)@,
    {
        proof {
            assert(self.ram@.len() == self.ram.len());
        }
        self.ram[PUSHEDBLOCK_FACING_PLAYER + slot * 2] = value;
    }

    pub fn set_target_low(&mut self, slot: usize, value: u8)
        requires
            PUSHEDBLOCKS_TARGET + (slot * 2) < old(self).ram().len(),
        ensures
            final(self).ram() == old(self).ram().update(PUSHEDBLOCKS_TARGET + (slot * 2), value),
            final(final(self).ram)@ == final(old(self).ram)@,
    {
        proof {
            assert(self.ram@.len() == self.ram.len());
        }
        self.ram[PUSHEDBLOCKS_TARGET + slot * 2] = value;
    }

    pub fn set_x_fixed24(&mut self, slot: usize, value: u32)
        requires
            PUSHEDBLOCKS_SUBPIXEL + (slot * 2) < old(self).ram().len(),
            PUSHEDBLOCKS_X_LO + (slot * 2) < old(self).ram().len(),
            PUSHEDBLOCKS_X_HI + (slot * 2) < old(self).ram().len(),
        ensures
            final(self).ram() == old(self).ram()
                .update(PUSHEDBLOCKS_SUBPIXEL + (slot * 2), value as u8)
                .update(PUSHEDBLOCKS_X_LO + (slot * 2), (value >> 8) as u8)
                .update(PUSHEDBLOCKS_X_HI + (slot * 2), (value >> 16) as u8),
            final(final(self).ram)@ == final(old(self).ram)@,
    {
        proof {
            assert(self.ram@.len() == self.ram.len());
        }
        self.ram[PUSHEDBLOCKS_SUBPIXEL + slot * 2] = value as u8;
        self.ram[PUSHEDBLOCKS_X_LO + slot * 2] = (value >> 8) as u8;
        self.ram[PUSHEDBLOCKS_X_HI + slot * 2] = (value >> 16) as u8;
    }

    pub fn set_y_fixed24(&mut self, slot: usize, value: u32)
        requires
            PUSHEDBLOCKS_SUBPIXEL + (slot * 2) < old(self).ram().len(),
            PUSHEDBLOCKS_Y_LO + (slot * 2) < old(self).ram().len(),
            PUSHEDBLOCKS_Y_HI + (slot * 2) < old(self).ram().len(),
        ensures
            final(self).ram() == old(self).ram()
                .update(PUSHEDBLOCKS_SUBPIXEL + (slot * 2), value as u8)
                .update(PUSHEDBLOCKS_Y_LO + (slot * 2), (value >> 8) as u8)
                .update(PUSHEDBLOCKS_Y_HI + (slot * 2), (value >> 16) as u8),
            final(final(self).ram)@ == final(old(self).ram)@,
    {
        proof {
            assert(self.ram@.len() == self.ram.len());
        }
        self.ram[PUSHEDBLOCKS_SUBPIXEL + slot * 2] = value as u8;
        self.ram[PUSHEDBLOCKS_Y_LO + slot * 2] = (value >> 8) as u8;
        self.ram[PUSHEDBLOCKS_Y_HI + slot * 2] = (value >> 16) as u8;
    }
}

} // verus!
