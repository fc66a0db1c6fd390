use vstd::prelude::*;
use super::access;
use super::access::{byte};
use super::addresses::{
    HAPPINESS_POND_ACTIVE, HAPPINESS_POND_ITEM_TO_LINK, HAPPINESS_POND_STEP, HAPPINESS_POND_TIMER,
    HAPPINESS_POND_X_HI, HAPPINESS_POND_X_LO, HAPPINESS_POND_X_SUBPIXEL, HAPPINESS_POND_X_VEL,
    HAPPINESS_POND_Y_HI, HAPPINESS_POND_Y_LO, HAPPINESS_POND_Y_SUBPIXEL, HAPPINESS_POND_Y_VEL,
    HAPPINESS_POND_Z, HAPPINESS_POND_Z_SUBPIXEL, HAPPINESS_POND_Z_VEL,
};
use crate::types;

verus! {

/// Whether every field of rupee `slot` lies inside RAM.
pub open spec fn pond_rupee_fits(ram: Seq<u8>, slot: int) -> bool {
    &&& 0 <= slot
    &&& HAPPINESS_POND_Y_LO + slot < ram.len()
    &&& HAPPINESS_POND_Y_HI + slot < ram.len()
    &&& HAPPINESS_POND_X_LO + slot < ram.len()
    &&& HAPPINESS_POND_X_HI + slot < ram.len()
    &&& HAPPINESS_POND_Z + slot < ram.len()
    &&& HAPPINESS_POND_Y_VEL + slot < ram.len()
    &&& HAPPINESS_POND_X_VEL + slot < ram.len()
    &&& HAPPINESS_POND_Z_VEL + slot < ram.len()
    &&& HAPPINESS_POND_Y_SUBPIXEL + slot < ram.len()
    &&& HAPPINESS_POND_X_SUBPIXEL + slot < ram.len()
    &&& HAPPINESS_POND_Z_SUBPIXEL + slot < ram.len()
    &&& HAPPINESS_POND_ITEM_TO_LINK + slot < ram.len()
    &&& HAPPINESS_POND_TIMER + slot < ram.len()
    &&& HAPPINESS_POND_STEP + slot < ram.len()
}

/// The record of rupee `slot` as a snapshot reads it: the timer one tick
/// further down, not below zero; a field past the end of RAM reads 0.
pub open spec fn pond_rupee_at(ram: Seq<u8>, slot: int) -> HappinessPondRupeeState {
    HappinessPondRupeeState {
        y_low: access::byte_at(ram, HAPPINESS_POND_Y_LO + slot),
        y_high: access::byte_at(ram, HAPPINESS_POND_Y_HI + slot),
        x_low: access::byte_at(ram, HAPPINESS_POND_X_LO + slot),
        x_high: access::byte_at(ram, HAPPINESS_POND_X_HI + slot),
        z: access::byte_at(ram, HAPPINESS_POND_Z + slot),
        y_velocity: access::byte_at(ram, HAPPINESS_POND_Y_VEL + slot),
        x_velocity: access::byte_at(ram, HAPPINESS_POND_X_VEL + slot),
        z_velocity: access::byte_at(ram, HAPPINESS_POND_Z_VEL + slot),
        y_subpixel: access::byte_at(ram, HAPPINESS_POND_Y_SUBPIXEL + slot),
        x_subpixel: access::byte_at(ram, HAPPINESS_POND_X_SUBPIXEL + slot),
        z_subpixel: access::byte_at(ram, HAPPINESS_POND_Z_SUBPIXEL + slot),
        item_to_link: access::byte_at(ram, HAPPINESS_POND_ITEM_TO_LINK + slot),
        timer: access::byte_at(ram, HAPPINESS_POND_TIMER + slot).saturating_sub(1),
        step: access::byte_at(ram, HAPPINESS_POND_STEP + slot),
    }
}

/// `ram` with every field of rupee `slot` set from `state`.
pub open spec fn with_pond_rupee(ram: Seq<u8>, slot: int, state: HappinessPondRupeeState) -> Seq<u8> {
    ram
        .update(HAPPINESS_POND_Y_LO + slot, state.y_low)
        .update(HAPPINESS_POND_Y_HI + slot, state.y_high)
        .update(HAPPINESS_POND_X_LO + slot, state.x_low)
        .update(HAPPINESS_POND_X_HI + slot, state.x_high)
        .update(HAPPINESS_POND_Z + slot, state.z)
        .update(HAPPINESS_POND_Y_VEL + slot, state.y_velocity)
        .update(HAPPINESS_POND_X_VEL + slot, state.x_velocity)
        .update(HAPPINESS_POND_Z_VEL + slot, state.z_velocity)
        .update(HAPPINESS_POND_Y_SUBPIXEL + slot, state.y_subpixel)
        .update(HAPPINESS_POND_X_SUBPIXEL + slot, state.x_subpixel)
        .update(HAPPINESS_POND_Z_SUBPIXEL + slot, state.z_subpixel)
        .update(HAPPINESS_POND_ITEM_TO_LINK + slot, state.item_to_link)
        .update(HAPPINESS_POND_TIMER + slot, state.timer)
        .update(HAPPINESS_POND_STEP + slot, state.step)
}

/// `ram` after rupee `slot` is set up: active, at position `x`, `y` on the
/// ground, with the given velocities, its timer at 16 and its item 53.
pub open spec fn with_new_pond_rupee(
    ram: Seq<u8>,
    slot: int,
    x: u16,
    y: u16,
    x_velocity: u8,
    y_velocity: u8,
    z_velocity: u8,
) -> Seq<u8> {
    ram
        .update(HAPPINESS_POND_ACTIVE + slot, 1u8)
        .update(HAPPINESS_POND_Z_VEL + slot, z_velocity)
        .update(HAPPINESS_POND_Y_VEL + slot, y_velocity)
        .update(HAPPINESS_POND_X_VEL + slot, x_velocity)
        .update(HAPPINESS_POND_Z + slot, 0u8)
        .update(HAPPINESS_POND_STEP + slot, 0u8)
        .update(HAPPINESS_POND_TIMER + slot, 16u8)
        .update(HAPPINESS_POND_ITEM_TO_LINK + slot, 53u8)
        .update(HAPPINESS_POND_X_LO + slot, types::low_byte(x))
        .update(HAPPINESS_POND_X_HI + slot, types::high_byte(x))
        .update(HAPPINESS_POND_Y_LO + slot, types::low_byte(y))
        .update(HAPPINESS_POND_Y_HI + slot, types::high_byte(y))
}

pub struct HappinessPondRupeeState {
    pub y_low: u8,
    pub y_high: u8,
    pub x_low: u8,
    pub x_high: u8,
    pub z: u8,
    pub y_velocity: u8,
    pub x_velocity: u8,
    pub z_velocity: u8,
    pub y_subpixel: u8,
    pub x_subpixel: u8,
    pub z_subpixel: u8,
    pub item_to_link: u8,
    pub timer: u8,
    pub step: u8,
}

pub struct HappinessPondRupeeView<'a> {
    ram: &'a [u8],
    slot: usize,
}

impl<'a> HappinessPondRupeeView<'a> {
    /// The bytes of RAM this view reads and writes.
    pub closed spec fn ram(&self) -> Seq<u8> {
        self.ram@
    }

    /// The slot whose fields this view addresses.
    pub closed spec fn slot_index(&self) -> usize {
        self.slot
    }

    pub fn new(ram: &'a [u8], slot: usize) -> (view: Self)
        ensures
            view.ram() == ram@,
            view.slot_index() == slot,
    {
        Self { ram, slot }
    }

    pub fn is_active(&self) -> (result: bool)
        requires
            HAPPINESS_POND_ACTIVE + self.slot_index() <= usize::MAX,
        ensures
            result == (access::byte_at(self.ram(), HAPPINESS_POND_ACTIVE + self.slot_index()) != 0),
    {
        byte(self.ram, HAPPINESS_POND_ACTIVE + self.slot) != 0
    }

    pub fn step(&self) -> (result: u8)
        requires
            HAPPINESS_POND_STEP + self.slot_index() <= usize::MAX,
        ensures
            result == access::byte_at(self.ram(), HAPPINESS_POND_STEP + self.slot_index()),
    {
        byte(self.ram, HAPPINESS_POND_STEP + self.slot)
    }

    pub fn snapshot(&self) -> (result: HappinessPondRupeeState)
        requires
            HAPPINESS_POND_Y_LO + self.slot_index() <= usize::MAX,
            HAPPINESS_POND_Y_HI + self.slot_index() <= usize::MAX,
            HAPPINESS_POND_X_LO + self.slot_index() <= usize::MAX,
            HAPPINESS_POND_X_HI + self.slot_index() <= usize::MAX,
            HAPPINESS_POND_Z + self.slot_index() <= usize::MAX,
            HAPPINESS_POND_Y_VEL + self.slot_index() <= usize::MAX,
            HAPPINESS_POND_X_VEL + self.slot_index() <= usize::MAX,
            HAPPINESS_POND_Z_VEL + self.slot_index() <= usize::MAX,
            HAPPINESS_POND_Y_SUBPIXEL + self.slot_index() <= usize::MAX,
            HAPPINESS_POND_X_SUBPIXEL + self.slot_index() <= usize::MAX,
            HAPPINESS_POND_Z_SUBPIXEL + self.slot_index() <= usize::MAX,
            HAPPINESS_POND_ITEM_TO_LINK + self.slot_index() <= usize::MAX,
            HAPPINESS_POND_TIMER + self.slot_index() <= usize::MAX,
            HAPPINESS_POND_STEP + self.slot_index() <= usize::MAX,
        ensures
            result == pond_rupee_at(self.ram(), self.slot_index() as int),
    {
        HappinessPondRupeeState {
            y_low: byte(self.ram, HAPPINESS_POND_Y_LO + self.slot),
            y_high: byte(self.ram, HAPPINESS_POND_Y_HI + self.slot),
            x_low: byte(self.ram, HAPPINESS_POND_X_LO + self.slot),
            x_high: byte(self.ram, HAPPINESS_POND_X_HI + self.slot),
            z: byte(self.ram, HAPPINESS_POND_Z + self.slot),
            y_velocity: byte(self.ram, HAPPINESS_POND_Y_VEL + self.slot),
            x_velocity: byte(self.ram, HAPPINESS_POND_X_VEL + self.slot),
            z_velocity: byte(self.ram, HAPPINESS_POND_Z_VEL + self.slot),
            y_subpixel: byte(self.ram, HAPPINESS_POND_Y_SUBPIXEL + self.slot),
            x_subpixel: byte(self.ram, HAPPINESS_POND_X_SUBPIXEL + self.slot),
            z_subpixel: byte(self.ram, HAPPINESS_POND_Z_SUBPIXEL + self.slot),
            item_to_link: byte(self.ram, HAPPINESS_POND_ITEM_TO_LINK + self.slot),
            timer: byte(self.ram, HAPPINESS_POND_TIMER + self.slot).saturating_sub(1),
            step: byte(self.ram, HAPPINESS_POND_STEP + self.slot),
        }
    }
}

pub struct HappinessPondRupeeViewMut<'a> {
    pub ram: &'a mut [u8],
    pub slot: usize,
}

impl<'a> HappinessPondRupeeViewMut<'a> {
    /// The bytes of RAM this view reads and writes.
    pub open spec fn ram(&self) -> Seq<u8> {
        self.ram@
    }

    /// The slot whose fields this view addresses.
    pub open spec fn slot_index(&self) -> usize {
        self.slot
    }

    pub fn new(ram: &'a mut [u8], slot: usize) -> (view: Self)
        ensures
            view.ram() == old(ram)@,
            view.slot_index() == slot,
            final(view.ram)@ == final(ram)@,
    {
        Self { ram, slot }
    }

    pub fn set_active(&mut self, active: bool)
        requires
            HAPPINESS_POND_ACTIVE + old(self).slot_index() < old(self).ram().len(),
        ensures
            final(self).ram() == old(self).ram().update(
                HAPPINESS_POND_ACTIVE + old(self).slot_index(),
                if active { 1u8 } else { 0u8 },
            ),
            final(self).slot_index() == old(self).slot_index(),
            final(final(self).ram)@ == final(old(self).ram)@,
    {
        proof {
            assert(self.ram@.len() == self.ram.len());
        }
        self.ram[HAPPINESS_POND_ACTIVE + self.slot] = if active { 1 } else { 0 };
    }

    pub fn clear(&mut self)
        requires
            HAPPINESS_POND_ACTIVE + old(self).slot_index() < old(self).ram().len(),
        ensures
            final(self).ram() == old(self).ram().update(
                HAPPINESS_POND_ACTIVE + old(self).slot_index(),
                0u8,
            ),
            final(self).slot_index() == old(self).slot_index(),
            final(final(self).ram)@ == final(old(self).ram)@,
    {
        proof {
            assert(self.ram@.len() == self.ram.len());
        }
        self.ram[HAPPINESS_POND_ACTIVE + self.slot] = 0;
    }

    pub fn initialize(&mut self, x: u16, y: u16, x_velocity: u8, y_velocity: u8, z_velocity: u8)
        requires
            HAPPINESS_POND_ACTIVE + old(self).slot_index() < old(self).ram().len(),
            HAPPINESS_POND_Z_VEL + old(self).slot_index() < old(self).ram().len(),
            HAPPINESS_POND_Y_VEL + old(self).slot_index() < old(self).ram().len(),
            HAPPINESS_POND_X_VEL + old(self).slot_index() < old(self).ram().len(),
            HAPPINESS_POND_Z + old(self).slot_index() < old(self).ram().len(),
            HAPPINESS_POND_STEP + old(self).slot_index() < old(self).ram().len(),
            HAPPINESS_POND_TIMER + old(self).slot_index() < old(self).ram().len(),
            HAPPINESS_POND_ITEM_TO_LINK + old(self).slot_index() < old(self).ram().len(),
            HAPPINESS_POND_X_LO + old(self).slot_index() < old(self).ram().len(),
            HAPPINESS_POND_X_HI + old(self).slot_index() < old(self).ram().len(),
            HAPPINESS_POND_Y_LO + old(self).slot_index() < old(self).ram().len(),
            HAPPINESS_POND_Y_HI + old(self).slot_index() < old(self).ram().len(),
        ensures
            final(self).ram() == with_new_pond_rupee(
                old(self).ram(),
                old(self).slot_index() as int,
                x,
                y,
                x_velocity,
                y_velocity,
                z_velocity,
            ),
            final(self).slot_index() == old(self).slot_index(),
            final(final(self).ram)@ == final(old(self).ram)@,
    {
        proof {
            assert(self.ram@.len() == self.ram.len());
            types::lemma_split_bits(x);
            types::lemma_split_bits(y);
        }
        self.set_active(true);
        self.ram[HAPPINESS_POND_Z_VEL + self.slot] = z_velocity;
        self.ram[HAPPINESS_POND_Y_VEL + self.slot] = y_velocity;
        self.ram[HAPPINESS_POND_X_VEL + self.slot] = x_velocity;
        self.ram[HAPPINESS_POND_Z + self.slot] = 0;
        self.ram[HAPPINESS_POND_STEP + self.slot] = 0;
        self.ram[HAPPINESS_POND_TIMER + self.slot] = 16;
        self.ram[HAPPINESS_POND_ITEM_TO_LINK + self.slot] = 53;
        self.ram[HAPPINESS_POND_X_LO + self.slot] = x as u8;
        self.ram[HAPPINESS_POND_X_HI + self.slot] = (x >> 8) as u8;
        self.ram[HAPPINESS_POND_Y_LO + self.slot] = y as u8;
        self.ram[HAPPINESS_POND_Y_HI + self.slot] = (y >> 8) as u8;
    }

    pub fn store_snapshot(&mut self, state: HappinessPondRupeeState)
        requires
            pond_rupee_fits(old(self).ram(), old(self).slot_index() as int),
        ensures
            final(self).ram() == with_pond_rupee(old(self).ram(), old(self).slot_index() as int, state),
            final(self).slot_index() == old(self).slot_index(),
            final(final(self).ram)@ == final(old(self).ram)@,
    {
        proof {
            assert(self.ram@.len() == self.ram.len());
        }
        self.ram[HAPPINESS_POND_Y_LO + self.slot] = state.y_low;
        self.ram[HAPPINESS_POND_Y_HI + self.slot] = state.y_high;
        self.ram[HAPPINESS_POND_X_LO + self.slot] = state.x_low;
        self.ram[HAPPINESS_POND_X_HI + self.slot] = state.x_high;
        self.ram[HAPPINESS_POND_Z + self.slot] = state.z;
        self.ram[HAPPINESS_POND_Y_VEL + self.slot] = state.y_velocity;
        self.ram[HAPPINESS_POND_X_VEL + self.slot] = state.x_velocity;
        self.ram[HAPPINESS_POND_Z_VEL + self.slot] = state.z_velocity;
        self.ram[HAPPINESS_POND_Y_SUBPIXEL + self.slot] = state.y_subpixel;
        self.ram[HAPPINESS_POND_X_SUBPIXEL + self.slot] = state.x_subpixel;
        self.ram[HAPPINESS_POND_Z_SUBPIXEL + self.slot] = state.z_subpixel;
        self.ram[HAPPINESS_POND_ITEM_TO_LINK + self.slot] = state.item_to_link;
        self.ram[HAPPINESS_POND_TIMER + self.slot] = state.timer;
        self.ram[HAPPINESS_POND_STEP + self.slot] = state.step;
    }
}

} // verus!
