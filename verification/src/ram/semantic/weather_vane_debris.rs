use vstd::prelude::*;
use super::access;
use super::access::{byte, packed_position};
use super::addresses::{
    ANCILLA_ITEM_TO_LINK, ANCILLA_X_HI, ANCILLA_X_LO, ANCILLA_X_VELOCITY, ANCILLA_Y_HI,
    ANCILLA_Y_LO, ANCILLA_Y_VELOCITY, ANCILLA_Z, ANCILLA_Z_VELOCITY, WEATHERVANE_ANIM_TIMER,
    WEATHERVANE_DRAW_STATE, WEATHERVANE_X_HI, WEATHERVANE_X_LO, WEATHERVANE_X_VELOCITY,
    WEATHERVANE_Y_HI, WEATHERVANE_Y_LO, WEATHERVANE_Y_VELOCITY, WEATHERVANE_Z,
    WEATHERVANE_Z_VELOCITY,
};
use crate::types;
use super::ancilla_slot::AncillaSlotViewMut;

verus! {

/// Whether every field of debris `slot` lies inside RAM.
pub open spec fn debris_fits(ram: Seq<u8>, slot: int) -> bool {
    &&& 0 <= slot
    &&& WEATHERVANE_Y_VELOCITY + slot < ram.len()
    &&& WEATHERVANE_X_VELOCITY + slot < ram.len()
    &&& WEATHERVANE_Z_VELOCITY + slot < ram.len()
    &&& WEATHERVANE_Y_LO + slot < ram.len()
    &&& WEATHERVANE_Y_HI + slot < ram.len()
    &&& WEATHERVANE_X_LO + slot < ram.len()
    &&& WEATHERVANE_X_HI + slot < ram.len()
    &&& WEATHERVANE_Z + slot < ram.len()
    &&& WEATHERVANE_ANIM_TIMER + slot < ram.len()
    &&& WEATHERVANE_DRAW_STATE + slot < ram.len()
}

/// The record of debris `slot` as a snapshot reads it; a field past the end
/// of RAM reads 0.
pub open spec fn debris_at(ram: Seq<u8>, slot: int) -> WeatherVaneDebrisState {
    WeatherVaneDebrisState {
        y: types::le_word(
            access::byte_at(ram, WEATHERVANE_Y_LO + slot),
            access::byte_at(ram, WEATHERVANE_Y_HI + slot),
        ),
        x: types::le_word(
            access::byte_at(ram, WEATHERVANE_X_LO + slot),
            access::byte_at(ram, WEATHERVANE_X_HI + slot),
        ),
        z: access::byte_at(ram, WEATHERVANE_Z + slot),
        y_velocity: access::byte_at(ram, WEATHERVANE_Y_VELOCITY + slot),
        x_velocity: access::byte_at(ram, WEATHERVANE_X_VELOCITY + slot),
        z_velocity: access::byte_at(ram, WEATHERVANE_Z_VELOCITY + slot),
        draw_state: access::byte_at(ram, WEATHERVANE_DRAW_STATE + slot),
    }
}

/// `ram` after debris `slot` is set up at a position with velocities, its
/// animation timer at 1.
pub open spec fn with_new_debris(
    ram: Seq<u8>,
    slot: int,
    x: u16,
    y: u16,
    x_velocity: u8,
    y_velocity: u8,
    z_velocity: u8,
    z: u8,
    draw_state: u8,
) -> Seq<u8> {
    ram
        .update(WEATHERVANE_Y_VELOCITY + slot, y_velocity)
        .update(WEATHERVANE_X_VELOCITY + slot, x_velocity)
        .update(WEATHERVANE_Z_VELOCITY + slot, z_velocity)
        .update(WEATHERVANE_Y_LO + slot, types::low_byte(y))
        .update(WEATHERVANE_Y_HI + slot, types::high_byte(y))
        .update(WEATHERVANE_X_LO + slot, types::low_byte(x))
        .update(WEATHERVANE_X_HI + slot, types::high_byte(x))
        .update(WEATHERVANE_Z + slot, z)
        .update(WEATHERVANE_ANIM_TIMER + slot, 1u8)
        .update(WEATHERVANE_DRAW_STATE + slot, draw_state)
}

/// `ram` after debris `slot` is moved to `x`, `y` at height `z`.
pub open spec fn with_debris_position(ram: Seq<u8>, slot: int, x: u16, y: u16, z: u8) -> Seq<u8> {
    ram
        .update(WEATHERVANE_Y_LO + slot, types::low_byte(y))
        .update(WEATHERVANE_Y_HI + slot, types::high_byte(y))
        .update(WEATHERVANE_X_LO + slot, types::low_byte(x))
        .update(WEATHERVANE_X_HI + slot, types::high_byte(x))
        .update(WEATHERVANE_Z + slot, z)
}

pub struct WeatherVaneDebrisState {
    pub y: u16,
    pub x: u16,
    pub z: u8,
    pub y_velocity: u8,
    pub x_velocity: u8,
    pub z_velocity: u8,
    pub draw_state: u8,
}

pub struct WeatherVaneDebrisView<'a> {
    ram: &'a [u8],
    slot: usize,
}

impl<'a> WeatherVaneDebrisView<'a> {
    /// The bytes of RAM this view reads and writes.
    pub closed spec fn ram(&self) -> Seq<u8> {
        self.ram@
    }

    /// The slot whose fields this view addresses.
    pub closed spec fn slot_index(&self) -> usize {
        self.slot
    }

    pub fn new(ram: &'a [u8], slot: usize) -> (view: Self)
        ensures
            view.ram() == ram@,
            view.slot_index() == slot,
    {
        Self { ram, slot }
    }

    pub fn is_finished(&self) -> (result: bool)
        requires
            WEATHERVANE_DRAW_STATE + self.slot_index() <= usize::MAX,
        ensures
            result == (access::byte_at(self.ram(), WEATHERVANE_DRAW_STATE + self.slot_index())
                 == 0xff),
    {
        byte(self.ram, WEATHERVANE_DRAW_STATE + self.slot) == 0xff
    }

    pub fn snapshot(&self) -> (result: WeatherVaneDebrisState)
        requires
            WEATHERVANE_Y_LO + self.slot_index() <= usize::MAX,
            WEATHERVANE_Y_HI + self.slot_index() <= usize::MAX,
            WEATHERVANE_X_LO + self.slot_index() <= usize::MAX,
            WEATHERVANE_X_HI + self.slot_index() <= usize::MAX,
            WEATHERVANE_Z + self.slot_index() <= usize::MAX,
            WEATHERVANE_Y_VELOCITY + self.slot_index() <= usize::MAX,
            WEATHERVANE_X_VELOCITY + self.slot_index() <= usize::MAX,
            WEATHERVANE_Z_VELOCITY + self.slot_index() <= usize::MAX,
            WEATHERVANE_DRAW_STATE + self.slot_index() <= usize::MAX,
        ensures
            result == debris_at(self.ram(), self.slot_index() as int),
    {
        WeatherVaneDebrisState {
            y: packed_position(self.ram, WEATHERVANE_Y_LO + self.slot, WEATHERVANE_Y_HI + self.slot),
            x: packed_position(self.ram, WEATHERVANE_X_LO + self.slot, WEATHERVANE_X_HI + self.slot),
            z: byte(self.ram, WEATHERVANE_Z + self.slot),
            y_velocity: byte(self.ram, WEATHERVANE_Y_VELOCITY + self.slot),
            x_velocity: byte(self.ram, WEATHERVANE_X_VELOCITY + self.slot),
            z_velocity: byte(self.ram, WEATHERVANE_Z_VELOCITY + self.slot),
            draw_state: byte(self.ram, WEATHERVANE_DRAW_STATE + self.slot),
        }
    }
}

pub struct WeatherVaneDebrisViewMut<'a> {
    pub ram: &'a mut [u8],
    pub slot: usize,
}

impl<'a> WeatherVaneDebrisViewMut<'a> {
    /// The bytes of RAM this view reads and writes.
    pub open spec fn ram(&self) -> Seq<u8> {
        self.ram@
    }

    /// The slot whose fields this view addresses.
    pub open spec fn slot_index(&self) -> usize {
        self.slot
    }

    pub fn new(ram: &'a mut [u8], slot: usize) -> (view: Self)
        ensures
            view.ram() == old(ram)@,
            view.slot_index() == slot,
            final(view.ram)@ == final(ram)@,
    {
        Self { ram, slot }
    }

    pub fn initialize(
        &mut self,
        x: u16,
        y: u16,
        x_velocity: u8,
        y_velocity: u8,
        z_velocity: u8,
        z: u8,
        draw_state: u8,
    )
        requires
            debris_fits(old(self).ram(), old(self).slot_index() as int),
        ensures
            final(self).ram() == with_new_debris(
                old(self).ram(),
                old(self).slot_index() as int,
                x,
                y,
                x_velocity,
                y_velocity,
                z_velocity,
                z,
                draw_state,
            ),
            final(self).slot_index() == old(self).slot_index(),
            final(final(self).ram)@ == final(old(self).ram)@,
    {
        proof {
            assert(self.ram@.len() == self.ram.len());
            types::lemma_split_bits(x);
            types::lemma_split_bits(y);
        }
        self.ram[WEATHERVANE_Y_VELOCITY + self.slot] = y_velocity;
        self.ram[WEATHERVANE_X_VELOCITY + self.slot] = x_velocity;
        self.ram[WEATHERVANE_Z_VELOCITY + self.slot] = z_velocity;
        self.ram[WEATHERVANE_Y_LO + self.slot] = y as u8;
        self.ram[WEATHERVANE_Y_HI + self.slot] = (y >> 8) as u8;
        self.ram[WEATHERVANE_X_LO + self.slot] = x as u8;
        self.ram[WEATHERVANE_X_HI + self.slot] = (x >> 8) as u8;
        self.ram[WEATHERVANE_Z + self.slot] = z;
        self.ram[WEATHERVANE_ANIM_TIMER + self.slot] = 1;
        self.ram[WEATHERVANE_DRAW_STATE + self.slot] = draw_state;
    }

    pub fn tick_animation(&mut self) -> (result: u8)
        requires
            WEATHERVANE_ANIM_TIMER + old(self).slot_index() < old(self).ram().len(),
            (old(self).ram()[WEATHERVANE_ANIM_TIMER + old(self).slot_index()].wrapping_sub(1) as i8) < 0
                ==> WEATHERVANE_DRAW_STATE + old(self).slot_index() < old(self).ram().len(),
            (old(self).ram()[WEATHERVANE_ANIM_TIMER + old(self).slot_index()].wrapping_sub(1) as i8) >= 0
                ==> WEATHERVANE_DRAW_STATE + old(self).slot_index() < old(self).ram().len(),
        ensures
            result == (if (old(self).ram()[WEATHERVANE_ANIM_TIMER + old(self).slot_index()].wrapping_sub(1) as i8) < 0 {
                old(self).ram()[WEATHERVANE_DRAW_STATE + old(self).slot_index()] ^ 1
            } else {
                old(self).ram()[WEATHERVANE_DRAW_STATE + old(self).slot_index()]
            }),
            final(self).ram() == (if (old(self).ram()[WEATHERVANE_ANIM_TIMER + old(self).slot_index()].wrapping_sub(1) as i8) < 0 {
                old(self).ram()
                    .update(
                        WEATHERVANE_ANIM_TIMER + old(self).slot_index(),
                        old(self).ram()[WEATHERVANE_ANIM_TIMER + old(self).slot_index()].wrapping_sub(1),
                    )
                    .update(WEATHERVANE_ANIM_TIMER + old(self).slot_index(), 1u8)
                    .update(
                        WEATHERVANE_DRAW_STATE + old(self).slot_index(),
                        old(self).ram()[WEATHERVANE_DRAW_STATE + old(self).slot_index()] ^ 1,
                    )
            } else {
                old(self).ram()
                    .update(
                        WEATHERVANE_ANIM_TIMER + old(self).slot_index(),
                        old(self).ram()[WEATHERVANE_ANIM_TIMER + old(self).slot_index()].wrapping_sub(1),
                    )
            }),
            final(self).slot_index() == old(self).slot_index(),
            final(final(self).ram)@ == final(old(self).ram)@,
    {
        proof {
            assert(self.ram@.len() == self.ram.len());
        }
        let timer = self.ram[WEATHERVANE_ANIM_TIMER + self.slot].wrapping_sub(1);
        self.ram[WEATHERVANE_ANIM_TIMER + self.slot] = timer;
        if (timer as i8) < 0 {
            self.ram[WEATHERVANE_ANIM_TIMER + self.slot] = 1;
            self.ram[WEATHERVANE_DRAW_STATE + self.slot] ^= 1;
        }
        self.ram[WEATHERVANE_DRAW_STATE + self.slot]
    }

    pub fn tick_z_velocity(&mut self) -> (result: u8)
        requires
            WEATHERVANE_Z_VELOCITY + old(self).slot_index() < old(self).ram().len(),
        ensures
            result == old(self).ram()[WEATHERVANE_Z_VELOCITY + old(self).slot_index()].wrapping_sub(1),
            final(self).ram() == old(self).ram().update(
                WEATHERVANE_Z_VELOCITY + old(self).slot_index(),
                old(self).ram()[WEATHERVANE_Z_VELOCITY + old(self).slot_index()].wrapping_sub(1),
            ),
            final(self).slot_index() == old(self).slot_index(),
            final(final(self).ram)@ == final(old(self).ram)@,
    {
        proof {
            assert(self.ram@.len() == self.ram.len());
        }
        let z_velocity = self.ram[WEATHERVANE_Z_VELOCITY + self.slot].wrapping_sub(1);
        self.ram[WEATHERVANE_Z_VELOCITY + self.slot] = z_velocity;
        z_velocity
    }

    pub fn load_into_ancilla(&self, ancilla: &mut AncillaSlotViewMut<'_>)
        requires
            WEATHERVANE_Y_LO + self.slot_index() <= usize::MAX,
            WEATHERVANE_Y_HI + self.slot_index() <= usize::MAX,
            WEATHERVANE_X_LO + self.slot_index() <= usize::MAX,
            WEATHERVANE_X_HI + self.slot_index() <= usize::MAX,
            WEATHERVANE_DRAW_STATE + self.slot_index() <= usize::MAX,
            WEATHERVANE_Z + self.slot_index() <= usize::MAX,
            WEATHERVANE_Y_VELOCITY + self.slot_index() <= usize::MAX,
            WEATHERVANE_X_VELOCITY + self.slot_index() <= usize::MAX,
            WEATHERVANE_Z_VELOCITY + self.slot_index() <= usize::MAX,
            ANCILLA_ITEM_TO_LINK + old(ancilla).slot_index() < old(ancilla).ram().len(),
            ANCILLA_Y_LO + old(ancilla).slot_index() < old(ancilla).ram().len(),
            ANCILLA_Y_HI + old(ancilla).slot_index() < old(ancilla).ram().len(),
            ANCILLA_X_LO + old(ancilla).slot_index() < old(ancilla).ram().len(),
            ANCILLA_X_HI + old(ancilla).slot_index() < old(ancilla).ram().len(),
            ANCILLA_Z + old(ancilla).slot_index() < old(ancilla).ram().len(),
            ANCILLA_Y_VELOCITY + old(ancilla).slot_index() < old(ancilla).ram().len(),
            ANCILLA_X_VELOCITY + old(ancilla).slot_index() < old(ancilla).ram().len(),
            ANCILLA_Z_VELOCITY + old(ancilla).slot_index() < old(ancilla).ram().len(),
        ensures
            final(ancilla).ram() == old(ancilla).ram()
                .update(
                    ANCILLA_ITEM_TO_LINK + old(ancilla).slot_index(),
                    access::byte_at(self.ram(), WEATHERVANE_DRAW_STATE + self.slot_index()),
                )
                .update(
                    ANCILLA_Y_LO + old(ancilla).slot_index(),
                    types::low_byte(
                        types::le_word(
                            access::byte_at(self.ram(), WEATHERVANE_Y_LO + self.slot_index()),
                            access::byte_at(self.ram(), WEATHERVANE_Y_HI + self.slot_index()),
                        ),
                    ),
                )
                .update(
                    ANCILLA_Y_HI + old(ancilla).slot_index(),
                    types::high_byte(
                        types::le_word(
                            access::byte_at(self.ram(), WEATHERVANE_Y_LO + self.slot_index()),
                            access::byte_at(self.ram(), WEATHERVANE_Y_HI + self.slot_index()),
                        ),
                    ),
                )
                .update(
                    ANCILLA_X_LO + old(ancilla).slot_index(),
                    types::low_byte(
                        types::le_word(
                            access::byte_at(self.ram(), WEATHERVANE_X_LO + self.slot_index()),
                            access::byte_at(self.ram(), WEATHERVANE_X_HI + self.slot_index()),
                        ),
                    ),
                )
                .update(
                    ANCILLA_X_HI + old(ancilla).slot_index(),
                    types::high_byte(
                        types::le_word(
                            access::byte_at(self.ram(), WEATHERVANE_X_LO + self.slot_index()),
                            access::byte_at(self.ram(), WEATHERVANE_X_HI + self.slot_index()),
                        ),
                    ),
                )
                .update(
                    ANCILLA_Z + old(ancilla).slot_index(),
                    access::byte_at(self.ram(), WEATHERVANE_Z + self.slot_index()),
                )
                .update(
                    ANCILLA_Y_VELOCITY + old(ancilla).slot_index(),
                    access::byte_at(self.ram(), WEATHERVANE_Y_VELOCITY + self.slot_index()),
                )
                .update(
                    ANCILLA_X_VELOCITY + old(ancilla).slot_index(),
                    access::byte_at(self.ram(), WEATHERVANE_X_VELOCITY + self.slot_index()),
                )
                .update(
                    ANCILLA_Z_VELOCITY + old(ancilla).slot_index(),
                    access::byte_at(self.ram(), WEATHERVANE_Z_VELOCITY + self.slot_index()),
                ),
            final(ancilla).slot_index() == old(ancilla).slot_index(),
            final(final(ancilla).ram)@ == final(old(ancilla).ram)@,
    {
        let y = packed_position(self.ram, WEATHERVANE_Y_LO + self.slot, WEATHERVANE_Y_HI + self.slot);
        let x = packed_position(self.ram, WEATHERVANE_X_LO + self.slot, WEATHERVANE_X_HI + self.slot);
        ancilla.set_item_to_link(byte(self.ram, WEATHERVANE_DRAW_STATE + self.slot));
        ancilla.set_y(y);
        ancilla.set_x(x);
        ancilla.set_z(byte(self.ram, WEATHERVANE_Z + self.slot));
        ancilla.set_y_velocity(byte(self.ram, WEATHERVANE_Y_VELOCITY + self.slot));
        ancilla.set_x_velocity(byte(self.ram, WEATHERVANE_X_VELOCITY + self.slot));
        ancilla.set_z_velocity(byte(self.ram, WEATHERVANE_Z_VELOCITY + self.slot));
    }

    pub fn mark_finished_if_landed(&mut self, z: u8)
        requires
            z >= 0xf0 ==> WEATHERVANE_DRAW_STATE + old(self).slot_index() < old(self).ram().len(),
        ensures
            final(self).ram() == (if z >= 0xf0 {
                old(self).ram()
                    .update(
                        WEATHERVANE_DRAW_STATE + old(self).slot_index(),
                        0xffu8,
                    )
            } else {
                old(self).ram()
            }),
            final(self).slot_index() == old(self).slot_index(),
            final(final(self).ram)@ == final(old(self).ram)@,
    {
        proof {
            assert(self.ram@.len() == self.ram.len());
        }
        if z >= 0xf0 {
            self.ram[WEATHERVANE_DRAW_STATE + self.slot] = 0xff;
        }
    }

    pub fn save_position(&mut self, x: u16, y: u16, z: u8)
        requires
            WEATHERVANE_Y_LO + old(self).slot_index() < old(self).ram().len(),
            WEATHERVANE_Y_HI + old(self).slot_index() < old(self).ram().len(),
            WEATHERVANE_X_LO + old(self).slot_index() < old(self).ram().len(),
            WEATHERVANE_X_HI + old(self).slot_index() < old(self).ram().len(),
            WEATHERVANE_Z + old(self).slot_index() < old(self).ram().len(),
        ensures
            final(self).ram() == with_debris_position(old(self).ram(), old(self).slot_index() as int, x, y, z),
            final(self).slot_index() == old(self).slot_index(),
            final(final(self).ram)@ == final(old(self).ram)@,
    {
        proof {
            assert(self.ram@.len() == self.ram.len());
            types::lemma_split_bits(x);
            types::lemma_split_bits(y);
        }
        self.ram[WEATHERVANE_Y_LO + self.slot] = y as u8;
        self.ram[WEATHERVANE_Y_HI + self.slot] = (y >> 8) as u8;
        self.ram[WEATHERVANE_X_LO + self.slot] = x as u8;
        self.ram[WEATHERVANE_X_HI + self.slot] = (x >> 8) as u8;
        self.ram[WEATHERVANE_Z + self.slot] = z;
    }
}

} // verus!
