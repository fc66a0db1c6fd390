use vstd::prelude::*;
use super::access;
use super::access::{byte};
use super::addresses::{
    ALT_SPRITE_A, ALT_SPRITE_B, ALT_SPRITE_C, ALT_SPRITE_D, ALT_SPRITE_DELAY_MAIN, ALT_SPRITE_E,
    ALT_SPRITE_FLAGS2, ALT_SPRITE_FLAGS3, ALT_SPRITE_FLOOR, ALT_SPRITE_GRAPHICS,
    ALT_SPRITE_HEAD_DIR, ALT_SPRITE_HEIGHT_ABOVE_SHADOW, ALT_SPRITE_I,
    ALT_SPRITE_IGNORE_PROJECTILE, ALT_SPRITE_OAM_FLAGS, ALT_SPRITE_OBJ_PRIO,
    ALT_SPRITE_SPAWNED_FLAG, ALT_SPRITE_STATE, ALT_SPRITE_SUBTYPE2, ALT_SPRITE_TYPE,
    ALT_SPRITE_X_HI, ALT_SPRITE_X_LO, ALT_SPRITE_Y_HI, ALT_SPRITE_Y_LO, SPRITE_A, SPRITE_AI_STATE,
    SPRITE_B, SPRITE_C, SPRITE_D, SPRITE_DELAY_MAIN, SPRITE_DRAW_I, SPRITE_E, SPRITE_FLAGS2,
    SPRITE_FLAGS3, SPRITE_FLOOR, SPRITE_GRAPHICS, SPRITE_HEAD_DIR, SPRITE_IGNORE_PROJECTILE,
    SPRITE_OAM_FLAGS, SPRITE_OBJ_PRIO, SPRITE_STATE, SPRITE_SUBTYPE2, SPRITE_TYPE, SPRITE_X_HI,
    SPRITE_X_LO, SPRITE_Y_HI, SPRITE_Y_LO, SPRITE_Z,
};

verus! {

/// Whether every live field of `slot`, and its cached copy, lies inside RAM.
pub open spec fn cache_fields_fit(ram: Seq<u8>, slot: int) -> bool {
    &&& 0 <= slot
    &&& SPRITE_STATE + slot < ram.len()
    &&& SPRITE_TYPE + slot < ram.len()
    &&& SPRITE_X_LO + slot < ram.len()
    &&& SPRITE_X_HI + slot < ram.len()
    &&& SPRITE_Y_LO + slot < ram.len()
    &&& SPRITE_Y_HI + slot < ram.len()
    &&& SPRITE_GRAPHICS + slot < ram.len()
    &&& SPRITE_A + slot < ram.len()
    &&& SPRITE_HEAD_DIR + slot < ram.len()
    &&& SPRITE_OAM_FLAGS + slot < ram.len()
    &&& SPRITE_OBJ_PRIO + slot < ram.len()
    &&& SPRITE_D + slot < ram.len()
    &&& SPRITE_FLAGS2 + slot < ram.len()
    &&& SPRITE_FLOOR + slot < ram.len()
    &&& SPRITE_AI_STATE + slot < ram.len()
    &&& SPRITE_FLAGS3 + slot < ram.len()
    &&& SPRITE_B + slot < ram.len()
    &&& SPRITE_C + slot < ram.len()
    &&& SPRITE_E + slot < ram.len()
    &&& SPRITE_SUBTYPE2 + slot < ram.len()
    &&& SPRITE_Z + slot < ram.len()
    &&& SPRITE_DELAY_MAIN + slot < ram.len()
    &&& SPRITE_DRAW_I + slot < ram.len()
    &&& SPRITE_IGNORE_PROJECTILE + slot < ram.len()
    &&& ALT_SPRITE_STATE + slot < ram.len()
    &&& ALT_SPRITE_TYPE + slot < ram.len()
    &&& ALT_SPRITE_X_LO + slot < ram.len()
    &&& ALT_SPRITE_X_HI + slot < ram.len()
    &&& ALT_SPRITE_Y_LO + slot < ram.len()
    &&& ALT_SPRITE_Y_HI + slot < ram.len()
    &&& ALT_SPRITE_GRAPHICS + slot < ram.len()
    &&& ALT_SPRITE_A + slot < ram.len()
    &&& ALT_SPRITE_HEAD_DIR + slot < ram.len()
    &&& ALT_SPRITE_OAM_FLAGS + slot < ram.len()
    &&& ALT_SPRITE_OBJ_PRIO + slot < ram.len()
    &&& ALT_SPRITE_D + slot < ram.len()
    &&& ALT_SPRITE_FLAGS2 + slot < ram.len()
    &&& ALT_SPRITE_FLOOR + slot < ram.len()
    &&& ALT_SPRITE_SPAWNED_FLAG + slot < ram.len()
    &&& ALT_SPRITE_FLAGS3 + slot < ram.len()
    &&& ALT_SPRITE_B + slot < ram.len()
    &&& ALT_SPRITE_C + slot < ram.len()
    &&& ALT_SPRITE_E + slot < ram.len()
    &&& ALT_SPRITE_SUBTYPE2 + slot < ram.len()
    &&& ALT_SPRITE_HEIGHT_ABOVE_SHADOW + slot < ram.len()
    &&& ALT_SPRITE_DELAY_MAIN + slot < ram.len()
    &&& ALT_SPRITE_I + slot < ram.len()
    &&& ALT_SPRITE_IGNORE_PROJECTILE + slot < ram.len()
}

/// The live fields of `slot`, in the order a backup keeps them.
pub open spec fn live_fields(ram: Seq<u8>, slot: int) -> Seq<u8> {
    seq![
        ram[SPRITE_STATE + slot],
        ram[SPRITE_TYPE + slot],
        ram[SPRITE_X_LO + slot],
        ram[SPRITE_X_HI + slot],
        ram[SPRITE_Y_LO + slot],
        ram[SPRITE_Y_HI + slot],
        ram[SPRITE_GRAPHICS + slot],
        ram[SPRITE_A + slot],
        ram[SPRITE_HEAD_DIR + slot],
        ram[SPRITE_OAM_FLAGS + slot],
        ram[SPRITE_OBJ_PRIO + slot],
        ram[SPRITE_D + slot],
        ram[SPRITE_FLAGS2 + slot],
        ram[SPRITE_FLOOR + slot],
        ram[SPRITE_AI_STATE + slot],
        ram[SPRITE_FLAGS3 + slot],
        ram[SPRITE_B + slot],
        ram[SPRITE_C + slot],
        ram[SPRITE_E + slot],
        ram[SPRITE_SUBTYPE2 + slot],
        ram[SPRITE_Z + slot],
        ram[SPRITE_DELAY_MAIN + slot],
        ram[SPRITE_DRAW_I + slot],
        ram[SPRITE_IGNORE_PROJECTILE + slot],
    ]
}

/// `ram` after each live field of `slot` takes the value of its cached copy.
pub open spec fn loaded_from_cache(ram: Seq<u8>, slot: int) -> Seq<u8> {
    ram
        .update(SPRITE_STATE + slot, ram[ALT_SPRITE_STATE + slot])
        .update(SPRITE_TYPE + slot, ram[ALT_SPRITE_TYPE + slot])
        .update(SPRITE_X_LO + slot, ram[ALT_SPRITE_X_LO + slot])
        .update(SPRITE_X_HI + slot, ram[ALT_SPRITE_X_HI + slot])
        .update(SPRITE_Y_LO + slot, ram[ALT_SPRITE_Y_LO + slot])
        .update(SPRITE_Y_HI + slot, ram[ALT_SPRITE_Y_HI + slot])
        .update(SPRITE_GRAPHICS + slot, ram[ALT_SPRITE_GRAPHICS + slot])
        .update(SPRITE_A + slot, ram[ALT_SPRITE_A + slot])
        .update(SPRITE_HEAD_DIR + slot, ram[ALT_SPRITE_HEAD_DIR + slot])
        .update(SPRITE_OAM_FLAGS + slot, ram[ALT_SPRITE_OAM_FLAGS + slot])
        .update(SPRITE_OBJ_PRIO + slot, ram[ALT_SPRITE_OBJ_PRIO + slot])
        .update(SPRITE_D + slot, ram[ALT_SPRITE_D + slot])
        .update(SPRITE_FLAGS2 + slot, ram[ALT_SPRITE_FLAGS2 + slot])
        .update(SPRITE_FLOOR + slot, ram[ALT_SPRITE_FLOOR + slot])
        .update(SPRITE_AI_STATE + slot, ram[ALT_SPRITE_SPAWNED_FLAG + slot])
        .update(SPRITE_FLAGS3 + slot, ram[ALT_SPRITE_FLAGS3 + slot])
        .update(SPRITE_B + slot, ram[ALT_SPRITE_B + slot])
        .update(SPRITE_C + slot, ram[ALT_SPRITE_C + slot])
        .update(SPRITE_E + slot, ram[ALT_SPRITE_E + slot])
        .update(SPRITE_SUBTYPE2 + slot, ram[ALT_SPRITE_SUBTYPE2 + slot])
        .update(SPRITE_Z + slot, ram[ALT_SPRITE_HEIGHT_ABOVE_SHADOW + slot])
        .update(SPRITE_DELAY_MAIN + slot, ram[ALT_SPRITE_DELAY_MAIN + slot])
        .update(SPRITE_DRAW_I + slot, ram[ALT_SPRITE_I + slot])
        .update(SPRITE_IGNORE_PROJECTILE + slot, ram[ALT_SPRITE_IGNORE_PROJECTILE + slot])
}

/// `ram` after the live fields of `slot` are set from `backup`, last field first.
pub open spec fn restored_from_backup(ram: Seq<u8>, slot: int, backup: Seq<u8>) -> Seq<u8> {
    ram
        .update(SPRITE_IGNORE_PROJECTILE + slot, backup[23])
        .update(SPRITE_DRAW_I + slot, backup[22])
        .update(SPRITE_DELAY_MAIN + slot, backup[21])
        .update(SPRITE_Z + slot, backup[20])
        .update(SPRITE_SUBTYPE2 + slot, backup[19])
        .update(SPRITE_E + slot, backup[18])
        .update(SPRITE_C + slot, backup[17])
        .update(SPRITE_B + slot, backup[16])
        .update(SPRITE_FLAGS3 + slot, backup[15])
        .update(SPRITE_AI_STATE + slot, backup[14])
        .update(SPRITE_FLOOR + slot, backup[13])
        .update(SPRITE_FLAGS2 + slot, backup[12])
        .update(SPRITE_D + slot, backup[11])
        .update(SPRITE_OBJ_PRIO + slot, backup[10])
        .update(SPRITE_OAM_FLAGS + slot, backup[9])
        .update(SPRITE_HEAD_DIR + slot, backup[8])
        .update(SPRITE_A + slot, backup[7])
        .update(SPRITE_GRAPHICS + slot, backup[6])
        .update(SPRITE_Y_HI + slot, backup[5])
        .update(SPRITE_Y_LO + slot, backup[4])
        .update(SPRITE_X_HI + slot, backup[3])
        .update(SPRITE_X_LO + slot, backup[2])
        .update(SPRITE_TYPE + slot, backup[1])
        .update(SPRITE_STATE + slot, backup[0])
}

/// `ram` after each cached field of `slot` takes the value of its live field.
pub open spec fn cached_from_live(ram: Seq<u8>, slot: int) -> Seq<u8> {
    ram
        .update(ALT_SPRITE_STATE + slot, ram[SPRITE_STATE + slot])
        .update(ALT_SPRITE_TYPE + slot, ram[SPRITE_TYPE + slot])
        .update(ALT_SPRITE_X_LO + slot, ram[SPRITE_X_LO + slot])
        .update(ALT_SPRITE_X_HI + slot, ram[SPRITE_X_HI + slot])
        .update(ALT_SPRITE_Y_LO + slot, ram[SPRITE_Y_LO + slot])
        .update(ALT_SPRITE_Y_HI + slot, ram[SPRITE_Y_HI + slot])
        .update(ALT_SPRITE_GRAPHICS + slot, ram[SPRITE_GRAPHICS + slot])
        .update(ALT_SPRITE_A + slot, ram[SPRITE_A + slot])
        .update(ALT_SPRITE_HEAD_DIR + slot, ram[SPRITE_HEAD_DIR + slot])
        .update(ALT_SPRITE_OAM_FLAGS + slot, ram[SPRITE_OAM_FLAGS + slot])
        .update(ALT_SPRITE_OBJ_PRIO + slot, ram[SPRITE_OBJ_PRIO + slot])
        .update(ALT_SPRITE_D + slot, ram[SPRITE_D + slot])
        .update(ALT_SPRITE_FLAGS2 + slot, ram[SPRITE_FLAGS2 + slot])
        .update(ALT_SPRITE_FLOOR + slot, ram[SPRITE_FLOOR + slot])
        .update(ALT_SPRITE_SPAWNED_FLAG + slot, ram[SPRITE_AI_STATE + slot])
        .update(ALT_SPRITE_FLAGS3 + slot, ram[SPRITE_FLAGS3 + slot])
        .update(ALT_SPRITE_B + slot, ram[SPRITE_B + slot])
        .update(ALT_SPRITE_C + slot, ram[SPRITE_C + slot])
        .update(ALT_SPRITE_E + slot, ram[SPRITE_E + slot])
        .update(ALT_SPRITE_SUBTYPE2 + slot, ram[SPRITE_SUBTYPE2 + slot])
        .update(ALT_SPRITE_HEIGHT_ABOVE_SHADOW + slot, ram[SPRITE_Z + slot])
        .update(ALT_SPRITE_DELAY_MAIN + slot, ram[SPRITE_DELAY_MAIN + slot])
        .update(ALT_SPRITE_I + slot, ram[SPRITE_DRAW_I + slot])
        .update(ALT_SPRITE_IGNORE_PROJECTILE + slot, ram[SPRITE_IGNORE_PROJECTILE + slot])
}

pub struct CachedSpriteSlotView<'a> {
    ram: &'a [u8],
    slot: usize,
}

impl<'a> CachedSpriteSlotView<'a> {
    /// The bytes of RAM this view reads and writes.
    pub closed spec fn ram(&self) -> Seq<u8> {
        self.ram@
    }

    /// The slot whose fields this view addresses.
    pub closed spec fn slot_index(&self) -> usize {
        self.slot
    }

    pub fn new(ram: &'a [u8], slot: usize) -> (view: Self)
        ensures
            view.ram() == ram@,
            view.slot_index() == slot,
    {
        Self { ram, slot }
    }

    pub fn state(&self) -> (result: u8)
        requires
            ALT_SPRITE_STATE + self.slot_index() <= usize::MAX,
        ensures
            result == access::byte_at(self.ram(), ALT_SPRITE_STATE + self.slot_index()),
    {
        byte(self.ram, ALT_SPRITE_STATE + self.slot)
    }

    pub fn is_active(&self) -> (result: bool)
        requires
            ALT_SPRITE_STATE + self.slot_index() <= usize::MAX,
        ensures
            result == (access::byte_at(self.ram(), ALT_SPRITE_STATE + self.slot_index()) != 0),
    {
        self.state() != 0
    }

    pub fn type_byte(&self) -> (result: u8)
        requires
            ALT_SPRITE_TYPE + self.slot_index() <= usize::MAX,
        ensures
            result == access::byte_at(self.ram(), ALT_SPRITE_TYPE + self.slot_index()),
    {
        byte(self.ram, ALT_SPRITE_TYPE + self.slot)
    }

    pub fn y_high(&self) -> (result: u8)
        requires
            ALT_SPRITE_Y_HI + self.slot_index() <= usize::MAX,
        ensures
            result == access::byte_at(self.ram(), ALT_SPRITE_Y_HI + self.slot_index()),
    {
        byte(self.ram, ALT_SPRITE_Y_HI + self.slot)
    }
}

pub struct CachedSpriteSlotViewMut<'a> {
    pub ram: &'a mut [u8],
    pub slot: usize,
}

impl<'a> CachedSpriteSlotViewMut<'a> {
    /// The bytes of RAM this view reads and writes.
    pub open spec fn ram(&self) -> Seq<u8> {
        self.ram@
    }

    /// The slot whose fields this view addresses.
    pub open spec fn slot_index(&self) -> usize {
        self.slot
    }

    pub fn new(ram: &'a mut [u8], slot: usize) -> (view: Self)
        ensures
            view.ram() == old(ram)@,
            view.slot_index() == slot,
            final(view.ram)@ == final(ram)@,
    {
        Self { ram, slot }
    }

    pub fn clear_state(&mut self)
        requires
            ALT_SPRITE_STATE + old(self).slot_index() < old(self).ram().len(),
        ensures
            final(self).ram() == old(self).ram().update(
                ALT_SPRITE_STATE + old(self).slot_index(),
                0u8,
            ),
            final(self).slot_index() == old(self).slot_index(),
            final(final(self).ram)@ == final(old(self).ram)@,
    {
        proof {
            assert(self.ram@.len() == self.ram.len());
        }
        self.ram[ALT_SPRITE_STATE + self.slot] = 0;
    }

    pub fn initialize_trinexx_component(&mut self)
        requires
            ALT_SPRITE_TYPE + old(self).slot_index() < old(self).ram().len(),
            ALT_SPRITE_X_HI + old(self).slot_index() < old(self).ram().len(),
            ALT_SPRITE_Y_HI + old(self).slot_index() < old(self).ram().len(),
        ensures
            final(self).ram() == old(self).ram()
                .update(ALT_SPRITE_TYPE + old(self).slot_index(), 0x40u8)
                .update(ALT_SPRITE_X_HI + old(self).slot_index(), 0u8)
                .update(ALT_SPRITE_Y_HI + old(self).slot_index(), 0u8),
            final(self).slot_index() == old(self).slot_index(),
            final(final(self).ram)@ == final(old(self).ram)@,
    {
        proof {
            assert(self.ram@.len() == self.ram.len());
        }
        self.ram[ALT_SPRITE_TYPE + self.slot] = 0x40;
        self.ram[ALT_SPRITE_X_HI + self.slot] = 0;
        self.ram[ALT_SPRITE_Y_HI + self.slot] = 0;
    }

    pub fn set_type_byte(&mut self, value: u8)
        requires
            ALT_SPRITE_TYPE + old(self).slot_index() < old(self).ram().len(),
        ensures
            final(self).ram() == old(self).ram().update(
                ALT_SPRITE_TYPE + old(self).slot_index(),
                value,
            ),
            final(self).slot_index() == old(self).slot_index(),
            final(final(self).ram)@ == final(old(self).ram)@,
    {
        proof {
            assert(self.ram@.len() == self.ram.len());
        }
        self.ram[ALT_SPRITE_TYPE + self.slot] = value;
    }

    pub fn set_y_high(&mut self, value: u8)
        requires
            ALT_SPRITE_Y_HI + old(self).slot_index() < old(self).ram().len(),
        ensures
            final(self).ram() == old(self).ram().update(
                ALT_SPRITE_Y_HI + old(self).slot_index(),
                value,
            ),
            final(self).slot_index() == old(self).slot_index(),
            final(final(self).ram)@ == final(old(self).ram)@,
    {
        proof {
            assert(self.ram@.len() == self.ram.len());
        }
        self.ram[ALT_SPRITE_Y_HI + self.slot] = value;
    }

    pub fn cache_sprite_header(&mut self, sprite_type: u8, x_low: u8, x_high: u8, y_low: u8, y_high: u8, graphics: u8)
        requires
            ALT_SPRITE_STATE + old(self).slot_index() < old(self).ram().len(),
            ALT_SPRITE_TYPE + old(self).slot_index() < old(self).ram().len(),
            ALT_SPRITE_X_LO + old(self).slot_index() < old(self).ram().len(),
            ALT_SPRITE_X_HI + old(self).slot_index() < old(self).ram().len(),
            ALT_SPRITE_Y_LO + old(self).slot_index() < old(self).ram().len(),
            ALT_SPRITE_Y_HI + old(self).slot_index() < old(self).ram().len(),
            ALT_SPRITE_GRAPHICS + old(self).slot_index() < old(self).ram().len(),
        ensures
            final(self).ram() == old(self).ram()
                .update(ALT_SPRITE_STATE + old(self).slot_index(), 0u8)
                .update(ALT_SPRITE_TYPE + old(self).slot_index(), sprite_type)
                .update(ALT_SPRITE_X_LO + old(self).slot_index(), x_low)
                .update(ALT_SPRITE_X_HI + old(self).slot_index(), x_high)
                .update(ALT_SPRITE_Y_LO + old(self).slot_index(), y_low)
                .update(ALT_SPRITE_Y_HI + old(self).slot_index(), y_high)
                .update(ALT_SPRITE_GRAPHICS + old(self).slot_index(), graphics),
            final(self).slot_index() == old(self).slot_index(),
            final(final(self).ram)@ == final(old(self).ram)@,
    {
        proof {
            assert(self.ram@.len() == self.ram.len());
        }
        self.ram[ALT_SPRITE_STATE + self.slot] = 0;
        self.ram[ALT_SPRITE_TYPE + self.slot] = sprite_type;
        self.ram[ALT_SPRITE_X_LO + self.slot] = x_low;
        self.ram[ALT_SPRITE_X_HI + self.slot] = x_high;
        self.ram[ALT_SPRITE_Y_LO + self.slot] = y_low;
        self.ram[ALT_SPRITE_Y_HI + self.slot] = y_high;
        self.ram[ALT_SPRITE_GRAPHICS + self.slot] = graphics;
    }

    pub fn cache_live_fields(&mut self)
        requires
            cache_fields_fit(old(self).ram(), old(self).slot_index() as int),
        ensures
            final(self).ram() == cached_from_live(old(self).ram(), old(self).slot_index() as int),
            final(self).slot_index() == old(self).slot_index(),
            final(final(self).ram)@ == final(old(self).ram)@,
    {
        proof {
            assert(self.ram@.len() == self.ram.len());
        }
        self.ram[ALT_SPRITE_STATE + self.slot] = self.ram[SPRITE_STATE + self.slot];
        self.ram[ALT_SPRITE_TYPE + self.slot] = self.ram[SPRITE_TYPE + self.slot];
        self.ram[ALT_SPRITE_X_LO + self.slot] = self.ram[SPRITE_X_LO + self.slot];
        self.ram[ALT_SPRITE_X_HI + self.slot] = self.ram[SPRITE_X_HI + self.slot];
        self.ram[ALT_SPRITE_Y_LO + self.slot] = self.ram[SPRITE_Y_LO + self.slot];
        self.ram[ALT_SPRITE_Y_HI + self.slot] = self.ram[SPRITE_Y_HI + self.slot];
        self.ram[ALT_SPRITE_GRAPHICS + self.slot] = self.ram[SPRITE_GRAPHICS + self.slot];
        self.ram[ALT_SPRITE_A + self.slot] = self.ram[SPRITE_A + self.slot];
        self.ram[ALT_SPRITE_HEAD_DIR + self.slot] = self.ram[SPRITE_HEAD_DIR + self.slot];
        self.ram[ALT_SPRITE_OAM_FLAGS + self.slot] = self.ram[SPRITE_OAM_FLAGS + self.slot];
        self.ram[ALT_SPRITE_OBJ_PRIO + self.slot] = self.ram[SPRITE_OBJ_PRIO + self.slot];
        self.ram[ALT_SPRITE_D + self.slot] = self.ram[SPRITE_D + self.slot];
        self.ram[ALT_SPRITE_FLAGS2 + self.slot] = self.ram[SPRITE_FLAGS2 + self.slot];
        self.ram[ALT_SPRITE_FLOOR + self.slot] = self.ram[SPRITE_FLOOR + self.slot];
        self.ram[ALT_SPRITE_SPAWNED_FLAG + self.slot] = self.ram[SPRITE_AI_STATE + self.slot];
        self.ram[ALT_SPRITE_FLAGS3 + self.slot] = self.ram[SPRITE_FLAGS3 + self.slot];
        self.ram[ALT_SPRITE_B + self.slot] = self.ram[SPRITE_B + self.slot];
        self.ram[ALT_SPRITE_C + self.slot] = self.ram[SPRITE_C + self.slot];
        self.ram[ALT_SPRITE_E + self.slot] = self.ram[SPRITE_E + self.slot];
        self.ram[ALT_SPRITE_SUBTYPE2 + self.slot] = self.ram[SPRITE_SUBTYPE2 + self.slot];
        self.ram[ALT_SPRITE_HEIGHT_ABOVE_SHADOW + self.slot] = self.ram[SPRITE_Z + self.slot];
        self.ram[ALT_SPRITE_DELAY_MAIN + self.slot] = self.ram[SPRITE_DELAY_MAIN + self.slot];
        self.ram[ALT_SPRITE_I + self.slot] = self.ram[SPRITE_DRAW_I + self.slot];
        self.ram[ALT_SPRITE_IGNORE_PROJECTILE + self.slot] = self.ram[SPRITE_IGNORE_PROJECTILE + self.slot];
    }

    pub fn load_cached_into_live(&mut self, backup: &mut [u8; 24])
        requires
            cache_fields_fit(old(self).ram(), old(self).slot_index() as int),
        ensures
            final(backup)@ == live_fields(old(self).ram(), old(self).slot_index() as int),
            final(self).ram() == loaded_from_cache(old(self).ram(), old(self).slot_index() as int),
            final(self).slot_index() == old(self).slot_index(),
            final(final(self).ram)@ == final(old(self).ram)@,
    {
        proof {
            assert(self.ram@.len() == self.ram.len());
        }
        backup[0] = self.ram[SPRITE_STATE + self.slot];
        self.ram[SPRITE_STATE + self.slot] = self.ram[ALT_SPRITE_STATE + self.slot];
        backup[1] = self.ram[SPRITE_TYPE + self.slot];
        self.ram[SPRITE_TYPE + self.slot] = self.ram[ALT_SPRITE_TYPE + self.slot];
        backup[2] = self.ram[SPRITE_X_LO + self.slot];
        self.ram[SPRITE_X_LO + self.slot] = self.ram[ALT_SPRITE_X_LO + self.slot];
        backup[3] = self.ram[SPRITE_X_HI + self.slot];
        self.ram[SPRITE_X_HI + self.slot] = self.ram[ALT_SPRITE_X_HI + self.slot];
        backup[4] = self.ram[SPRITE_Y_LO + self.slot];
        self.ram[SPRITE_Y_LO + self.slot] = self.ram[ALT_SPRITE_Y_LO + self.slot];
        backup[5] = self.ram[SPRITE_Y_HI + self.slot];
        self.ram[SPRITE_Y_HI + self.slot] = self.ram[ALT_SPRITE_Y_HI + self.slot];
        backup[6] = self.ram[SPRITE_GRAPHICS + self.slot];
        self.ram[SPRITE_GRAPHICS + self.slot] = self.ram[ALT_SPRITE_GRAPHICS + self.slot];
        backup[7] = self.ram[SPRITE_A + self.slot];
        self.ram[SPRITE_A + self.slot] = self.ram[ALT_SPRITE_A + self.slot];
        backup[8] = self.ram[SPRITE_HEAD_DIR + self.slot];
        self.ram[SPRITE_HEAD_DIR + self.slot] = self.ram[ALT_SPRITE_HEAD_DIR + self.slot];
        backup[9] = self.ram[SPRITE_OAM_FLAGS + self.slot];
        self.ram[SPRITE_OAM_FLAGS + self.slot] = self.ram[ALT_SPRITE_OAM_FLAGS + self.slot];
        backup[10] = self.ram[SPRITE_OBJ_PRIO + self.slot];
        self.ram[SPRITE_OBJ_PRIO + self.slot] = self.ram[ALT_SPRITE_OBJ_PRIO + self.slot];
        backup[11] = self.ram[SPRITE_D + self.slot];
        self.ram[SPRITE_D + self.slot] = self.ram[ALT_SPRITE_D + self.slot];
        backup[12] = self.ram[SPRITE_FLAGS2 + self.slot];
        self.ram[SPRITE_FLAGS2 + self.slot] = self.ram[ALT_SPRITE_FLAGS2 + self.slot];
        backup[13] = self.ram[SPRITE_FLOOR + self.slot];
        self.ram[SPRITE_FLOOR + self.slot] = self.ram[ALT_SPRITE_FLOOR + self.slot];
        backup[14] = self.ram[SPRITE_AI_STATE + self.slot];
        self.ram[SPRITE_AI_STATE + self.slot] = self.ram[ALT_SPRITE_SPAWNED_FLAG + self.slot];
        backup[15] = self.ram[SPRITE_FLAGS3 + self.slot];
        self.ram[SPRITE_FLAGS3 + self.slot] = self.ram[ALT_SPRITE_FLAGS3 + self.slot];
        backup[16] = self.ram[SPRITE_B + self.slot];
        self.ram[SPRITE_B + self.slot] = self.ram[ALT_SPRITE_B + self.slot];
        backup[17] = self.ram[SPRITE_C + self.slot];
        self.ram[SPRITE_C + self.slot] = self.ram[ALT_SPRITE_C + self.slot];
        backup[18] = self.ram[SPRITE_E + self.slot];
        self.ram[SPRITE_E + self.slot] = self.ram[ALT_SPRITE_E + self.slot];
        backup[19] = self.ram[SPRITE_SUBTYPE2 + self.slot];
        self.ram[SPRITE_SUBTYPE2 + self.slot] = self.ram[ALT_SPRITE_SUBTYPE2 + self.slot];
        backup[20] = self.ram[SPRITE_Z + self.slot];
        self.ram[SPRITE_Z + self.slot] = self.ram[ALT_SPRITE_HEIGHT_ABOVE_SHADOW + self.slot];
        backup[21] = self.ram[SPRITE_DELAY_MAIN + self.slot];
        self.ram[SPRITE_DELAY_MAIN + self.slot] = self.ram[ALT_SPRITE_DELAY_MAIN + self.slot];
        backup[22] = self.ram[SPRITE_DRAW_I + self.slot];
        self.ram[SPRITE_DRAW_I + self.slot] = self.ram[ALT_SPRITE_I + self.slot];
        backup[23] = self.ram[SPRITE_IGNORE_PROJECTILE + self.slot];
        self.ram[SPRITE_IGNORE_PROJECTILE + self.slot] = self.ram[ALT_SPRITE_IGNORE_PROJECTILE + self.slot];
        assert(backup@ =~= live_fields(old(self).ram(), old(self).slot_index() as int));
    }

    pub fn restore_live_from_backup(&mut self, backup: &[u8; 24])
        requires
            cache_fields_fit(old(self).ram(), old(self).slot_index() as int),
        ensures
            final(self).ram() == restored_from_backup(old(self).ram(), old(self).slot_index() as int, backup@),
            final(self).slot_index() == old(self).slot_index(),
            final(final(self).ram)@ == final(old(self).ram)@,
    {
        proof {
            assert(self.ram@.len() == self.ram.len());
        }
        self.ram[SPRITE_IGNORE_PROJECTILE + self.slot] = backup[23];
        self.ram[SPRITE_DRAW_I + self.slot] = backup[22];
        self.ram[SPRITE_DELAY_MAIN + self.slot] = backup[21];
        self.ram[SPRITE_Z + self.slot] = backup[20];
        self.ram[SPRITE_SUBTYPE2 + self.slot] = backup[19];
        self.ram[SPRITE_E + self.slot] = backup[18];
        self.ram[SPRITE_C + self.slot] = backup[17];
        self.ram[SPRITE_B + self.slot] = backup[16];
        self.ram[SPRITE_FLAGS3 + self.slot] = backup[15];
        self.ram[SPRITE_AI_STATE + self.slot] = backup[14];
        self.ram[SPRITE_FLOOR + self.slot] = backup[13];
        self.ram[SPRITE_FLAGS2 + self.slot] = backup[12];
        self.ram[SPRITE_D + self.slot] = backup[11];
        self.ram[SPRITE_OBJ_PRIO + self.slot] = backup[10];
        self.ram[SPRITE_OAM_FLAGS + self.slot] = backup[9];
        self.ram[SPRITE_HEAD_DIR + self.slot] = backup[8];
        self.ram[SPRITE_A + self.slot] = backup[7];
        self.ram[SPRITE_GRAPHICS + self.slot] = backup[6];
        self.ram[SPRITE_Y_HI + self.slot] = backup[5];
        self.ram[SPRITE_Y_LO + self.slot] = backup[4];
        self.ram[SPRITE_X_HI + self.slot] = backup[3];
        self.ram[SPRITE_X_LO + self.slot] = backup[2];
        self.ram[SPRITE_TYPE + self.slot] = backup[1];
        self.ram[SPRITE_STATE + self.slot] = backup[0];
    }
}

pub type AltSpriteSlotViewMut<'a> = CachedSpriteSlotViewMut<'a>;

} // verus!
