use vstd::prelude::*;
use super::access;
use super::access::{byte, fill_bytes};
use super::addresses::{
    CUR_SPRITE_X, CUR_SPRITE_Y, SPRITE_DRAW_PRIORITY_OVERRIDE, SPRITE_GFX_SUBSET_0,
    SPRITE_LAST_GARNISH_INDEX, SPRITE_LOAD_BLOCK_SCRATCH, SPRITE_OAM_PREP_X, SPRITE_OAM_PREP_Y,
    SPRITE_PICKUP_SLOT_CACHE, SPRITE_RESET_SCRATCH_A, SPRITE_RESET_SCRATCH_B,
    SPRITE_ROOM_ORIGIN_X_HI, SPRITE_ROOM_ORIGIN_Y_HI, SPRITE_SHARED_SCRATCH_A, SPRITE_TILETYPE,
    SPRITE_WHERE_IN_ROOM,
};
use crate::types;
use crate::types::{read_le_u16, write_le_u16};

verus! {

pub struct SpriteWorkspaceView<'a> {
    ram: &'a [u8],
}

impl<'a> SpriteWorkspaceView<'a> {
    /// The bytes of RAM this view reads and writes.
    pub closed spec fn ram(&self) -> Seq<u8> {
        self.ram@
    }

    pub fn new(ram: &'a [u8]) -> (view: Self)
        ensures
            view.ram() == ram@,
    {
        Self { ram }
    }

    pub fn room_origin_x_high(&self) -> (result: u8)
        ensures
            result == access::byte_at(self.ram(), SPRITE_ROOM_ORIGIN_X_HI as int),
    {
        byte(self.ram, SPRITE_ROOM_ORIGIN_X_HI)
    }

    pub fn room_origin_y_high(&self) -> (result: u8)
        ensures
            result == access::byte_at(self.ram(), SPRITE_ROOM_ORIGIN_Y_HI as int),
    {
        byte(self.ram, SPRITE_ROOM_ORIGIN_Y_HI)
    }

    pub fn pickup_slot_cache(&self) -> (result: u8)
        ensures
            result == access::byte_at(self.ram(), SPRITE_PICKUP_SLOT_CACHE as int),
    {
        byte(self.ram, SPRITE_PICKUP_SLOT_CACHE)
    }

    pub fn shared_scratch_a(&self) -> (result: u8)
        ensures
            result == access::byte_at(self.ram(), SPRITE_SHARED_SCRATCH_A as int),
    {
        byte(self.ram, SPRITE_SHARED_SCRATCH_A)
    }

    pub fn tile_type(&self) -> (result: u8)
        ensures
            result == access::byte_at(self.ram(), SPRITE_TILETYPE as int),
    {
        byte(self.ram, SPRITE_TILETYPE)
    }

    pub fn prep_shared_counter(&self) -> (result: u8)
        ensures
            result == access::byte_at(self.ram(), SPRITE_RESET_SCRATCH_A as int),
    {
        byte(self.ram, SPRITE_RESET_SCRATCH_A)
    }

    pub fn reset_scratch_a(&self) -> (result: u8)
        ensures
            result == access::byte_at(self.ram(), SPRITE_RESET_SCRATCH_A as int),
    {
        byte(self.ram, SPRITE_RESET_SCRATCH_A)
    }

    /// Alias of `reset_scratch_a`: the Armos Knights fight reuses the
    /// shared scratch byte as the remaining-knight counter.
    pub fn armos_knight_remaining_count(&self) -> (result: u8)
        ensures
            result == access::byte_at(self.ram(), SPRITE_RESET_SCRATCH_A as int),
    {
        byte(self.ram, SPRITE_RESET_SCRATCH_A)
    }

    pub fn reset_scratch_b(&self) -> (result: u8)
        ensures
            result == access::byte_at(self.ram(), SPRITE_RESET_SCRATCH_B as int),
    {
        byte(self.ram, SPRITE_RESET_SCRATCH_B)
    }

    pub fn graphics_subset(&self, slot: usize) -> (result: u8)
        requires
            SPRITE_GFX_SUBSET_0 + slot <= usize::MAX,
        ensures
            result == access::byte_at(self.ram(), SPRITE_GFX_SUBSET_0 + slot),
    {
        byte(self.ram, SPRITE_GFX_SUBSET_0 + slot)
    }

    pub fn draw_priority_override(&self) -> (result: u16)
        requires
            SPRITE_DRAW_PRIORITY_OVERRIDE + 1 < self.ram().len(),
        ensures
            result == types::u16_at(self.ram(), SPRITE_DRAW_PRIORITY_OVERRIDE as int),
    {
        read_le_u16(self.ram, SPRITE_DRAW_PRIORITY_OVERRIDE)
    }

    pub fn current_sprite_x(&self) -> (result: u16)
        requires
            CUR_SPRITE_X + 1 < self.ram().len(),
        ensures
            result == types::u16_at(self.ram(), CUR_SPRITE_X as int),
    {
        read_le_u16(self.ram, CUR_SPRITE_X)
    }

    pub fn current_sprite_x_low(&self) -> (result: u8)
        ensures
            result == access::byte_at(self.ram(), CUR_SPRITE_X as int),
    {
        byte(self.ram, CUR_SPRITE_X)
    }

    pub fn current_sprite_y(&self) -> (result: u16)
        requires
            CUR_SPRITE_Y + 1 < self.ram().len(),
        ensures
            result == types::u16_at(self.ram(), CUR_SPRITE_Y as int),
    {
        read_le_u16(self.ram, CUR_SPRITE_Y)
    }

    pub fn current_sprite_y_low(&self) -> (result: u8)
        ensures
            result == access::byte_at(self.ram(), CUR_SPRITE_Y as int),
    {
        byte(self.ram, CUR_SPRITE_Y)
    }

    pub fn oam_prep_x(&self) -> (result: u16)
        requires
            SPRITE_OAM_PREP_X + 1 < self.ram().len(),
        ensures
            result == types::u16_at(self.ram(), SPRITE_OAM_PREP_X as int),
    {
        read_le_u16(self.ram, SPRITE_OAM_PREP_X)
    }

    pub fn oam_prep_y(&self) -> (result: u16)
        requires
            SPRITE_OAM_PREP_Y + 1 < self.ram().len(),
        ensures
            result == types::u16_at(self.ram(), SPRITE_OAM_PREP_Y as int),
    {
        read_le_u16(self.ram, SPRITE_OAM_PREP_Y)
    }

    pub fn where_in_room(&self, room: usize) -> (result: u16)
        requires
            (SPRITE_WHERE_IN_ROOM + (room * 2)) + 1 < self.ram().len(),
        ensures
            result == types::u16_at(self.ram(), SPRITE_WHERE_IN_ROOM + (room * 2)),
    {
        proof {
            assert(self.ram@.len() == self.ram.len());
        }
        read_le_u16(self.ram, SPRITE_WHERE_IN_ROOM + room * 2)
    }
}

pub struct SpriteWorkspaceViewMut<'a> {
    pub ram: &'a mut [u8],
}

impl<'a> SpriteWorkspaceViewMut<'a> {
    /// The bytes of RAM this view reads and writes.
    pub open spec fn ram(&self) -> Seq<u8> {
        self.ram@
    }

    pub fn new(ram: &'a mut [u8]) -> (view: Self)
        ensures
            view.ram() == old(ram)@,
            final(view.ram)@ == final(ram)@,
    {
        Self { ram }
    }

    pub fn set_room_origin_x_high(&mut self, value: u8)
        requires
            SPRITE_ROOM_ORIGIN_X_HI < old(self).ram().len(),
        ensures
            final(self).ram() == old(self).ram().update(SPRITE_ROOM_ORIGIN_X_HI as int, value),
            final(final(self).ram)@ == final(old(self).ram)@,
    {
        self.ram[SPRITE_ROOM_ORIGIN_X_HI] = value;
    }

    pub fn set_room_origin_y_high(&mut self, value: u8)
        requires
            SPRITE_ROOM_ORIGIN_Y_HI < old(self).ram().len(),
        ensures
            final(self).ram() == old(self).ram().update(SPRITE_ROOM_ORIGIN_Y_HI as int, value),
            final(final(self).ram)@ == final(old(self).ram)@,
    {
        self.ram[SPRITE_ROOM_ORIGIN_Y_HI] = value;
    }

    pub fn set_pickup_slot_cache(&mut self, value: u8)
        requires
            SPRITE_PICKUP_SLOT_CACHE < old(self).ram().len(),
        ensures
            final(self).ram() == old(self).ram().update(SPRITE_PICKUP_SLOT_CACHE as int, value),
            final(final(self).ram)@ == final(old(self).ram)@,
    {
        self.ram[SPRITE_PICKUP_SLOT_CACHE] = value;
    }

    pub fn set_shared_scratch_a(&mut self, value: u8)
        requires
            SPRITE_SHARED_SCRATCH_A < old(self).ram().len(),
        ensures
            final(self).ram() == old(self).ram().update(SPRITE_SHARED_SCRATCH_A as int, value),
            final(final(self).ram)@ == final(old(self).ram)@,
    {
        self.ram[SPRITE_SHARED_SCRATCH_A] = value;
    }

    pub fn set_tile_type(&mut self, value: u8)
        requires
            SPRITE_TILETYPE < old(self).ram().len(),
        ensures
            final(self).ram() == old(self).ram().update(SPRITE_TILETYPE as int, value),
            final(final(self).ram)@ == final(old(self).ram)@,
    {
        self.ram[SPRITE_TILETYPE] = value;
    }

    pub fn set_prep_shared_counter(&mut self, value: u8)
        requires
            SPRITE_RESET_SCRATCH_A < old(self).ram().len(),
        ensures
            final(self).ram() == old(self).ram().update(SPRITE_RESET_SCRATCH_A as int, value),
            final(final(self).ram)@ == final(old(self).ram)@,
    {
        self.ram[SPRITE_RESET_SCRATCH_A] = value;
    }

    pub fn increment_prep_shared_counter(&mut self) -> (result: u8)
        requires
            SPRITE_RESET_SCRATCH_A < old(self).ram().len(),
        ensures
            result == old(self).ram()[SPRITE_RESET_SCRATCH_A as int].wrapping_add(1),
            final(self).ram() == old(self).ram().update(
                SPRITE_RESET_SCRATCH_A as int,
                old(self).ram()[SPRITE_RESET_SCRATCH_A as int].wrapping_add(1),
            ),
            final(final(self).ram)@ == final(old(self).ram)@,
    {
        self.ram[SPRITE_RESET_SCRATCH_A] = self.ram[SPRITE_RESET_SCRATCH_A].wrapping_add(1);
        self.ram[SPRITE_RESET_SCRATCH_A]
    }

    pub fn decrement_prep_shared_counter(&mut self) -> (result: u8)
        requires
            SPRITE_RESET_SCRATCH_A < old(self).ram().len(),
        ensures
            result == old(self).ram()[SPRITE_RESET_SCRATCH_A as int].wrapping_sub(1),
            final(self).ram() == old(self).ram().update(
                SPRITE_RESET_SCRATCH_A as int,
                old(self).ram()[SPRITE_RESET_SCRATCH_A as int].wrapping_sub(1),
            ),
            final(final(self).ram)@ == final(old(self).ram)@,
    {
        self.ram[SPRITE_RESET_SCRATCH_A] = self.ram[SPRITE_RESET_SCRATCH_A].wrapping_sub(1);
        self.ram[SPRITE_RESET_SCRATCH_A]
    }

    /// Alias of `decrement_prep_shared_counter` for the Armos Knights
    /// fight, which reuses the shared scratch byte as the
    /// remaining-knight counter. Returns the new value.
    pub fn decrement_armos_knight_remaining_count(&mut self) -> (result: u8)
        requires
            SPRITE_RESET_SCRATCH_A < old(self).ram().len(),
        ensures
            result == old(self).ram()[SPRITE_RESET_SCRATCH_A as int].wrapping_sub(1),
            final(self).ram() == old(self).ram().update(
                SPRITE_RESET_SCRATCH_A as int,
                old(self).ram()[SPRITE_RESET_SCRATCH_A as int].wrapping_sub(1),
            ),
            final(final(self).ram)@ == final(old(self).ram)@,
    {
        self.ram[SPRITE_RESET_SCRATCH_A] = self.ram[SPRITE_RESET_SCRATCH_A].wrapping_sub(1);
        self.ram[SPRITE_RESET_SCRATCH_A]
    }

    /// Alias of `set_prep_shared_counter(0)` for the Vitreous fight,
    /// which reuses the shared scratch byte as the eyeball release
    /// counter.
    pub fn clear_vitreous_eyeball_release_count(&mut self)
        requires
            SPRITE_RESET_SCRATCH_A < old(self).ram().len(),
        ensures
            final(self).ram() == old(self).ram().update(SPRITE_RESET_SCRATCH_A as int, 0u8),
            final(final(self).ram)@ == final(old(self).ram)@,
    {
        self.ram[SPRITE_RESET_SCRATCH_A] = 0;
    }

    pub fn set_reset_scratch_a(&mut self, value: u8)
        requires
            SPRITE_RESET_SCRATCH_A < old(self).ram().len(),
        ensures
            final(self).ram() == old(self).ram().update(SPRITE_RESET_SCRATCH_A as int, value),
            final(final(self).ram)@ == final(old(self).ram)@,
    {
        self.ram[SPRITE_RESET_SCRATCH_A] = value;
    }

    pub fn set_reset_scratch_b(&mut self, value: u8)
        requires
            SPRITE_RESET_SCRATCH_B < old(self).ram().len(),
        ensures
            final(self).ram() == old(self).ram().update(SPRITE_RESET_SCRATCH_B as int, value),
            final(final(self).ram)@ == final(old(self).ram)@,
    {
        self.ram[SPRITE_RESET_SCRATCH_B] = value;
    }

    pub fn set_graphics_subset(&mut self, slot: usize, value: u8)
        requires
            SPRITE_GFX_SUBSET_0 + slot < old(self).ram().len(),
        ensures
            final(self).ram() == old(self).ram().update(SPRITE_GFX_SUBSET_0 + slot, value),
            final(final(self).ram)@ == final(old(self).ram)@,
    {
        proof {
            assert(self.ram@.len() == self.ram.len());
        }
        self.ram[SPRITE_GFX_SUBSET_0 + slot] = value;
    }

    pub fn clear_where_in_room(&mut self)
        requires
            SPRITE_WHERE_IN_ROOM + 0x1000 <= old(self).ram().len(),
        ensures
            final(self).ram() == access::filled(
                old(self).ram(),
                SPRITE_WHERE_IN_ROOM as int,
                SPRITE_WHERE_IN_ROOM + 0x1000,
                0u8,
            ),
            final(final(self).ram)@ == final(old(self).ram)@,
    {
        fill_bytes(self.ram, SPRITE_WHERE_IN_ROOM, SPRITE_WHERE_IN_ROOM + 0x1000, 0);
    }

    pub fn clear_draw_priority_override(&mut self)
        requires
            SPRITE_DRAW_PRIORITY_OVERRIDE + 1 < old(self).ram().len(),
        ensures
            final(self).ram() == types::with_u16(
                old(self).ram(),
                SPRITE_DRAW_PRIORITY_OVERRIDE as int,
                0u16,
            ),
            final(final(self).ram)@ == final(old(self).ram)@,
    {
        write_le_u16(self.ram, SPRITE_DRAW_PRIORITY_OVERRIDE, 0);
    }

    pub fn set_draw_priority_override_low(&mut self, value: u8)
        requires
            SPRITE_DRAW_PRIORITY_OVERRIDE < old(self).ram().len(),
        ensures
            final(self).ram() == old(self).ram().update(
                SPRITE_DRAW_PRIORITY_OVERRIDE as int,
                value,
            ),
            final(final(self).ram)@ == final(old(self).ram)@,
    {
        self.ram[SPRITE_DRAW_PRIORITY_OVERRIDE] = value;
    }

    pub fn set_current_sprite_x(&mut self, value: u16)
        requires
            CUR_SPRITE_X + 1 < old(self).ram().len(),
        ensures
            final(self).ram() == types::with_u16(old(self).ram(), CUR_SPRITE_X as int, value),
            final(final(self).ram)@ == final(old(self).ram)@,
    {
        write_le_u16(self.ram, CUR_SPRITE_X, value);
    }

    pub fn set_current_sprite_x_low(&mut self, value: u8)
        requires
            CUR_SPRITE_X < old(self).ram().len(),
        ensures
            final(self).ram() == old(self).ram().update(CUR_SPRITE_X as int, value),
            final(final(self).ram)@ == final(old(self).ram)@,
    {
        self.ram[CUR_SPRITE_X] = value;
    }

    pub fn add_current_sprite_x_low(&mut self, value: u8)
        requires
            CUR_SPRITE_X < old(self).ram().len(),
        ensures
            final(self).ram() == old(self).ram().update(
                CUR_SPRITE_X as int,
                old(self).ram()[CUR_SPRITE_X as int].wrapping_add(value),
            ),
            final(final(self).ram)@ == final(old(self).ram)@,
    {
        self.ram[CUR_SPRITE_X] = self.ram[CUR_SPRITE_X].wrapping_add(value);
    }

    pub fn set_current_sprite_y(&mut self, value: u16)
        requires
            CUR_SPRITE_Y + 1 < old(self).ram().len(),
        ensures
            final(self).ram() == types::with_u16(old(self).ram(), CUR_SPRITE_Y as int, value),
            final(final(self).ram)@ == final(old(self).ram)@,
    {
        write_le_u16(self.ram, CUR_SPRITE_Y, value);
    }

    pub fn set_current_sprite_y_low(&mut self, value: u8)
        requires
            CUR_SPRITE_Y < old(self).ram().len(),
        ensures
            final(self).ram() == old(self).ram().update(CUR_SPRITE_Y as int, value),
            final(final(self).ram)@ == final(old(self).ram)@,
    {
        self.ram[CUR_SPRITE_Y] = value;
    }

    pub fn add_current_sprite_y_low(&mut self, value: u8)
        requires
            CUR_SPRITE_Y < old(self).ram().len(),
        ensures
            final(self).ram() == old(self).ram().update(
                CUR_SPRITE_Y as int,
                old(self).ram()[CUR_SPRITE_Y as int].wrapping_add(value),
            ),
            final(final(self).ram)@ == final(old(self).ram)@,
    {
        self.ram[CUR_SPRITE_Y] = self.ram[CUR_SPRITE_Y].wrapping_add(value);
    }

    pub fn subtract_current_sprite_y_low(&mut self, value: u8)
        requires
            CUR_SPRITE_Y < old(self).ram().len(),
        ensures
            final(self).ram() == old(self).ram().update(
                CUR_SPRITE_Y as int,
                old(self).ram()[CUR_SPRITE_Y as int].wrapping_sub(value),
            ),
            final(final(self).ram)@ == final(old(self).ram)@,
    {
        self.ram[CUR_SPRITE_Y] = self.ram[CUR_SPRITE_Y].wrapping_sub(value);
    }

    pub fn set_current_sprite_position(&mut self, x: u16, y: u16)
        requires
            CUR_SPRITE_X + 1 < old(self).ram().len(),
            CUR_SPRITE_Y + 1 < old(self).ram().len(),
        ensures
            final(self).ram() == types::with_u16(
                types::with_u16(old(self).ram(), CUR_SPRITE_X as int, x),
                CUR_SPRITE_Y as int,
                y,
            ),
            final(final(self).ram)@ == final(old(self).ram)@,
    {
        write_le_u16(self.ram, CUR_SPRITE_X, x);
        write_le_u16(self.ram, CUR_SPRITE_Y, y);
    }

    pub fn set_oam_prep_coords(&mut self, x: u16, y: u16)
        requires
            SPRITE_OAM_PREP_X + 1 < old(self).ram().len(),
            SPRITE_OAM_PREP_Y + 1 < old(self).ram().len(),
        ensures
            final(self).ram() == types::with_u16(
                types::with_u16(old(self).ram(), SPRITE_OAM_PREP_X as int, x),
                SPRITE_OAM_PREP_Y as int,
                y,
            ),
            final(final(self).ram)@ == final(old(self).ram)@,
    {
        write_le_u16(self.ram, SPRITE_OAM_PREP_X, x);
        write_le_u16(self.ram, SPRITE_OAM_PREP_Y, y);
    }

    pub fn set_killed_sprite_load_block(&mut self, block: u16)
        requires
            SPRITE_LOAD_BLOCK_SCRATCH < old(self).ram().len(),
            (SPRITE_LOAD_BLOCK_SCRATCH + 1) + 1 < old(self).ram().len(),
        ensures
            final(self).ram() == types::with_u16(
                old(self).ram()
                    .update(SPRITE_LOAD_BLOCK_SCRATCH as int, block as u8),
                SPRITE_LOAD_BLOCK_SCRATCH + 1,
                (block >> 3).wrapping_add(0xef80),
            ),
            final(final(self).ram)@ == final(old(self).ram)@,
    {
        self.ram[SPRITE_LOAD_BLOCK_SCRATCH] = block as u8;
        write_le_u16(self.ram, SPRITE_LOAD_BLOCK_SCRATCH + 1, (block >> 3).wrapping_add(0xef80));
    }

    pub fn set_last_garnish_index(&mut self, index: i32)
        requires
            SPRITE_LAST_GARNISH_INDEX < old(self).ram().len(),
        ensures
            final(self).ram() == old(self).ram().update(
                SPRITE_LAST_GARNISH_INDEX as int,
                index as u8,
            ),
            final(final(self).ram)@ == final(old(self).ram)@,
    {
        self.ram[SPRITE_LAST_GARNISH_INDEX] = index as u8;
    }

    pub fn set_where_in_room(&mut self, room: usize, value: u16)
        requires
            (SPRITE_WHERE_IN_ROOM + (room * 2)) + 1 < old(self).ram().len(),
        ensures
            final(self).ram() == types::with_u16(
                old(self).ram(),
                SPRITE_WHERE_IN_ROOM + (room * 2),
                value,
            ),
            final(final(self).ram)@ == final(old(self).ram)@,
    {
        proof {
            assert(self.ram@.len() == self.ram.len());
        }
        write_le_u16(self.ram, SPRITE_WHERE_IN_ROOM + room * 2, value);
    }
}

} // verus!
