use vstd::prelude::*;
use super::access;
use super::access::{byte};
use super::addresses::{
    LINK_ABILITY_FLAGS, LINK_ARROW_REFILL_COUNTER, LINK_ARROW_UPGRADES, LINK_BIGKEY,
    LINK_BOMB_FILLER, LINK_BOMB_UPGRADES, LINK_COMPASS, LINK_CURRENT_HEALTH, LINK_DUNGEON_MAP,
    LINK_HAS_CRYSTALS, LINK_HEALTH_CAPACITY, LINK_HEARTS_FILLER, LINK_HEART_PIECES,
    LINK_ITEM_BOMBS, LINK_ITEM_BOTTLE_INDEX, LINK_LOWLIFE_COUNTDOWN_TIMER_BEEP,
    LINK_MAGIC_CONSUMPTION, LINK_MAGIC_FILLER, LINK_MAGIC_POWER, LINK_NUM_ARROWS, LINK_NUM_KEYS,
    LINK_RUPEES_ACTUAL, LINK_RUPEES_GOAL, LINK_RUPEES_IN_POND, LINK_WHICH_PENDANTS,
};
use crate::types;
use crate::types::{read_le_u16, write_le_u16};

verus! {

pub struct PlayerResourcesView<'a> {
    ram: &'a [u8],
}

impl<'a> PlayerResourcesView<'a> {
    /// The bytes of RAM this view reads and writes.
    pub closed spec fn ram(&self) -> Seq<u8> {
        self.ram@
    }

    pub fn new(ram: &'a [u8]) -> (view: Self)
        ensures
            view.ram() == ram@,
    {
        Self { ram }
    }

    pub fn magic_power(&self) -> (result: u8)
        ensures
            result == access::byte_at(self.ram(), LINK_MAGIC_POWER as int),
    {
        byte(self.ram, LINK_MAGIC_POWER)
    }

    pub fn magic_filler(&self) -> (result: u8)
        ensures
            result == access::byte_at(self.ram(), LINK_MAGIC_FILLER as int),
    {
        byte(self.ram, LINK_MAGIC_FILLER)
    }

    pub fn magic_consumption_level(&self) -> (result: u8)
        ensures
            result == access::byte_at(self.ram(), LINK_MAGIC_CONSUMPTION as int),
    {
        byte(self.ram, LINK_MAGIC_CONSUMPTION)
    }

    pub fn bomb_filler(&self) -> (result: u8)
        ensures
            result == access::byte_at(self.ram(), LINK_BOMB_FILLER as int),
    {
        byte(self.ram, LINK_BOMB_FILLER)
    }

    pub fn bombs(&self) -> (result: u8)
        ensures
            result == access::byte_at(self.ram(), LINK_ITEM_BOMBS as int),
    {
        byte(self.ram, LINK_ITEM_BOMBS)
    }

    pub fn bomb_upgrade_level(&self) -> (result: u8)
        ensures
            result == access::byte_at(self.ram(), LINK_BOMB_UPGRADES as int),
    {
        byte(self.ram, LINK_BOMB_UPGRADES)
    }

    pub fn next_bomb_upgrade_level(&self) -> (result: u8)
        ensures
            result == access::byte_at(self.ram(), LINK_BOMB_UPGRADES as int).wrapping_add(1),
    {
        self.bomb_upgrade_level().wrapping_add(1)
    }

    pub fn arrow_filler(&self) -> (result: u8)
        ensures
            result == access::byte_at(self.ram(), LINK_ARROW_REFILL_COUNTER as int),
    {
        byte(self.ram, LINK_ARROW_REFILL_COUNTER)
    }

    pub fn arrows(&self) -> (result: u8)
        ensures
            result == access::byte_at(self.ram(), LINK_NUM_ARROWS as int),
    {
        byte(self.ram, LINK_NUM_ARROWS)
    }

    pub fn arrow_upgrade_level(&self) -> (result: u8)
        ensures
            result == access::byte_at(self.ram(), LINK_ARROW_UPGRADES as int),
    {
        byte(self.ram, LINK_ARROW_UPGRADES)
    }

    pub fn next_arrow_upgrade_level(&self) -> (result: u8)
        ensures
            result == access::byte_at(self.ram(), LINK_ARROW_UPGRADES as int).wrapping_add(1),
    {
        self.arrow_upgrade_level().wrapping_add(1)
    }

    pub fn has_bomb_or_arrow_upgrade(&self) -> (result: bool)
        ensures
            result == ((access::byte_at(self.ram(), LINK_BOMB_UPGRADES as int) | access::byte_at(self.ram(), LINK_ARROW_UPGRADES as int)) != 0),
    {
        byte(self.ram, LINK_BOMB_UPGRADES) | byte(self.ram, LINK_ARROW_UPGRADES) != 0
    }

    pub fn current_health(&self) -> (result: u8)
        ensures
            result == access::byte_at(self.ram(), LINK_CURRENT_HEALTH as int),
    {
        byte(self.ram, LINK_CURRENT_HEALTH)
    }

    pub fn health_capacity(&self) -> (result: u8)
        ensures
            result == access::byte_at(self.ram(), LINK_HEALTH_CAPACITY as int),
    {
        byte(self.ram, LINK_HEALTH_CAPACITY)
    }

    pub fn heart_filler(&self) -> (result: u8)
        ensures
            result == access::byte_at(self.ram(), LINK_HEARTS_FILLER as int),
    {
        byte(self.ram, LINK_HEARTS_FILLER)
    }

    pub fn low_health_beep_timer(&self) -> (result: u8)
        ensures
            result == access::byte_at(self.ram(), LINK_LOWLIFE_COUNTDOWN_TIMER_BEEP as int),
    {
        byte(self.ram, LINK_LOWLIFE_COUNTDOWN_TIMER_BEEP)
    }

    pub fn equipped_bottle_index(&self) -> (result: u8)
        ensures
            result == access::byte_at(self.ram(), LINK_ITEM_BOTTLE_INDEX as int),
    {
        byte(self.ram, LINK_ITEM_BOTTLE_INDEX)
    }

    pub fn rupees_goal(&self) -> (result: u16)
        requires
            LINK_RUPEES_GOAL + 1 < self.ram().len(),
        ensures
            result == types::u16_at(self.ram(), LINK_RUPEES_GOAL as int),
    {
        read_le_u16(self.ram, LINK_RUPEES_GOAL)
    }

    pub fn rupees_actual(&self) -> (result: u16)
        requires
            LINK_RUPEES_ACTUAL + 1 < self.ram().len(),
        ensures
            result == types::u16_at(self.ram(), LINK_RUPEES_ACTUAL as int),
    {
        read_le_u16(self.ram, LINK_RUPEES_ACTUAL)
    }

    pub fn compass_flags(&self) -> (result: u16)
        requires
            LINK_COMPASS + 1 < self.ram().len(),
        ensures
            result == types::u16_at(self.ram(), LINK_COMPASS as int),
    {
        read_le_u16(self.ram, LINK_COMPASS)
    }

    pub fn big_key_flags(&self) -> (result: u16)
        requires
            LINK_BIGKEY + 1 < self.ram().len(),
        ensures
            result == types::u16_at(self.ram(), LINK_BIGKEY as int),
    {
        read_le_u16(self.ram, LINK_BIGKEY)
    }

    pub fn dungeon_map_flags(&self) -> (result: u16)
        requires
            LINK_DUNGEON_MAP + 1 < self.ram().len(),
        ensures
            result == types::u16_at(self.ram(), LINK_DUNGEON_MAP as int),
    {
        read_le_u16(self.ram, LINK_DUNGEON_MAP)
    }

    pub fn has_compass_mask(&self, mask: u16) -> (result: bool)
        requires
            LINK_COMPASS + 1 < self.ram().len(),
        ensures
            result == ((types::u16_at(self.ram(), LINK_COMPASS as int) & mask) != 0),
    {
        self.compass_flags() & mask != 0
    }

    pub fn has_big_key_mask(&self, mask: u16) -> (result: bool)
        requires
            LINK_BIGKEY + 1 < self.ram().len(),
        ensures
            result == ((types::u16_at(self.ram(), LINK_BIGKEY as int) & mask) != 0),
    {
        self.big_key_flags() & mask != 0
    }

    pub fn lacks_big_key_mask(&self, mask: u16) -> (result: bool)
        requires
            LINK_BIGKEY + 1 < self.ram().len(),
        ensures
            result == ((types::u16_at(self.ram(), LINK_BIGKEY as int) & mask) == 0),
    {
        !self.has_big_key_mask(mask)
    }

    pub fn has_dungeon_map_mask(&self, mask: u16) -> (result: bool)
        requires
            LINK_DUNGEON_MAP + 1 < self.ram().len(),
        ensures
            result == ((types::u16_at(self.ram(), LINK_DUNGEON_MAP as int) & mask) != 0),
    {
        self.dungeon_map_flags() & mask != 0
    }

    pub fn has_big_key_at_shift(&self, shift: u8) -> (result: bool)
        requires
            LINK_BIGKEY + 1 < self.ram().len(),
            shift < 16,
        ensures
            result == (((types::u16_at(self.ram(), LINK_BIGKEY as int) << shift) & 0x8000u16) != 0),
    {
        (self.big_key_flags() << shift) & 0x8000 != 0
    }

    pub fn has_dungeon_map_at_shift(&self, shift: u8) -> (result: bool)
        requires
            LINK_DUNGEON_MAP + 1 < self.ram().len(),
            shift < 16,
        ensures
            result == (((types::u16_at(self.ram(), LINK_DUNGEON_MAP as int) << shift) & 0x8000u16) != 0),
    {
        (self.dungeon_map_flags() << shift) & 0x8000 != 0
    }

    pub fn has_compass_at_shift(&self, shift: u8) -> (result: bool)
        requires
            LINK_COMPASS + 1 < self.ram().len(),
            shift < 16,
        ensures
            result == (((types::u16_at(self.ram(), LINK_COMPASS as int) << shift) & 0x8000u16) != 0),
    {
        (self.compass_flags() << shift) & 0x8000 != 0
    }

    pub fn ability_flags(&self) -> (result: u8)
        ensures
            result == access::byte_at(self.ram(), LINK_ABILITY_FLAGS as int),
    {
        byte(self.ram, LINK_ABILITY_FLAGS)
    }

    pub fn pendant_flags(&self) -> (result: u8)
        ensures
            result == access::byte_at(self.ram(), LINK_WHICH_PENDANTS as int),
    {
        byte(self.ram, LINK_WHICH_PENDANTS)
    }

    pub fn crystal_flags(&self) -> (result: u8)
        ensures
            result == access::byte_at(self.ram(), LINK_HAS_CRYSTALS as int),
    {
        byte(self.ram, LINK_HAS_CRYSTALS)
    }

    pub fn heart_pieces(&self) -> (result: u8)
        ensures
            result == access::byte_at(self.ram(), LINK_HEART_PIECES as int),
    {
        byte(self.ram, LINK_HEART_PIECES)
    }

    pub fn keys(&self) -> (result: u8)
        ensures
            result == access::byte_at(self.ram(), LINK_NUM_KEYS as int),
    {
        byte(self.ram, LINK_NUM_KEYS)
    }

    pub fn rupees_in_pond(&self) -> (result: u8)
        ensures
            result == access::byte_at(self.ram(), LINK_RUPEES_IN_POND as int),
    {
        byte(self.ram, LINK_RUPEES_IN_POND)
    }
}

pub struct PlayerResourcesViewMut<'a> {
    pub ram: &'a mut [u8],
}

impl<'a> PlayerResourcesViewMut<'a> {
    /// The bytes of RAM this view reads and writes.
    pub open spec fn ram(&self) -> Seq<u8> {
        self.ram@
    }

    pub fn new(ram: &'a mut [u8]) -> (view: Self)
        ensures
            view.ram() == old(ram)@,
            final(view.ram)@ == final(ram)@,
    {
        Self { ram }
    }

    pub fn set_magic_power(&mut self, value: u8)
        requires
            LINK_MAGIC_POWER < old(self).ram().len(),
        ensures
            final(self).ram() == old(self).ram().update(LINK_MAGIC_POWER as int, value),
            final(final(self).ram)@ == final(old(self).ram)@,
    {
        self.ram[LINK_MAGIC_POWER] = value;
    }

    pub fn set_magic_consumption_level(&mut self, value: u8)
        requires
            LINK_MAGIC_CONSUMPTION < old(self).ram().len(),
        ensures
            final(self).ram() == old(self).ram().update(LINK_MAGIC_CONSUMPTION as int, value),
            final(final(self).ram)@ == final(old(self).ram)@,
    {
        self.ram[LINK_MAGIC_CONSUMPTION] = value;
    }

    pub fn increment_magic_power(&mut self)
        requires
            LINK_MAGIC_POWER < old(self).ram().len(),
        ensures
            final(self).ram() == old(self).ram().update(
                LINK_MAGIC_POWER as int,
                old(self).ram()[LINK_MAGIC_POWER as int].wrapping_add(1),
            ),
            final(final(self).ram)@ == final(old(self).ram)@,
    {
        self.ram[LINK_MAGIC_POWER] = self.ram[LINK_MAGIC_POWER].wrapping_add(1);
    }

    pub fn set_magic_filler(&mut self, value: u8)
        requires
            LINK_MAGIC_FILLER < old(self).ram().len(),
        ensures
            final(self).ram() == old(self).ram().update(LINK_MAGIC_FILLER as int, value),
            final(final(self).ram)@ == final(old(self).ram)@,
    {
        self.ram[LINK_MAGIC_FILLER] = value;
    }

    pub fn clear_magic_filler(&mut self)
        requires
            LINK_MAGIC_FILLER < old(self).ram().len(),
        ensures
            final(self).ram() == old(self).ram().update(LINK_MAGIC_FILLER as int, 0u8),
            final(final(self).ram)@ == final(old(self).ram)@,
    {
        self.ram[LINK_MAGIC_FILLER] = 0;
    }

    pub fn decrement_magic_filler(&mut self)
        requires
            LINK_MAGIC_FILLER < old(self).ram().len(),
        ensures
            final(self).ram() == old(self).ram().update(
                LINK_MAGIC_FILLER as int,
                old(self).ram()[LINK_MAGIC_FILLER as int].wrapping_sub(1),
            ),
            final(final(self).ram)@ == final(old(self).ram)@,
    {
        self.ram[LINK_MAGIC_FILLER] = self.ram[LINK_MAGIC_FILLER].wrapping_sub(1);
    }

    pub fn decrement_bomb_filler(&mut self)
        requires
            LINK_BOMB_FILLER < old(self).ram().len(),
        ensures
            final(self).ram() == old(self).ram().update(
                LINK_BOMB_FILLER as int,
                old(self).ram()[LINK_BOMB_FILLER as int].wrapping_sub(1),
            ),
            final(final(self).ram)@ == final(old(self).ram)@,
    {
        self.ram[LINK_BOMB_FILLER] = self.ram[LINK_BOMB_FILLER].wrapping_sub(1);
    }

    pub fn set_bomb_filler(&mut self, value: u8)
        requires
            LINK_BOMB_FILLER < old(self).ram().len(),
        ensures
            final(self).ram() == old(self).ram().update(LINK_BOMB_FILLER as int, value),
            final(final(self).ram)@ == final(old(self).ram)@,
    {
        self.ram[LINK_BOMB_FILLER] = value;
    }

    pub fn increment_bomb_filler_by(&mut self, value: u8)
        requires
            LINK_BOMB_FILLER < old(self).ram().len(),
        ensures
            final(self).ram() == old(self).ram().update(
                LINK_BOMB_FILLER as int,
                old(self).ram()[LINK_BOMB_FILLER as int].wrapping_add(value),
            ),
            final(final(self).ram)@ == final(old(self).ram)@,
    {
        self.ram[LINK_BOMB_FILLER] = self.ram[LINK_BOMB_FILLER].wrapping_add(value);
    }

    pub fn increment_bombs(&mut self)
        requires
            LINK_ITEM_BOMBS < old(self).ram().len(),
        ensures
            final(self).ram() == old(self).ram().update(
                LINK_ITEM_BOMBS as int,
                old(self).ram()[LINK_ITEM_BOMBS as int].wrapping_add(1),
            ),
            final(final(self).ram)@ == final(old(self).ram)@,
    {
        self.ram[LINK_ITEM_BOMBS] = self.ram[LINK_ITEM_BOMBS].wrapping_add(1);
    }

    pub fn decrement_bombs(&mut self) -> (result: u8)
        requires
            LINK_ITEM_BOMBS < old(self).ram().len(),
        ensures
            result == old(self).ram()[LINK_ITEM_BOMBS as int].wrapping_sub(1),
            final(self).ram() == old(self).ram().update(
                LINK_ITEM_BOMBS as int,
                old(self).ram()[LINK_ITEM_BOMBS as int].wrapping_sub(1),
            ),
            final(final(self).ram)@ == final(old(self).ram)@,
    {
        self.ram[LINK_ITEM_BOMBS] = self.ram[LINK_ITEM_BOMBS].wrapping_sub(1);
        self.ram[LINK_ITEM_BOMBS]
    }

    pub fn increment_health_capacity_by(&mut self, value: u8) -> (result: u8)
        requires
            LINK_HEALTH_CAPACITY < old(self).ram().len(),
        ensures
            result == old(self).ram()[LINK_HEALTH_CAPACITY as int].wrapping_add(value),
            final(self).ram() == old(self).ram().update(
                LINK_HEALTH_CAPACITY as int,
                old(self).ram()[LINK_HEALTH_CAPACITY as int].wrapping_add(value),
            ),
            final(final(self).ram)@ == final(old(self).ram)@,
    {
        self.ram[LINK_HEALTH_CAPACITY] = self.ram[LINK_HEALTH_CAPACITY].wrapping_add(value);
        self.ram[LINK_HEALTH_CAPACITY]
    }

    pub fn increment_heart_filler_by(&mut self, value: u8)
        requires
            LINK_HEARTS_FILLER < old(self).ram().len(),
        ensures
            final(self).ram() == old(self).ram().update(
                LINK_HEARTS_FILLER as int,
                old(self).ram()[LINK_HEARTS_FILLER as int].wrapping_add(value),
            ),
            final(final(self).ram)@ == final(old(self).ram)@,
    {
        self.ram[LINK_HEARTS_FILLER] = self.ram[LINK_HEARTS_FILLER].wrapping_add(value);
    }

    pub fn increment_heart_filler_word_by(&mut self, value: u16) -> (result: u16)
        requires
            LINK_HEARTS_FILLER + 1 < old(self).ram().len(),
        ensures
            result == types::u16_at(old(self).ram(), LINK_HEARTS_FILLER as int).wrapping_add(value),
            final(self).ram() == types::with_u16(
                old(self).ram(),
                LINK_HEARTS_FILLER as int,
                types::u16_at(old(self).ram(), LINK_HEARTS_FILLER as int)
                    .wrapping_add(value),
            ),
            final(final(self).ram)@ == final(old(self).ram)@,
    {
        let hearts = read_le_u16(self.ram, LINK_HEARTS_FILLER).wrapping_add(value);
        write_le_u16(self.ram, LINK_HEARTS_FILLER, hearts);
        hearts
    }

    pub fn increment_magic_filler_by(&mut self, value: u8)
        requires
            LINK_MAGIC_FILLER < old(self).ram().len(),
        ensures
            final(self).ram() == old(self).ram().update(
                LINK_MAGIC_FILLER as int,
                old(self).ram()[LINK_MAGIC_FILLER as int].wrapping_add(value),
            ),
            final(final(self).ram)@ == final(old(self).ram)@,
    {
        self.ram[LINK_MAGIC_FILLER] = self.ram[LINK_MAGIC_FILLER].wrapping_add(value);
    }

    pub fn add_crystal_flags(&mut self, flags: u8)
        requires
            LINK_HAS_CRYSTALS < old(self).ram().len(),
        ensures
            final(self).ram() == old(self).ram().update(
                LINK_HAS_CRYSTALS as int,
                old(self).ram()[LINK_HAS_CRYSTALS as int] | flags,
            ),
            final(final(self).ram)@ == final(old(self).ram)@,
    {
        self.ram[LINK_HAS_CRYSTALS] |= flags;
    }

    pub fn set_crystal_flags(&mut self, flags: u8)
        requires
            LINK_HAS_CRYSTALS < old(self).ram().len(),
        ensures
            final(self).ram() == old(self).ram().update(LINK_HAS_CRYSTALS as int, flags),
            final(final(self).ram)@ == final(old(self).ram)@,
    {
        self.ram[LINK_HAS_CRYSTALS] = flags;
    }

    pub fn set_pendant_flags(&mut self, flags: u8)
        requires
            LINK_WHICH_PENDANTS < old(self).ram().len(),
        ensures
            final(self).ram() == old(self).ram().update(LINK_WHICH_PENDANTS as int, flags),
            final(final(self).ram)@ == final(old(self).ram)@,
    {
        self.ram[LINK_WHICH_PENDANTS] = flags;
    }

    pub fn decrement_arrow_filler(&mut self)
        requires
            LINK_ARROW_REFILL_COUNTER < old(self).ram().len(),
        ensures
            final(self).ram() == old(self).ram().update(
                LINK_ARROW_REFILL_COUNTER as int,
                old(self).ram()[LINK_ARROW_REFILL_COUNTER as int].wrapping_sub(1),
            ),
            final(final(self).ram)@ == final(old(self).ram)@,
    {
        self.ram[LINK_ARROW_REFILL_COUNTER] = self.ram[LINK_ARROW_REFILL_COUNTER].wrapping_sub(1);
    }

    pub fn set_arrow_filler(&mut self, value: u8)
        requires
            LINK_ARROW_REFILL_COUNTER < old(self).ram().len(),
        ensures
            final(self).ram() == old(self).ram().update(LINK_ARROW_REFILL_COUNTER as int, value),
            final(final(self).ram)@ == final(old(self).ram)@,
    {
        self.ram[LINK_ARROW_REFILL_COUNTER] = value;
    }

    pub fn increment_arrow_filler_by(&mut self, value: u8)
        requires
            LINK_ARROW_REFILL_COUNTER < old(self).ram().len(),
        ensures
            final(self).ram() == old(self).ram().update(
                LINK_ARROW_REFILL_COUNTER as int,
                old(self).ram()[LINK_ARROW_REFILL_COUNTER as int].wrapping_add(value),
            ),
            final(final(self).ram)@ == final(old(self).ram)@,
    {
        self.ram[LINK_ARROW_REFILL_COUNTER] = self.ram[LINK_ARROW_REFILL_COUNTER].wrapping_add(value);
    }

    pub fn increment_arrows(&mut self)
        requires
            LINK_NUM_ARROWS < old(self).ram().len(),
        ensures
            final(self).ram() == old(self).ram().update(
                LINK_NUM_ARROWS as int,
                old(self).ram()[LINK_NUM_ARROWS as int].wrapping_add(1),
            ),
            final(final(self).ram)@ == final(old(self).ram)@,
    {
        self.ram[LINK_NUM_ARROWS] = self.ram[LINK_NUM_ARROWS].wrapping_add(1);
    }

    pub fn increment_arrows_by(&mut self, value: u8)
        requires
            LINK_NUM_ARROWS < old(self).ram().len(),
        ensures
            final(self).ram() == old(self).ram().update(
                LINK_NUM_ARROWS as int,
                old(self).ram()[LINK_NUM_ARROWS as int].wrapping_add(value),
            ),
            final(final(self).ram)@ == final(old(self).ram)@,
    {
        self.ram[LINK_NUM_ARROWS] = self.ram[LINK_NUM_ARROWS].wrapping_add(value);
    }

    pub fn set_arrows(&mut self, value: u8)
        requires
            LINK_NUM_ARROWS < old(self).ram().len(),
        ensures
            final(self).ram() == old(self).ram().update(LINK_NUM_ARROWS as int, value),
            final(final(self).ram)@ == final(old(self).ram)@,
    {
        self.ram[LINK_NUM_ARROWS] = value;
    }

    pub fn decrement_arrows(&mut self) -> (result: u8)
        requires
            LINK_NUM_ARROWS < old(self).ram().len(),
        ensures
            result == old(self).ram()[LINK_NUM_ARROWS as int].wrapping_sub(1),
            final(self).ram() == old(self).ram().update(
                LINK_NUM_ARROWS as int,
                old(self).ram()[LINK_NUM_ARROWS as int].wrapping_sub(1),
            ),
            final(final(self).ram)@ == final(old(self).ram)@,
    {
        self.ram[LINK_NUM_ARROWS] = self.ram[LINK_NUM_ARROWS].wrapping_sub(1);
        self.ram[LINK_NUM_ARROWS]
    }

    pub fn set_current_health(&mut self, value: u8)
        requires
            LINK_CURRENT_HEALTH < old(self).ram().len(),
        ensures
            final(self).ram() == old(self).ram().update(LINK_CURRENT_HEALTH as int, value),
            final(final(self).ram)@ == final(old(self).ram)@,
    {
        self.ram[LINK_CURRENT_HEALTH] = value;
    }

    pub fn increment_current_health_by(&mut self, value: u8)
        requires
            LINK_CURRENT_HEALTH < old(self).ram().len(),
        ensures
            final(self).ram() == old(self).ram().update(
                LINK_CURRENT_HEALTH as int,
                old(self).ram()[LINK_CURRENT_HEALTH as int].wrapping_add(value),
            ),
            final(final(self).ram)@ == final(old(self).ram)@,
    {
        self.ram[LINK_CURRENT_HEALTH] = self.ram[LINK_CURRENT_HEALTH].wrapping_add(value);
    }

    pub fn decrement_current_health_by(&mut self, value: u8) -> (result: u8)
        requires
            LINK_CURRENT_HEALTH < old(self).ram().len(),
        ensures
            result == old(self).ram()[LINK_CURRENT_HEALTH as int].wrapping_sub(value),
            final(self).ram() == old(self).ram().update(
                LINK_CURRENT_HEALTH as int,
                old(self).ram()[LINK_CURRENT_HEALTH as int].wrapping_sub(value),
            ),
            final(final(self).ram)@ == final(old(self).ram)@,
    {
        self.ram[LINK_CURRENT_HEALTH] = self.ram[LINK_CURRENT_HEALTH].wrapping_sub(value);
        self.ram[LINK_CURRENT_HEALTH]
    }

    pub fn set_heart_filler(&mut self, value: u8)
        requires
            LINK_HEARTS_FILLER < old(self).ram().len(),
        ensures
            final(self).ram() == old(self).ram().update(LINK_HEARTS_FILLER as int, value),
            final(final(self).ram)@ == final(old(self).ram)@,
    {
        self.ram[LINK_HEARTS_FILLER] = value;
    }

    pub fn decrement_heart_filler_by(&mut self, value: u8)
        requires
            LINK_HEARTS_FILLER < old(self).ram().len(),
        ensures
            final(self).ram() == old(self).ram().update(
                LINK_HEARTS_FILLER as int,
                old(self).ram()[LINK_HEARTS_FILLER as int].wrapping_sub(value),
            ),
            final(final(self).ram)@ == final(old(self).ram)@,
    {
        self.ram[LINK_HEARTS_FILLER] = self.ram[LINK_HEARTS_FILLER].wrapping_sub(value);
    }

    pub fn decrement_low_health_beep_timer(&mut self)
        requires
            LINK_LOWLIFE_COUNTDOWN_TIMER_BEEP < old(self).ram().len(),
        ensures
            final(self).ram() == old(self).ram().update(
                LINK_LOWLIFE_COUNTDOWN_TIMER_BEEP as int,
                old(self).ram()[LINK_LOWLIFE_COUNTDOWN_TIMER_BEEP as int].wrapping_sub(1),
            ),
            final(final(self).ram)@ == final(old(self).ram)@,
    {
        self.ram[LINK_LOWLIFE_COUNTDOWN_TIMER_BEEP] = self.ram[LINK_LOWLIFE_COUNTDOWN_TIMER_BEEP].wrapping_sub(1);
    }

    pub fn set_low_health_beep_timer(&mut self, value: u8)
        requires
            LINK_LOWLIFE_COUNTDOWN_TIMER_BEEP < old(self).ram().len(),
        ensures
            final(self).ram() == old(self).ram().update(
                LINK_LOWLIFE_COUNTDOWN_TIMER_BEEP as int,
                value,
            ),
            final(final(self).ram)@ == final(old(self).ram)@,
    {
        self.ram[LINK_LOWLIFE_COUNTDOWN_TIMER_BEEP] = value;
    }

    pub fn set_equipped_bottle_index(&mut self, value: u8)
        requires
            LINK_ITEM_BOTTLE_INDEX < old(self).ram().len(),
        ensures
            final(self).ram() == old(self).ram().update(LINK_ITEM_BOTTLE_INDEX as int, value),
            final(final(self).ram)@ == final(old(self).ram)@,
    {
        self.ram[LINK_ITEM_BOTTLE_INDEX] = value;
    }

    pub fn set_rupees_goal(&mut self, value: u16)
        requires
            LINK_RUPEES_GOAL + 1 < old(self).ram().len(),
        ensures
            final(self).ram() == types::with_u16(old(self).ram(), LINK_RUPEES_GOAL as int, value),
            final(final(self).ram)@ == final(old(self).ram)@,
    {
        write_le_u16(self.ram, LINK_RUPEES_GOAL, value);
    }

    pub fn set_rupees_actual(&mut self, value: u16)
        requires
            LINK_RUPEES_ACTUAL + 1 < old(self).ram().len(),
        ensures
            final(self).ram() == types::with_u16(old(self).ram(), LINK_RUPEES_ACTUAL as int, value),
            final(final(self).ram)@ == final(old(self).ram)@,
    {
        write_le_u16(self.ram, LINK_RUPEES_ACTUAL, value);
    }

    pub fn add_rupees_goal(&mut self, value: u16) -> (result: u16)
        requires
            LINK_RUPEES_GOAL + 1 < old(self).ram().len(),
        ensures
            result == types::u16_at(old(self).ram(), LINK_RUPEES_GOAL as int).wrapping_add(value),
            final(self).ram() == types::with_u16(
                old(self).ram(),
                LINK_RUPEES_GOAL as int,
                types::u16_at(old(self).ram(), LINK_RUPEES_GOAL as int)
                    .wrapping_add(value),
            ),
            final(final(self).ram)@ == final(old(self).ram)@,
    {
        let rupees = read_le_u16(self.ram, LINK_RUPEES_GOAL).wrapping_add(value);
        write_le_u16(self.ram, LINK_RUPEES_GOAL, rupees);
        rupees
    }

    pub fn subtract_rupees_goal(&mut self, value: u16) -> (result: u16)
        requires
            LINK_RUPEES_GOAL + 1 < old(self).ram().len(),
        ensures
            result == types::u16_at(old(self).ram(), LINK_RUPEES_GOAL as int).wrapping_sub(value),
            final(self).ram() == types::with_u16(
                old(self).ram(),
                LINK_RUPEES_GOAL as int,
                types::u16_at(old(self).ram(), LINK_RUPEES_GOAL as int)
                    .wrapping_sub(value),
            ),
            final(final(self).ram)@ == final(old(self).ram)@,
    {
        let rupees = read_le_u16(self.ram, LINK_RUPEES_GOAL).wrapping_sub(value);
        write_le_u16(self.ram, LINK_RUPEES_GOAL, rupees);
        rupees
    }

    pub fn set_keys(&mut self, value: u8)
        requires
            LINK_NUM_KEYS < old(self).ram().len(),
        ensures
            final(self).ram() == old(self).ram().update(LINK_NUM_KEYS as int, value),
            final(final(self).ram)@ == final(old(self).ram)@,
    {
        self.ram[LINK_NUM_KEYS] = value;
    }

    pub fn increment_keys(&mut self) -> (result: u8)
        requires
            LINK_NUM_KEYS < old(self).ram().len(),
        ensures
            result == old(self).ram()[LINK_NUM_KEYS as int].wrapping_add(1),
            final(self).ram() == old(self).ram().update(
                LINK_NUM_KEYS as int,
                old(self).ram()[LINK_NUM_KEYS as int].wrapping_add(1),
            ),
            final(final(self).ram)@ == final(old(self).ram)@,
    {
        self.ram[LINK_NUM_KEYS] = self.ram[LINK_NUM_KEYS].wrapping_add(1);
        self.ram[LINK_NUM_KEYS]
    }

    pub fn decrement_keys(&mut self) -> (result: u8)
        requires
            LINK_NUM_KEYS < old(self).ram().len(),
        ensures
            result == old(self).ram()[LINK_NUM_KEYS as int].wrapping_sub(1),
            final(self).ram() == old(self).ram().update(
                LINK_NUM_KEYS as int,
                old(self).ram()[LINK_NUM_KEYS as int].wrapping_sub(1),
            ),
            final(final(self).ram)@ == final(old(self).ram)@,
    {
        self.ram[LINK_NUM_KEYS] = self.ram[LINK_NUM_KEYS].wrapping_sub(1);
        self.ram[LINK_NUM_KEYS]
    }

    pub fn advance_heart_piece_count(&mut self) -> (result: u8)
        requires
            LINK_HEART_PIECES < old(self).ram().len(),
        ensures
            result == (old(self).ram()[LINK_HEART_PIECES as int].wrapping_add(1) & 3u8),
            final(self).ram() == old(self).ram().update(
                LINK_HEART_PIECES as int,
                old(self).ram()[LINK_HEART_PIECES as int].wrapping_add(1) & 3u8,
            ),
            final(final(self).ram)@ == final(old(self).ram)@,
    {
        self.ram[LINK_HEART_PIECES] = self.ram[LINK_HEART_PIECES].wrapping_add(1) & 3;
        self.ram[LINK_HEART_PIECES]
    }

    pub fn add_rupees_to_pond(&mut self, value: u8) -> (result: u8)
        requires
            LINK_RUPEES_IN_POND < old(self).ram().len(),
        ensures
            result == old(self).ram()[LINK_RUPEES_IN_POND as int].wrapping_add(value),
            final(self).ram() == old(self).ram().update(
                LINK_RUPEES_IN_POND as int,
                old(self).ram()[LINK_RUPEES_IN_POND as int].wrapping_add(value),
            ),
            final(final(self).ram)@ == final(old(self).ram)@,
    {
        self.ram[LINK_RUPEES_IN_POND] = self.ram[LINK_RUPEES_IN_POND].wrapping_add(value);
        self.ram[LINK_RUPEES_IN_POND]
    }

    pub fn subtract_pond_reward_threshold(&mut self) -> (result: u8)
        requires
            LINK_RUPEES_IN_POND < old(self).ram().len(),
        ensures
            result == old(self).ram()[LINK_RUPEES_IN_POND as int].wrapping_sub(100),
            final(self).ram() == old(self).ram().update(
                LINK_RUPEES_IN_POND as int,
                old(self).ram()[LINK_RUPEES_IN_POND as int].wrapping_sub(100),
            ),
            final(final(self).ram)@ == final(old(self).ram)@,
    {
        self.ram[LINK_RUPEES_IN_POND] = self.ram[LINK_RUPEES_IN_POND].wrapping_sub(100);
        self.ram[LINK_RUPEES_IN_POND]
    }

    pub fn set_bomb_upgrade_level(&mut self, value: u8)
        requires
            LINK_BOMB_UPGRADES < old(self).ram().len(),
        ensures
            final(self).ram() == old(self).ram().update(LINK_BOMB_UPGRADES as int, value),
            final(final(self).ram)@ == final(old(self).ram)@,
    {
        self.ram[LINK_BOMB_UPGRADES] = value;
    }

    pub fn set_arrow_upgrade_level(&mut self, value: u8)
        requires
            LINK_ARROW_UPGRADES < old(self).ram().len(),
        ensures
            final(self).ram() == old(self).ram().update(LINK_ARROW_UPGRADES as int, value),
            final(final(self).ram)@ == final(old(self).ram)@,
    {
        self.ram[LINK_ARROW_UPGRADES] = value;
    }
}

} // verus!
