use vstd::prelude::*;
use super::access;
use super::access::{byte};
use super::addresses::{
    DAMAGE_TYPE_DETERMINER, ITEM_DROP_COUNTER, ITEM_DROP_LUCK, LUCK_KILL_COUNTER,
    NUM_SPRITES_KILLED, SET_WHEN_DAMAGING_ENEMIES, TIMES_HURT_BY_SPRITES,
};

verus! {

pub struct SpriteBattleView<'a> {
    ram: &'a [u8],
}

impl<'a> SpriteBattleView<'a> {
    /// The bytes of RAM this view reads and writes.
    pub closed spec fn ram(&self) -> Seq<u8> {
        self.ram@
    }

    pub fn new(ram: &'a [u8]) -> (view: Self)
        ensures
            view.ram() == ram@,
    {
        Self { ram }
    }

    pub fn sprites_killed(&self) -> (result: u8)
        ensures
            result == access::byte_at(self.ram(), NUM_SPRITES_KILLED as int),
    {
        byte(self.ram, NUM_SPRITES_KILLED)
    }

    pub fn times_hurt_by_sprites(&self) -> (result: u8)
        ensures
            result == access::byte_at(self.ram(), TIMES_HURT_BY_SPRITES as int),
    {
        byte(self.ram, TIMES_HURT_BY_SPRITES)
    }

    pub fn item_drop_luck(&self) -> (result: u8)
        ensures
            result == access::byte_at(self.ram(), ITEM_DROP_LUCK as int),
    {
        byte(self.ram, ITEM_DROP_LUCK)
    }

    pub fn luck_kill_counter(&self) -> (result: u8)
        ensures
            result == access::byte_at(self.ram(), LUCK_KILL_COUNTER as int),
    {
        byte(self.ram, LUCK_KILL_COUNTER)
    }

    pub fn item_drop_counter(&self) -> (result: u8)
        ensures
            result == access::byte_at(self.ram(), ITEM_DROP_COUNTER as int),
    {
        byte(self.ram, ITEM_DROP_COUNTER)
    }

    pub fn damage_type_determiner(&self) -> (result: u8)
        ensures
            result == access::byte_at(self.ram(), DAMAGE_TYPE_DETERMINER as int),
    {
        byte(self.ram, DAMAGE_TYPE_DETERMINER)
    }

    pub fn damaging_enemies_timer(&self) -> (result: u8)
        ensures
            result == access::byte_at(self.ram(), SET_WHEN_DAMAGING_ENEMIES as int),
    {
        byte(self.ram, SET_WHEN_DAMAGING_ENEMIES)
    }
}

pub struct SpriteBattleViewMut<'a> {
    pub ram: &'a mut [u8],
}

impl<'a> SpriteBattleViewMut<'a> {
    /// The bytes of RAM this view reads and writes.
    pub open spec fn ram(&self) -> Seq<u8> {
        self.ram@
    }

    pub fn new(ram: &'a mut [u8]) -> (view: Self)
        ensures
            view.ram() == old(ram)@,
            final(view.ram)@ == final(ram)@,
    {
        Self { ram }
    }

    pub fn clear_sprites_killed(&mut self)
        requires
            NUM_SPRITES_KILLED < old(self).ram().len(),
        ensures
            final(self).ram() == old(self).ram().update(NUM_SPRITES_KILLED as int, 0u8),
            final(final(self).ram)@ == final(old(self).ram)@,
    {
        self.ram[NUM_SPRITES_KILLED] = 0;
    }

    pub fn clear_times_hurt_by_sprites(&mut self)
        requires
            TIMES_HURT_BY_SPRITES < old(self).ram().len(),
        ensures
            final(self).ram() == old(self).ram().update(TIMES_HURT_BY_SPRITES as int, 0u8),
            final(final(self).ram)@ == final(old(self).ram)@,
    {
        self.ram[TIMES_HURT_BY_SPRITES] = 0;
    }

    pub fn set_item_drop_luck(&mut self, value: u8)
        requires
            ITEM_DROP_LUCK < old(self).ram().len(),
        ensures
            final(self).ram() == old(self).ram().update(ITEM_DROP_LUCK as int, value),
            final(final(self).ram)@ == final(old(self).ram)@,
    {
        self.ram[ITEM_DROP_LUCK] = value;
    }

    pub fn clear_luck_kill_counter(&mut self)
        requires
            LUCK_KILL_COUNTER < old(self).ram().len(),
        ensures
            final(self).ram() == old(self).ram().update(LUCK_KILL_COUNTER as int, 0u8),
            final(final(self).ram)@ == final(old(self).ram)@,
    {
        self.ram[LUCK_KILL_COUNTER] = 0;
    }

    pub fn clear_item_drop_counter(&mut self)
        requires
            ITEM_DROP_COUNTER < old(self).ram().len(),
        ensures
            final(self).ram() == old(self).ram().update(ITEM_DROP_COUNTER as int, 0u8),
            final(final(self).ram)@ == final(old(self).ram)@,
    {
        self.ram[ITEM_DROP_COUNTER] = 0;
    }

    pub fn increment_sprites_killed(&mut self)
        requires
            NUM_SPRITES_KILLED < old(self).ram().len(),
        ensures
            final(self).ram() == old(self).ram().update(
                NUM_SPRITES_KILLED as int,
                old(self).ram()[NUM_SPRITES_KILLED as int].wrapping_add(1),
            ),
            final(final(self).ram)@ == final(old(self).ram)@,
    {
        self.ram[NUM_SPRITES_KILLED] = self.ram[NUM_SPRITES_KILLED].wrapping_add(1);
    }

    pub fn increment_luck_kill_counter(&mut self)
        requires
            LUCK_KILL_COUNTER < old(self).ram().len(),
        ensures
            final(self).ram() == old(self).ram().update(
                LUCK_KILL_COUNTER as int,
                old(self).ram()[LUCK_KILL_COUNTER as int].wrapping_add(1),
            ),
            final(final(self).ram)@ == final(old(self).ram)@,
    {
        self.ram[LUCK_KILL_COUNTER] = self.ram[LUCK_KILL_COUNTER].wrapping_add(1);
    }

    pub fn set_damage_type_determiner(&mut self, value: u8)
        requires
            DAMAGE_TYPE_DETERMINER < old(self).ram().len(),
        ensures
            final(self).ram() == old(self).ram().update(DAMAGE_TYPE_DETERMINER as int, value),
            final(final(self).ram)@ == final(old(self).ram)@,
    {
        self.ram[DAMAGE_TYPE_DETERMINER] = value;
    }

    pub fn set_damaging_enemies_timer(&mut self, value: u8)
        requires
            SET_WHEN_DAMAGING_ENEMIES < old(self).ram().len(),
        ensures
            final(self).ram() == old(self).ram().update(SET_WHEN_DAMAGING_ENEMIES as int, value),
            final(final(self).ram)@ == final(old(self).ram)@,
    {
        self.ram[SET_WHEN_DAMAGING_ENEMIES] = value;
    }

    pub fn clear_damaging_enemies_timer(&mut self)
        requires
            SET_WHEN_DAMAGING_ENEMIES < old(self).ram().len(),
        ensures
            final(self).ram() == old(self).ram().update(SET_WHEN_DAMAGING_ENEMIES as int, 0u8),
            final(final(self).ram)@ == final(old(self).ram)@,
    {
        self.ram[SET_WHEN_DAMAGING_ENEMIES] = 0;
    }

    pub fn tick_damaging_enemies_timer(&mut self)
        requires
            SET_WHEN_DAMAGING_ENEMIES < old(self).ram().len(),
        ensures
            final(self).ram() == (if (old(self).ram()[SET_WHEN_DAMAGING_ENEMIES as int] & 0x7fu8) != 0 {
                old(self).ram()
                    .update(
                        SET_WHEN_DAMAGING_ENEMIES as int,
                        old(self).ram()[SET_WHEN_DAMAGING_ENEMIES as int].wrapping_sub(1),
                    )
            } else {
                old(self).ram().update(SET_WHEN_DAMAGING_ENEMIES as int, 0u8)
            }),
            final(final(self).ram)@ == final(old(self).ram)@,
    {
        if self.ram[SET_WHEN_DAMAGING_ENEMIES] & 0x7f != 0 {
            self.ram[SET_WHEN_DAMAGING_ENEMIES] = self.ram[SET_WHEN_DAMAGING_ENEMIES].wrapping_sub(1);
        } else {
            self.ram[SET_WHEN_DAMAGING_ENEMIES] = 0;
        }
    }

    pub fn increment_item_drop_counter(&mut self) -> (result: u8)
        requires
            ITEM_DROP_COUNTER < old(self).ram().len(),
        ensures
            result == old(self).ram()[ITEM_DROP_COUNTER as int].wrapping_add(1),
            final(self).ram() == old(self).ram().update(
                ITEM_DROP_COUNTER as int,
                old(self).ram()[ITEM_DROP_COUNTER as int].wrapping_add(1),
            ),
            final(final(self).ram)@ == final(old(self).ram)@,
    {
        let v = self.ram[ITEM_DROP_COUNTER].wrapping_add(1);
        self.ram[ITEM_DROP_COUNTER] = v;
        v
    }
}

} // verus!
