use vstd::prelude::*;
use super::access;
use super::access::{byte};
use super::addresses::{FLAG_FOR_BOOMERANG_IN_PLACE, IS_ARCHER_OR_SHOVEL_GAME, MINIGAME_CREDITS};

verus! {

pub struct MinigameStateView<'a> {
    ram: &'a [u8],
}

impl<'a> MinigameStateView<'a> {
    /// The bytes of RAM this view reads and writes.
    pub closed spec fn ram(&self) -> Seq<u8> {
        self.ram@
    }

    pub fn new(ram: &'a [u8]) -> (view: Self)
        ensures
            view.ram() == ram@,
    {
        Self { ram }
    }

    pub fn is_archer_or_shovel_game(&self) -> (result: u8)
        ensures
            result == access::byte_at(self.ram(), IS_ARCHER_OR_SHOVEL_GAME as int),
    {
        byte(self.ram, IS_ARCHER_OR_SHOVEL_GAME)
    }

    pub fn credits(&self) -> (result: u8)
        ensures
            result == access::byte_at(self.ram(), MINIGAME_CREDITS as int),
    {
        byte(self.ram, MINIGAME_CREDITS)
    }

    pub fn flag_boomerang_in_place(&self) -> (result: u8)
        ensures
            result == access::byte_at(self.ram(), FLAG_FOR_BOOMERANG_IN_PLACE as int),
    {
        byte(self.ram, FLAG_FOR_BOOMERANG_IN_PLACE)
    }
}

pub struct MinigameStateViewMut<'a> {
    pub ram: &'a mut [u8],
}

impl<'a> MinigameStateViewMut<'a> {
    /// The bytes of RAM this view reads and writes.
    pub open spec fn ram(&self) -> Seq<u8> {
        self.ram@
    }

    pub fn new(ram: &'a mut [u8]) -> (view: Self)
        ensures
            view.ram() == old(ram)@,
            final(view.ram)@ == final(ram)@,
    {
        Self { ram }
    }

    pub fn set_is_archer_or_shovel_game(&mut self, value: u8)
        requires
            IS_ARCHER_OR_SHOVEL_GAME < old(self).ram().len(),
        ensures
            final(self).ram() == old(self).ram().update(IS_ARCHER_OR_SHOVEL_GAME as int, value),
            final(final(self).ram)@ == final(old(self).ram)@,
    {
        self.ram[IS_ARCHER_OR_SHOVEL_GAME] = value;
    }

    pub fn clear_is_archer_or_shovel_game(&mut self)
        requires
            IS_ARCHER_OR_SHOVEL_GAME < old(self).ram().len(),
        ensures
            final(self).ram() == old(self).ram().update(IS_ARCHER_OR_SHOVEL_GAME as int, 0u8),
            final(final(self).ram)@ == final(old(self).ram)@,
    {
        self.ram[IS_ARCHER_OR_SHOVEL_GAME] = 0;
    }

    pub fn set_credits(&mut self, value: u8)
        requires
            MINIGAME_CREDITS < old(self).ram().len(),
        ensures
            final(self).ram() == old(self).ram().update(MINIGAME_CREDITS as int, value),
            final(final(self).ram)@ == final(old(self).ram)@,
    {
        self.ram[MINIGAME_CREDITS] = value;
    }

    pub fn clear_flag_boomerang_in_place(&mut self)
        requires
            FLAG_FOR_BOOMERANG_IN_PLACE < old(self).ram().len(),
        ensures
            final(self).ram() == old(self).ram().update(FLAG_FOR_BOOMERANG_IN_PLACE as int, 0u8),
            final(final(self).ram)@ == final(old(self).ram)@,
    {
        self.ram[FLAG_FOR_BOOMERANG_IN_PLACE] = 0;
    }
}

} // verus!
