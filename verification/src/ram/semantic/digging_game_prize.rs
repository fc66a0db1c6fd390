use vstd::prelude::*;
use super::access;
use super::access::{byte};
use super::addresses::{DIGGING_GAME_PRIZE_ATTEMPTS, DIGGING_GAME_PRIZE_SPAWNED};

verus! {

pub struct DiggingGamePrizeView<'a> {
    ram: &'a [u8],
}

impl<'a> DiggingGamePrizeView<'a> {
    /// The bytes of RAM this view reads and writes.
    pub closed spec fn ram(&self) -> Seq<u8> {
        self.ram@
    }

    pub fn new(ram: &'a [u8]) -> (view: Self)
        ensures
            view.ram() == ram@,
    {
        Self { ram }
    }

    pub fn attempts(&self) -> (result: u8)
        ensures
            result == access::byte_at(self.ram(), DIGGING_GAME_PRIZE_ATTEMPTS as int),
    {
        byte(self.ram, DIGGING_GAME_PRIZE_ATTEMPTS)
    }

    pub fn spawned_marker(&self) -> (result: u8)
        ensures
            result == access::byte_at(self.ram(), DIGGING_GAME_PRIZE_SPAWNED as int),
    {
        byte(self.ram, DIGGING_GAME_PRIZE_SPAWNED)
    }
}

pub struct DiggingGamePrizeViewMut<'a> {
    pub ram: &'a mut [u8],
}

impl<'a> DiggingGamePrizeViewMut<'a> {
    /// The bytes of RAM this view reads and writes.
    pub open spec fn ram(&self) -> Seq<u8> {
        self.ram@
    }

    pub fn new(ram: &'a mut [u8]) -> (view: Self)
        ensures
            view.ram() == old(ram)@,
            final(view.ram)@ == final(ram)@,
    {
        Self { ram }
    }

    pub fn increment_attempts(&mut self)
        requires
            DIGGING_GAME_PRIZE_ATTEMPTS < old(self).ram().len(),
        ensures
            final(self).ram() == old(self).ram().update(
                DIGGING_GAME_PRIZE_ATTEMPTS as int,
                old(self).ram()[DIGGING_GAME_PRIZE_ATTEMPTS as int].wrapping_add(1),
            ),
            final(final(self).ram)@ == final(old(self).ram)@,
    {
        self.ram[DIGGING_GAME_PRIZE_ATTEMPTS] = self.ram[DIGGING_GAME_PRIZE_ATTEMPTS].wrapping_add(1);
    }

    pub fn mark_spawned(&mut self)
        requires
            DIGGING_GAME_PRIZE_SPAWNED < old(self).ram().len(),
        ensures
            final(self).ram() == old(self).ram().update(DIGGING_GAME_PRIZE_SPAWNED as int, 0xebu8),
            final(final(self).ram)@ == final(old(self).ram)@,
    {
        self.ram[DIGGING_GAME_PRIZE_SPAWNED] = 0xeb;
    }

    pub fn clear_prize_spawned(&mut self)
        requires
            DIGGING_GAME_PRIZE_SPAWNED < old(self).ram().len(),
        ensures
            final(self).ram() == old(self).ram().update(DIGGING_GAME_PRIZE_SPAWNED as int, 0u8),
            final(final(self).ram)@ == final(old(self).ram)@,
    {
        self.ram[DIGGING_GAME_PRIZE_SPAWNED] = 0;
    }
}

} // verus!
