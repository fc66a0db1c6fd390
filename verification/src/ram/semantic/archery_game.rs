use vstd::prelude::*;
use super::access;
use super::access::{byte};
use super::addresses::{
    ARCHERY_GAME_ARROWS_LEFT, ARCHERY_GAME_HIT_COUNTER, ARCHERY_GAME_OUT_OF_ARROWS,
};

verus! {

pub struct ArcheryGameView<'a> {
    ram: &'a [u8],
}

impl<'a> ArcheryGameView<'a> {
    /// The bytes of RAM this view reads and writes.
    pub closed spec fn ram(&self) -> Seq<u8> {
        self.ram@
    }

    pub fn new(ram: &'a [u8]) -> (view: Self)
        ensures
            view.ram() == ram@,
    {
        Self { ram }
    }

    pub fn hit_counter(&self) -> (result: u8)
        ensures
            result == access::byte_at(self.ram(), ARCHERY_GAME_HIT_COUNTER as int),
    {
        byte(self.ram, ARCHERY_GAME_HIT_COUNTER)
    }

    pub fn arrows_left(&self) -> (result: u8)
        ensures
            result == access::byte_at(self.ram(), ARCHERY_GAME_ARROWS_LEFT as int),
    {
        byte(self.ram, ARCHERY_GAME_ARROWS_LEFT)
    }

    pub fn out_of_arrows(&self) -> (result: u8)
        ensures
            result == access::byte_at(self.ram(), ARCHERY_GAME_OUT_OF_ARROWS as int),
    {
        byte(self.ram, ARCHERY_GAME_OUT_OF_ARROWS)
    }
}

pub struct ArcheryGameViewMut<'a> {
    pub ram: &'a mut [u8],
}

impl<'a> ArcheryGameViewMut<'a> {
    /// The bytes of RAM this view reads and writes.
    pub open spec fn ram(&self) -> Seq<u8> {
        self.ram@
    }

    pub fn new(ram: &'a mut [u8]) -> (view: Self)
        ensures
            view.ram() == old(ram)@,
            final(view.ram)@ == final(ram)@,
    {
        Self { ram }
    }

    pub fn clear_hit_counter(&mut self)
        requires
            ARCHERY_GAME_HIT_COUNTER < old(self).ram().len(),
        ensures
            final(self).ram() == old(self).ram().update(ARCHERY_GAME_HIT_COUNTER as int, 0u8),
            final(final(self).ram)@ == final(old(self).ram)@,
    {
        self.ram[ARCHERY_GAME_HIT_COUNTER] = 0;
    }

    pub fn set_arrows_left(&mut self, value: u8)
        requires
            ARCHERY_GAME_ARROWS_LEFT < old(self).ram().len(),
        ensures
            final(self).ram() == old(self).ram().update(ARCHERY_GAME_ARROWS_LEFT as int, value),
            final(final(self).ram)@ == final(old(self).ram)@,
    {
        self.ram[ARCHERY_GAME_ARROWS_LEFT] = value;
    }

    pub fn increment_out_of_arrows(&mut self)
        requires
            ARCHERY_GAME_OUT_OF_ARROWS < old(self).ram().len(),
        ensures
            final(self).ram() == old(self).ram().update(
                ARCHERY_GAME_OUT_OF_ARROWS as int,
                old(self).ram()[ARCHERY_GAME_OUT_OF_ARROWS as int].wrapping_add(1),
            ),
            final(final(self).ram)@ == final(old(self).ram)@,
    {
        self.ram[ARCHERY_GAME_OUT_OF_ARROWS] = self.ram[ARCHERY_GAME_OUT_OF_ARROWS].wrapping_add(1);
    }

    pub fn clear_out_of_arrows(&mut self)
        requires
            ARCHERY_GAME_OUT_OF_ARROWS < old(self).ram().len(),
        ensures
            final(self).ram() == old(self).ram().update(ARCHERY_GAME_OUT_OF_ARROWS as int, 0u8),
            final(final(self).ram)@ == final(old(self).ram)@,
    {
        self.ram[ARCHERY_GAME_OUT_OF_ARROWS] = 0;
    }
}

} // verus!
