use vstd::prelude::*;
use super::access;
use super::access::{byte};
use super::addresses::{OVERWORLD_SPRITE_PRESENCE};

verus! {

pub struct OverworldSpritePresenceView<'a> {
    ram: &'a [u8],
}

impl<'a> OverworldSpritePresenceView<'a> {
    /// The bytes of RAM this view reads and writes.
    pub closed spec fn ram(&self) -> Seq<u8> {
        self.ram@
    }

    pub fn new(ram: &'a [u8]) -> (view: Self)
        ensures
            view.ram() == ram@,
    {
        Self { ram }
    }

    pub fn marker(&self, index: usize) -> (result: u8)
        requires
            OVERWORLD_SPRITE_PRESENCE + index <= usize::MAX,
        ensures
            result == access::byte_at(self.ram(), OVERWORLD_SPRITE_PRESENCE + index),
    {
        byte(self.ram, OVERWORLD_SPRITE_PRESENCE + index)
    }
}

pub struct OverworldSpritePresenceViewMut<'a> {
    pub ram: &'a mut [u8],
}

impl<'a> OverworldSpritePresenceViewMut<'a> {
    /// The bytes of RAM this view reads and writes.
    pub open spec fn ram(&self) -> Seq<u8> {
        self.ram@
    }

    pub fn new(ram: &'a mut [u8]) -> (view: Self)
        ensures
            view.ram() == old(ram)@,
            final(view.ram)@ == final(ram)@,
    {
        Self { ram }
    }

    pub fn set_marker(&mut self, index: usize, value: u8)
        requires
            OVERWORLD_SPRITE_PRESENCE + index < old(self).ram().len(),
        ensures
            final(self).ram() == old(self).ram().update(OVERWORLD_SPRITE_PRESENCE + index, value),
            final(final(self).ram)@ == final(old(self).ram)@,
    {
        proof {
            assert(self.ram@.len() == self.ram.len());
        }
        self.ram[OVERWORLD_SPRITE_PRESENCE + index] = value;
    }
}

} // verus!
