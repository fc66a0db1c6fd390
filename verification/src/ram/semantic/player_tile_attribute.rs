use vstd::prelude::*;
use super::access;
use super::access::{byte};
use super::addresses::{ATTRIBUTES_FOR_TILE_PLAYER};

verus! {

pub struct PlayerTileAttributeView<'a> {
    ram: &'a [u8],
}

impl<'a> PlayerTileAttributeView<'a> {
    /// The bytes of RAM this view reads and writes.
    pub closed spec fn ram(&self) -> Seq<u8> {
        self.ram@
    }

    pub fn new(ram: &'a [u8]) -> (view: Self)
        ensures
            view.ram() == ram@,
    {
        Self { ram }
    }

    pub fn attr_for_tile(&self, tile: usize) -> (result: u8)
        requires
            ATTRIBUTES_FOR_TILE_PLAYER + (tile & 0x03ffusize) <= usize::MAX,
        ensures
            result == access::byte_at(self.ram(), ATTRIBUTES_FOR_TILE_PLAYER + (tile & 0x03ffusize)),
    {
        byte(self.ram, ATTRIBUTES_FOR_TILE_PLAYER + (tile & 0x03ff))
    }
}

} // verus!
