use vstd::prelude::*;
use super::access;
use super::access::{byte};
use super::addresses::{DUAL_LAYER_TILE_CACHE};

verus! {

pub struct DualLayerTileCacheView<'a> {
    ram: &'a [u8],
}

impl<'a> DualLayerTileCacheView<'a> {
    /// The bytes of RAM this view reads and writes.
    pub closed spec fn ram(&self) -> Seq<u8> {
        self.ram@
    }

    pub fn new(ram: &'a [u8]) -> (view: Self)
        ensures
            view.ram() == ram@,
    {
        Self { ram }
    }

    pub fn tile_type(&self, slot: usize) -> (result: u8)
        requires
            DUAL_LAYER_TILE_CACHE + slot <= usize::MAX,
        ensures
            result == access::byte_at(self.ram(), DUAL_LAYER_TILE_CACHE + slot),
    {
        byte(self.ram, DUAL_LAYER_TILE_CACHE + slot)
    }
}

pub struct DualLayerTileCacheViewMut<'a> {
    pub ram: &'a mut [u8],
}

impl<'a> DualLayerTileCacheViewMut<'a> {
    /// The bytes of RAM this view reads and writes.
    pub open spec fn ram(&self) -> Seq<u8> {
        self.ram@
    }

    pub fn new(ram: &'a mut [u8]) -> (view: Self)
        ensures
            view.ram() == old(ram)@,
            final(view.ram)@ == final(ram)@,
    {
        Self { ram }
    }

    pub fn set_tile_type(&mut self, slot: usize, value: u8)
        requires
            DUAL_LAYER_TILE_CACHE + slot < old(self).ram().len(),
        ensures
            final(self).ram() == old(self).ram().update(DUAL_LAYER_TILE_CACHE + slot, value),
            final(final(self).ram)@ == final(old(self).ram)@,
    {
        proof {
            assert(self.ram@.len() == self.ram.len());
        }
        self.ram[DUAL_LAYER_TILE_CACHE + slot] = value;
    }
}

} // verus!
