use vstd::prelude::*;
use super::access;
use super::access::{byte, fill_bytes};
use super::addresses::{OVERWORLD_SPRITE_WAS_LOADED};

verus! {

pub struct OverworldSpriteLoadedView<'a> {
    ram: &'a [u8],
}

impl<'a> OverworldSpriteLoadedView<'a> {
    /// The bytes of RAM this view reads and writes.
    pub closed spec fn ram(&self) -> Seq<u8> {
        self.ram@
    }

    pub fn new(ram: &'a [u8]) -> (view: Self)
        ensures
            view.ram() == ram@,
    {
        Self { ram }
    }

    pub fn is_loaded(&self, block: u16, loaded_mask: u8) -> (result: bool)
        requires
            OVERWORLD_SPRITE_WAS_LOADED + ((block >> 3) as usize) <= usize::MAX,
        ensures
            result == ((access::byte_at(self.ram(), OVERWORLD_SPRITE_WAS_LOADED + ((block >> 3) as usize)) & loaded_mask) != 0),
    {
        byte(self.ram, OVERWORLD_SPRITE_WAS_LOADED + (block >> 3) as usize) & loaded_mask != 0
    }
}

pub struct OverworldSpriteLoadedViewMut<'a> {
    pub ram: &'a mut [u8],
}

impl<'a> OverworldSpriteLoadedViewMut<'a> {
    /// The bytes of RAM this view reads and writes.
    pub open spec fn ram(&self) -> Seq<u8> {
        self.ram@
    }

    pub fn new(ram: &'a mut [u8]) -> (view: Self)
        ensures
            view.ram() == old(ram)@,
            final(view.ram)@ == final(ram)@,
    {
        Self { ram }
    }

    pub fn clear_loaded_mask(&mut self, block: u16, loaded_mask: u8)
        requires
            OVERWORLD_SPRITE_WAS_LOADED + ((block >> 3) as usize) < old(self).ram().len(),
        ensures
            final(self).ram() == old(self).ram().update(
                OVERWORLD_SPRITE_WAS_LOADED + ((block >> 3) as usize),
                old(self).ram()[OVERWORLD_SPRITE_WAS_LOADED + ((block >> 3) as usize)] & (!loaded_mask),
            ),
            final(final(self).ram)@ == final(old(self).ram)@,
    {
        proof {
            assert(self.ram@.len() == self.ram.len());
        }
        self.ram[OVERWORLD_SPRITE_WAS_LOADED + (block >> 3) as usize] &= !loaded_mask;
    }

    /// Same as `clear_loaded_mask`, but wraps the byte index into the low
    /// 128 KiB of RAM.
    pub fn clear_loaded_mask_wrapped(&mut self, block: u16, loaded_mask: u8)
        requires
            ((OVERWORLD_SPRITE_WAS_LOADED + (block >> 3) as usize) as usize & 0x1ffffusize)
                < old(self).ram().len(),
        ensures
            final(self).ram() == old(self).ram().update(
                ((OVERWORLD_SPRITE_WAS_LOADED + (block >> 3) as usize) as usize & 0x1ffffusize) as int,
                old(self).ram()[((OVERWORLD_SPRITE_WAS_LOADED + (block >> 3) as usize) as usize
                    & 0x1ffffusize) as int] & !loaded_mask,
            ),
            final(final(self).ram)@ == final(old(self).ram)@,
    {
        self.ram[(OVERWORLD_SPRITE_WAS_LOADED + (block >> 3) as usize) & 0x1ffff] &= !loaded_mask;
    }

    pub fn set_loaded_mask(&mut self, block: u16, loaded_mask: u8)
        requires
            OVERWORLD_SPRITE_WAS_LOADED + ((block >> 3) as usize) < old(self).ram().len(),
        ensures
            final(self).ram() == old(self).ram().update(
                OVERWORLD_SPRITE_WAS_LOADED + ((block >> 3) as usize),
                old(self).ram()[OVERWORLD_SPRITE_WAS_LOADED + ((block >> 3) as usize)]
                    | loaded_mask,
            ),
            final(final(self).ram)@ == final(old(self).ram)@,
    {
        proof {
            assert(self.ram@.len() == self.ram.len());
        }
        self.ram[OVERWORLD_SPRITE_WAS_LOADED + (block >> 3) as usize] |= loaded_mask;
    }

    pub fn clear_all(&mut self)
        requires
            OVERWORLD_SPRITE_WAS_LOADED + 0x200 <= old(self).ram().len(),
        ensures
            final(self).ram() == access::filled(
                old(self).ram(),
                OVERWORLD_SPRITE_WAS_LOADED as int,
                OVERWORLD_SPRITE_WAS_LOADED + 0x200,
                0u8,
            ),
            final(final(self).ram)@ == final(old(self).ram)@,
    {
        fill_bytes(self.ram, OVERWORLD_SPRITE_WAS_LOADED, OVERWORLD_SPRITE_WAS_LOADED + 0x200, 0);
    }
}

} // verus!
