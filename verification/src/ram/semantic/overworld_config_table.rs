use vstd::prelude::*;
use super::access;
use super::access::{byte, copy_bytes};
use super::addresses::{
    OVERWORLD_MUSIC_TABLE, OVERWORLD_SCREEN_INDEX, OVERWORLD_SPRITE_GFX_TABLE,
    OVERWORLD_SPRITE_PALETTE_TABLE,
};
use vstd::slice::{slice_subrange};

verus! {

pub struct OverworldConfigTableView<'a> {
    ram: &'a [u8],
}

impl<'a> OverworldConfigTableView<'a> {
    /// The bytes of RAM this view reads and writes.
    pub closed spec fn ram(&self) -> Seq<u8> {
        self.ram@
    }

    pub fn new(ram: &'a [u8]) -> (view: Self)
        ensures
            view.ram() == ram@,
    {
        Self { ram }
    }

    pub fn music(&self, screen: usize) -> (result: u8)
        requires
            OVERWORLD_MUSIC_TABLE + screen <= usize::MAX,
        ensures
            result == access::byte_at(self.ram(), OVERWORLD_MUSIC_TABLE + screen),
    {
        byte(self.ram, OVERWORLD_MUSIC_TABLE + screen)
    }

    pub fn current_music(&self) -> (result: u8)
        requires
            OVERWORLD_MUSIC_TABLE + (access::byte_at(self.ram(), OVERWORLD_SCREEN_INDEX as int) as usize) <= usize::MAX,
        ensures
            result == access::byte_at(
                self.ram(),
                OVERWORLD_MUSIC_TABLE + (access::byte_at(self.ram(), OVERWORLD_SCREEN_INDEX as int) as usize),
            ),
    {
        self.music(byte(self.ram, OVERWORLD_SCREEN_INDEX) as usize)
    }

    pub fn sprite_palette(&self, screen: usize) -> (result: u8)
        requires
            OVERWORLD_SPRITE_PALETTE_TABLE + screen <= usize::MAX,
        ensures
            result == access::byte_at(self.ram(), OVERWORLD_SPRITE_PALETTE_TABLE + screen),
    {
        byte(self.ram, OVERWORLD_SPRITE_PALETTE_TABLE + screen)
    }

    pub fn sprite_graphics(&self, screen: usize) -> (result: u8)
        requires
            OVERWORLD_SPRITE_GFX_TABLE + screen <= usize::MAX,
        ensures
            result == access::byte_at(self.ram(), OVERWORLD_SPRITE_GFX_TABLE + screen),
    {
        byte(self.ram, OVERWORLD_SPRITE_GFX_TABLE + screen)
    }
}

pub struct OverworldConfigTableViewMut<'a> {
    pub ram: &'a mut [u8],
}

impl<'a> OverworldConfigTableViewMut<'a> {
    /// The bytes of RAM this view reads and writes.
    pub open spec fn ram(&self) -> Seq<u8> {
        self.ram@
    }

    pub fn new(ram: &'a mut [u8]) -> (view: Self)
        ensures
            view.ram() == old(ram)@,
            final(view.ram)@ == final(ram)@,
    {
        Self { ram }
    }

    pub fn copy_music_primary(&mut self, data: &[u8])
        requires
            OVERWORLD_MUSIC_TABLE + 64 <= old(self).ram().len(),
            64 <= data@.len(),
        ensures
            final(self).ram() == access::copied(
                old(self).ram(),
                OVERWORLD_MUSIC_TABLE as int,
                data@.subrange(0, 64 as int),
            ),
            final(final(self).ram)@ == final(old(self).ram)@,
    {
        copy_bytes(self.ram, OVERWORLD_MUSIC_TABLE, slice_subrange(data, 0, 64));
    }

    pub fn copy_music_secondary(&mut self, data: &[u8])
        requires
            OVERWORLD_MUSIC_TABLE + 160 <= old(self).ram().len(),
            96 <= data@.len(),
        ensures
            final(self).ram() == access::copied(
                old(self).ram(),
                OVERWORLD_MUSIC_TABLE + 64,
                data@.subrange(0, 96 as int),
            ),
            final(final(self).ram)@ == final(old(self).ram)@,
    {
        copy_bytes(self.ram, OVERWORLD_MUSIC_TABLE + 64, slice_subrange(data, 0, 96));
    }

    pub fn set_music(&mut self, screen: usize, value: u8)
        requires
            OVERWORLD_MUSIC_TABLE + screen < old(self).ram().len(),
        ensures
            final(self).ram() == old(self).ram().update(OVERWORLD_MUSIC_TABLE + screen, value),
            final(final(self).ram)@ == final(old(self).ram)@,
    {
        proof {
            assert(self.ram@.len() == self.ram.len());
        }
        self.ram[OVERWORLD_MUSIC_TABLE + screen] = value;
    }
}

} // verus!
