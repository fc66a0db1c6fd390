use vstd::prelude::*;
use super::access;
use super::access::{byte};
use super::addresses::{
    DUNGEON_HEADER_HOLE_TELEPORTER_PLANE, DUNGEON_HEADER_STAIRCASE_PLANE,
    DUNGEON_HEADER_TRAVEL_DESTINATIONS,
};

verus! {

pub struct DungeonHeaderView<'a> {
    ram: &'a [u8],
}

impl<'a> DungeonHeaderView<'a> {
    /// The bytes of RAM this view reads and writes.
    pub closed spec fn ram(&self) -> Seq<u8> {
        self.ram@
    }

    pub fn new(ram: &'a [u8]) -> (view: Self)
        ensures
            view.ram() == ram@,
    {
        Self { ram }
    }

    pub fn travel_destination(&self, index: usize) -> (result: u8)
        requires
            DUNGEON_HEADER_TRAVEL_DESTINATIONS + index <= usize::MAX,
        ensures
            result == access::byte_at(self.ram(), DUNGEON_HEADER_TRAVEL_DESTINATIONS + index),
    {
        byte(self.ram, DUNGEON_HEADER_TRAVEL_DESTINATIONS + index)
    }

    pub fn staircase_plane(&self, index: usize) -> (result: u8)
        requires
            DUNGEON_HEADER_STAIRCASE_PLANE + index <= usize::MAX,
        ensures
            result == access::byte_at(self.ram(), DUNGEON_HEADER_STAIRCASE_PLANE + index),
    {
        byte(self.ram, DUNGEON_HEADER_STAIRCASE_PLANE + index)
    }
}

pub struct DungeonHeaderViewMut<'a> {
    pub ram: &'a mut [u8],
}

impl<'a> DungeonHeaderViewMut<'a> {
    /// The bytes of RAM this view reads and writes.
    pub open spec fn ram(&self) -> Seq<u8> {
        self.ram@
    }

    pub fn new(ram: &'a mut [u8]) -> (view: Self)
        ensures
            view.ram() == old(ram)@,
            final(view.ram)@ == final(ram)@,
    {
        Self { ram }
    }

    pub fn set_hole_teleporter_planes(&mut self, packed: u8, extra: u8)
        requires
            DUNGEON_HEADER_HOLE_TELEPORTER_PLANE < old(self).ram().len(),
            DUNGEON_HEADER_HOLE_TELEPORTER_PLANE + 1 < old(self).ram().len(),
            DUNGEON_HEADER_HOLE_TELEPORTER_PLANE + 2 < old(self).ram().len(),
            DUNGEON_HEADER_HOLE_TELEPORTER_PLANE + 3 < old(self).ram().len(),
            DUNGEON_HEADER_HOLE_TELEPORTER_PLANE + 4 < old(self).ram().len(),
        ensures
            final(self).ram() == old(self).ram()
                .update(DUNGEON_HEADER_HOLE_TELEPORTER_PLANE as int, packed & 3u8)
                .update(DUNGEON_HEADER_HOLE_TELEPORTER_PLANE + 1, (packed >> 2) & 3u8)
                .update(DUNGEON_HEADER_HOLE_TELEPORTER_PLANE + 2, (packed >> 4) & 3u8)
                .update(DUNGEON_HEADER_HOLE_TELEPORTER_PLANE + 3, (packed >> 6) & 3u8)
                .update(DUNGEON_HEADER_HOLE_TELEPORTER_PLANE + 4, extra & 3u8),
            final(final(self).ram)@ == final(old(self).ram)@,
    {
        self.ram[DUNGEON_HEADER_HOLE_TELEPORTER_PLANE] = packed & 3;
        self.ram[DUNGEON_HEADER_HOLE_TELEPORTER_PLANE + 1] = (packed >> 2) & 3;
        self.ram[DUNGEON_HEADER_HOLE_TELEPORTER_PLANE + 2] = (packed >> 4) & 3;
        self.ram[DUNGEON_HEADER_HOLE_TELEPORTER_PLANE + 3] = (packed >> 6) & 3;
        self.ram[DUNGEON_HEADER_HOLE_TELEPORTER_PLANE + 4] = extra & 3;
    }
}

} // verus!
