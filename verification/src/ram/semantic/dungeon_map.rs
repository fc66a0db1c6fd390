use vstd::prelude::*;
use super::addresses::{DUNGEON_MAP_CURRENT_FLOOR};

verus! {

pub struct DungeonMapViewMut<'a> {
    pub ram: &'a mut [u8],
}

impl<'a> DungeonMapViewMut<'a> {
    /// The bytes of RAM this view reads and writes.
    pub open spec fn ram(&self) -> Seq<u8> {
        self.ram@
    }

    pub fn new(ram: &'a mut [u8]) -> (view: Self)
        ensures
            view.ram() == old(ram)@,
            final(view.ram)@ == final(ram)@,
    {
        Self { ram }
    }

    pub fn clear_current_floor_high(&mut self)
        requires
            DUNGEON_MAP_CURRENT_FLOOR + 1 < old(self).ram().len(),
        ensures
            final(self).ram() == old(self).ram().update(DUNGEON_MAP_CURRENT_FLOOR + 1, 0u8),
            final(final(self).ram)@ == final(old(self).ram)@,
    {
        self.ram[DUNGEON_MAP_CURRENT_FLOOR + 1] = 0;
    }
}

} // verus!
