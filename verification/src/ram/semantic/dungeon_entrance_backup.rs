use vstd::prelude::*;
use super::addresses::{
    AUX_TILE_THEME_INDEX, MAIN_TILE_THEME_INDEX, OVERLAY_INDEX, OVERWORLD_EXIT_TILE_THEME_INDEX,
    OVERWORLD_SCREEN_INDEX, OVERWORLD_TILE_THEME_INDEX, SPRITE_GRAPHICS_INDEX,
};

verus! {

pub struct DungeonEntranceBackupViewMut<'a> {
    pub ram: &'a mut [u8],
}

impl<'a> DungeonEntranceBackupViewMut<'a> {
    /// The bytes of RAM this view reads and writes.
    pub open spec fn ram(&self) -> Seq<u8> {
        self.ram@
    }

    pub fn new(ram: &'a mut [u8]) -> (view: Self)
        ensures
            view.ram() == old(ram)@,
            final(view.ram)@ == final(ram)@,
    {
        Self { ram }
    }

    pub fn cache_exit_tile_themes(&mut self)
        requires
            OVERWORLD_EXIT_TILE_THEME_INDEX < old(self).ram().len(),
            OVERWORLD_TILE_THEME_INDEX < old(self).ram().len(),
            OVERWORLD_EXIT_TILE_THEME_INDEX + 1 < old(self).ram().len(),
            MAIN_TILE_THEME_INDEX < old(self).ram().len(),
            OVERWORLD_EXIT_TILE_THEME_INDEX + 2 < old(self).ram().len(),
            AUX_TILE_THEME_INDEX < old(self).ram().len(),
            OVERWORLD_EXIT_TILE_THEME_INDEX + 3 < old(self).ram().len(),
            SPRITE_GRAPHICS_INDEX < old(self).ram().len(),
        ensures
            final(self).ram() == old(self).ram()
                .update(
                    OVERWORLD_EXIT_TILE_THEME_INDEX as int,
                    old(self).ram()[OVERWORLD_TILE_THEME_INDEX as int],
                )
                .update(
                    OVERWORLD_EXIT_TILE_THEME_INDEX + 1,
                    old(self).ram()[MAIN_TILE_THEME_INDEX as int],
                )
                .update(
                    OVERWORLD_EXIT_TILE_THEME_INDEX + 2,
                    old(self).ram()[AUX_TILE_THEME_INDEX as int],
                )
                .update(
                    OVERWORLD_EXIT_TILE_THEME_INDEX + 3,
                    old(self).ram()[SPRITE_GRAPHICS_INDEX as int],
                ),
            final(final(self).ram)@ == final(old(self).ram)@,
    {
        self.ram[OVERWORLD_EXIT_TILE_THEME_INDEX] = self.ram[OVERWORLD_TILE_THEME_INDEX];
        self.ram[OVERWORLD_EXIT_TILE_THEME_INDEX + 1] = self.ram[MAIN_TILE_THEME_INDEX];
        self.ram[OVERWORLD_EXIT_TILE_THEME_INDEX + 2] = self.ram[AUX_TILE_THEME_INDEX];
        self.ram[OVERWORLD_EXIT_TILE_THEME_INDEX + 3] = self.ram[SPRITE_GRAPHICS_INDEX];
    }

    pub fn clear_overworld_screen_high(&mut self)
        requires
            OVERWORLD_SCREEN_INDEX + 1 < old(self).ram().len(),
        ensures
            final(self).ram() == old(self).ram().update(OVERWORLD_SCREEN_INDEX + 1, 0u8),
            final(final(self).ram)@ == final(old(self).ram)@,
    {
        self.ram[OVERWORLD_SCREEN_INDEX + 1] = 0;
    }

    pub fn clear_overlay_high(&mut self)
        requires
            OVERLAY_INDEX + 1 < old(self).ram().len(),
        ensures
            final(self).ram() == old(self).ram().update(OVERLAY_INDEX + 1, 0u8),
            final(final(self).ram)@ == final(old(self).ram)@,
    {
        self.ram[OVERLAY_INDEX + 1] = 0;
    }
}

} // verus!
