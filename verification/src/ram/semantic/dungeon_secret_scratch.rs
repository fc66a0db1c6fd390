use vstd::prelude::*;
use super::access;
use super::access::{byte};
use super::addresses::{DUNGEON_SECRET_PENDING_KIND, OVERWORLD_SECRET_SUBST_CTR};
use crate::types;
use crate::types::{write_le_u16};

verus! {

pub struct DungeonSecretScratchView<'a> {
    ram: &'a [u8],
}

impl<'a> DungeonSecretScratchView<'a> {
    /// The bytes of RAM this view reads and writes.
    pub closed spec fn ram(&self) -> Seq<u8> {
        self.ram@
    }

    pub fn new(ram: &'a [u8]) -> (view: Self)
        ensures
            view.ram() == ram@,
    {
        Self { ram }
    }

    pub fn pending_kind(&self) -> (result: u8)
        ensures
            result == access::byte_at(self.ram(), DUNGEON_SECRET_PENDING_KIND as int),
    {
        byte(self.ram, DUNGEON_SECRET_PENDING_KIND)
    }

    pub fn overworld_subst_counter(&self) -> (result: u8)
        ensures
            result == access::byte_at(self.ram(), OVERWORLD_SECRET_SUBST_CTR as int),
    {
        byte(self.ram, OVERWORLD_SECRET_SUBST_CTR)
    }

    pub fn has_pending_kind(&self) -> (result: bool)
        ensures
            result == (access::byte_at(self.ram(), DUNGEON_SECRET_PENDING_KIND as int) != 0),
    {
        self.pending_kind() != 0
    }

    pub fn is_available(&self) -> (result: bool)
        ensures
            result == (access::byte_at(self.ram(), DUNGEON_SECRET_PENDING_KIND as int) != 0xff),
    {
        self.pending_kind() != 0xff
    }

    pub fn graphics_kind(&self) -> (result: Option<u8>)
        ensures
            result == (if (access::byte_at(self.ram(), DUNGEON_SECRET_PENDING_KIND as int) & 0x80u8) != 0 {
                Some(access::byte_at(self.ram(), DUNGEON_SECRET_PENDING_KIND as int) & 0x7fu8)
            } else {
                None
            }),
    {
        let value = self.pending_kind();
        if value & 0x80 != 0 {
            Some(value & 0x7f)
        } else {
            None
        }
    }
}

pub struct DungeonSecretScratchViewMut<'a> {
    pub ram: &'a mut [u8],
}

impl<'a> DungeonSecretScratchViewMut<'a> {
    /// The bytes of RAM this view reads and writes.
    pub open spec fn ram(&self) -> Seq<u8> {
        self.ram@
    }

    pub fn new(ram: &'a mut [u8]) -> (view: Self)
        ensures
            view.ram() == old(ram)@,
            final(view.ram)@ == final(ram)@,
    {
        Self { ram }
    }

    pub fn clear_pending_kind(&mut self)
        requires
            DUNGEON_SECRET_PENDING_KIND < old(self).ram().len(),
        ensures
            final(self).ram() == old(self).ram().update(DUNGEON_SECRET_PENDING_KIND as int, 0u8),
            final(final(self).ram)@ == final(old(self).ram)@,
    {
        self.ram[DUNGEON_SECRET_PENDING_KIND] = 0;
    }

    pub fn set_pending_kind(&mut self, value: u8)
        requires
            DUNGEON_SECRET_PENDING_KIND < old(self).ram().len(),
        ensures
            final(self).ram() == old(self).ram().update(DUNGEON_SECRET_PENDING_KIND as int, value),
            final(final(self).ram)@ == final(old(self).ram)@,
    {
        self.ram[DUNGEON_SECRET_PENDING_KIND] = value;
    }

    pub fn increment_overworld_subst_counter(&mut self)
        requires
            OVERWORLD_SECRET_SUBST_CTR < old(self).ram().len(),
        ensures
            final(self).ram() == old(self).ram().update(
                OVERWORLD_SECRET_SUBST_CTR as int,
                old(self).ram()[OVERWORLD_SECRET_SUBST_CTR as int].wrapping_add(1),
            ),
            final(final(self).ram)@ == final(old(self).ram)@,
    {
        self.ram[OVERWORLD_SECRET_SUBST_CTR] = self.ram[OVERWORLD_SECRET_SUBST_CTR].wrapping_add(1);
    }

    pub fn set_powder_pending_kind(&mut self)
        requires
            DUNGEON_SECRET_PENDING_KIND + 1 < old(self).ram().len(),
        ensures
            final(self).ram() == types::with_u16(
                old(self).ram(),
                DUNGEON_SECRET_PENDING_KIND as int,
                4u16,
            ),
            final(final(self).ram)@ == final(old(self).ram)@,
    {
        write_le_u16(self.ram, DUNGEON_SECRET_PENDING_KIND, 4);
    }

    pub fn or_pending_kind(&mut self, value: u8)
        requires
            DUNGEON_SECRET_PENDING_KIND < old(self).ram().len(),
        ensures
            final(self).ram() == old(self).ram().update(
                DUNGEON_SECRET_PENDING_KIND as int,
                old(self).ram()[DUNGEON_SECRET_PENDING_KIND as int] | value,
            ),
            final(final(self).ram)@ == final(old(self).ram)@,
    {
        self.ram[DUNGEON_SECRET_PENDING_KIND] |= value;
    }

    pub fn mark_graphics_kind(&mut self)
        requires
            DUNGEON_SECRET_PENDING_KIND < old(self).ram().len(),
        ensures
            final(self).ram() == old(self).ram().update(
                DUNGEON_SECRET_PENDING_KIND as int,
                old(self).ram()[DUNGEON_SECRET_PENDING_KIND as int] | 0x80,
            ),
            final(final(self).ram)@ == final(old(self).ram)@,
    {
        self.ram[DUNGEON_SECRET_PENDING_KIND] |= 0x80;
    }
}

} // verus!
