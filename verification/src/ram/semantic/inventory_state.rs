use vstd::prelude::*;
use super::access;
use super::access::{byte};
use super::addresses::{LINK_ABILITY_FLAGS, LINK_BOTTLE_INFO, LINK_ITEM_BOW};

verus! {

pub struct InventoryStateView<'a> {
    ram: &'a [u8],
}

impl<'a> InventoryStateView<'a> {
    /// The bytes of RAM this view reads and writes.
    pub closed spec fn ram(&self) -> Seq<u8> {
        self.ram@
    }

    pub fn new(ram: &'a [u8]) -> (view: Self)
        ensures
            view.ram() == ram@,
    {
        Self { ram }
    }

    pub fn inventory_item(&self, index: usize) -> (result: u8)
        requires
            LINK_ITEM_BOW + index <= usize::MAX,
        ensures
            result == access::byte_at(self.ram(), LINK_ITEM_BOW + index),
    {
        byte(self.ram, LINK_ITEM_BOW + index)
    }

    pub fn has_inventory_item(&self, index: usize) -> (result: bool)
        requires
            LINK_ITEM_BOW + index <= usize::MAX,
        ensures
            result == (access::byte_at(self.ram(), LINK_ITEM_BOW + index) != 0),
    {
        self.inventory_item(index) != 0
    }

    pub fn bow(&self) -> (result: u8)
        ensures
            result == access::byte_at(self.ram(), LINK_ITEM_BOW + 0),
    {
        self.inventory_item(0)
    }

    pub fn has_silver_arrows(&self) -> (result: bool)
        ensures
            result == ((access::byte_at(self.ram(), LINK_ITEM_BOW + 0) & 4u8) != 0),
    {
        self.bow() & 4 != 0
    }

    pub fn has_upgraded_bow(&self) -> (result: bool)
        ensures
            result == (access::byte_at(self.ram(), LINK_ITEM_BOW + 0) >= 3),
    {
        self.bow() >= 3
    }

    pub fn boomerang(&self) -> (result: u8)
        ensures
            result == access::byte_at(self.ram(), LINK_ITEM_BOW + 1),
    {
        self.inventory_item(1)
    }

    pub fn hookshot(&self) -> (result: u8)
        ensures
            result == access::byte_at(self.ram(), LINK_ITEM_BOW + 2),
    {
        self.inventory_item(2)
    }

    pub fn mushroom(&self) -> (result: u8)
        ensures
            result == access::byte_at(self.ram(), LINK_ITEM_BOW + 4),
    {
        self.inventory_item(4)
    }

    pub fn fire_rod(&self) -> (result: u8)
        ensures
            result == access::byte_at(self.ram(), LINK_ITEM_BOW + 5),
    {
        self.inventory_item(5)
    }

    pub fn ice_rod(&self) -> (result: u8)
        ensures
            result == access::byte_at(self.ram(), LINK_ITEM_BOW + 6),
    {
        self.inventory_item(6)
    }

    pub fn bombos(&self) -> (result: u8)
        ensures
            result == access::byte_at(self.ram(), LINK_ITEM_BOW + 7),
    {
        self.inventory_item(7)
    }

    pub fn ether(&self) -> (result: u8)
        ensures
            result == access::byte_at(self.ram(), LINK_ITEM_BOW + 8),
    {
        self.inventory_item(8)
    }

    pub fn quake(&self) -> (result: u8)
        ensures
            result == access::byte_at(self.ram(), LINK_ITEM_BOW + 9),
    {
        self.inventory_item(9)
    }

    pub fn torch(&self) -> (result: u8)
        ensures
            result == access::byte_at(self.ram(), LINK_ITEM_BOW + 10),
    {
        self.inventory_item(10)
    }

    pub fn hammer(&self) -> (result: u8)
        ensures
            result == access::byte_at(self.ram(), LINK_ITEM_BOW + 11),
    {
        self.inventory_item(11)
    }

    pub fn flute(&self) -> (result: u8)
        ensures
            result == access::byte_at(self.ram(), LINK_ITEM_BOW + 12),
    {
        self.inventory_item(12)
    }

    pub fn bug_net(&self) -> (result: u8)
        ensures
            result == access::byte_at(self.ram(), LINK_ITEM_BOW + 13),
    {
        self.inventory_item(13)
    }

    pub fn book(&self) -> (result: u8)
        ensures
            result == access::byte_at(self.ram(), LINK_ITEM_BOW + 14),
    {
        self.inventory_item(14)
    }

    pub fn cane_somaria(&self) -> (result: u8)
        ensures
            result == access::byte_at(self.ram(), LINK_ITEM_BOW + 15),
    {
        self.inventory_item(15)
    }

    pub fn cane_byrna(&self) -> (result: u8)
        ensures
            result == access::byte_at(self.ram(), LINK_ITEM_BOW + 17),
    {
        self.inventory_item(17)
    }

    pub fn cape(&self) -> (result: u8)
        ensures
            result == access::byte_at(self.ram(), LINK_ITEM_BOW + 18),
    {
        self.inventory_item(18)
    }

    pub fn mirror(&self) -> (result: u8)
        ensures
            result == access::byte_at(self.ram(), LINK_ITEM_BOW + 19),
    {
        self.inventory_item(19)
    }

    pub fn gloves(&self) -> (result: u8)
        ensures
            result == access::byte_at(self.ram(), LINK_ITEM_BOW + 20),
    {
        self.inventory_item(20)
    }

    pub fn boots(&self) -> (result: u8)
        ensures
            result == access::byte_at(self.ram(), LINK_ITEM_BOW + 21),
    {
        self.inventory_item(21)
    }

    pub fn has_boots(&self) -> (result: bool)
        ensures
            result == (access::byte_at(self.ram(), LINK_ITEM_BOW + 21) != 0),
    {
        self.boots() != 0
    }

    pub fn flippers(&self) -> (result: u8)
        ensures
            result == access::byte_at(self.ram(), LINK_ITEM_BOW + 22),
    {
        self.inventory_item(22)
    }

    pub fn moon_pearl(&self) -> (result: u8)
        ensures
            result == access::byte_at(self.ram(), LINK_ITEM_BOW + 23),
    {
        self.inventory_item(23)
    }

    pub fn has_moon_pearl(&self) -> (result: bool)
        ensures
            result == (access::byte_at(self.ram(), LINK_ITEM_BOW + 23) != 0),
    {
        self.moon_pearl() != 0
    }

    pub fn sword_type(&self) -> (result: u8)
        ensures
            result == access::byte_at(self.ram(), LINK_ITEM_BOW + 25),
    {
        self.inventory_item(25)
    }

    pub fn shield_type(&self) -> (result: u8)
        ensures
            result == access::byte_at(self.ram(), LINK_ITEM_BOW + 26),
    {
        self.inventory_item(26)
    }

    pub fn armor(&self) -> (result: u8)
        ensures
            result == access::byte_at(self.ram(), LINK_ITEM_BOW + 27),
    {
        self.inventory_item(27)
    }

    pub fn bottle(&self, index: usize) -> (result: u8)
        requires
            LINK_BOTTLE_INFO + index <= usize::MAX,
        ensures
            result == access::byte_at(self.ram(), LINK_BOTTLE_INFO + index),
    {
        byte(self.ram, LINK_BOTTLE_INFO + index)
    }

    pub fn has_bottle(&self, index: usize) -> (result: bool)
        requires
            LINK_BOTTLE_INFO + index <= usize::MAX,
        ensures
            result == (access::byte_at(self.ram(), LINK_BOTTLE_INFO + index) != 0),
    {
        self.bottle(index) != 0
    }

    pub fn bottle_contents_or(&self) -> (result: u8)
        ensures
            result == (((access::byte_at(self.ram(), LINK_BOTTLE_INFO + 0)
                   | access::byte_at(self.ram(), LINK_BOTTLE_INFO + 1))
                  | access::byte_at(self.ram(), LINK_BOTTLE_INFO + 2))
                 | access::byte_at(self.ram(), LINK_BOTTLE_INFO + 3)),
    {
        self.bottle(0) | self.bottle(1) | self.bottle(2) | self.bottle(3)
    }

    pub fn has_bottle_at_least(&self, value: u8) -> (result: bool)
        ensures
            result == (access::byte_at(self.ram(), LINK_BOTTLE_INFO as int) >= value
                || access::byte_at(self.ram(), LINK_BOTTLE_INFO + 1) >= value
                || access::byte_at(self.ram(), LINK_BOTTLE_INFO + 2) >= value
                || access::byte_at(self.ram(), LINK_BOTTLE_INFO + 3) >= value),
    {
        self.bottle(0) >= value || self.bottle(1) >= value || self.bottle(2) >= value
            || self.bottle(3) >= value
    }
}

pub struct InventoryStateViewMut<'a> {
    pub ram: &'a mut [u8],
}

impl<'a> InventoryStateViewMut<'a> {
    /// The bytes of RAM this view reads and writes.
    pub open spec fn ram(&self) -> Seq<u8> {
        self.ram@
    }

    pub fn new(ram: &'a mut [u8]) -> (view: Self)
        ensures
            view.ram() == old(ram)@,
            final(view.ram)@ == final(ram)@,
    {
        Self { ram }
    }

    pub fn set_inventory_item(&mut self, index: usize, value: u8)
        requires
            LINK_ITEM_BOW + index < old(self).ram().len(),
        ensures
            final(self).ram() == old(self).ram().update(LINK_ITEM_BOW + index, value),
            final(final(self).ram)@ == final(old(self).ram)@,
    {
        proof {
            assert(self.ram@.len() == self.ram.len());
        }
        self.ram[LINK_ITEM_BOW + index] = value;
    }

    pub fn set_mushroom(&mut self, value: u8)
        requires
            LINK_ITEM_BOW + 4 < old(self).ram().len(),
        ensures
            final(self).ram() == old(self).ram().update(LINK_ITEM_BOW + 4, value),
            final(final(self).ram)@ == final(old(self).ram)@,
    {
        self.ram[LINK_ITEM_BOW + 4] = value;
    }

    pub fn set_ice_rod(&mut self, value: u8)
        requires
            LINK_ITEM_BOW + 6 < old(self).ram().len(),
        ensures
            final(self).ram() == old(self).ram().update(LINK_ITEM_BOW + 6, value),
            final(final(self).ram)@ == final(old(self).ram)@,
    {
        self.ram[LINK_ITEM_BOW + 6] = value;
    }

    pub fn set_bombos(&mut self, value: u8)
        requires
            LINK_ITEM_BOW + 7 < old(self).ram().len(),
        ensures
            final(self).ram() == old(self).ram().update(LINK_ITEM_BOW + 7, value),
            final(final(self).ram)@ == final(old(self).ram)@,
    {
        self.ram[LINK_ITEM_BOW + 7] = value;
    }

    pub fn set_ether(&mut self, value: u8)
        requires
            LINK_ITEM_BOW + 8 < old(self).ram().len(),
        ensures
            final(self).ram() == old(self).ram().update(LINK_ITEM_BOW + 8, value),
            final(final(self).ram)@ == final(old(self).ram)@,
    {
        self.ram[LINK_ITEM_BOW + 8] = value;
    }

    pub fn set_flute(&mut self, value: u8)
        requires
            LINK_ITEM_BOW + 12 < old(self).ram().len(),
        ensures
            final(self).ram() == old(self).ram().update(LINK_ITEM_BOW + 12, value),
            final(final(self).ram)@ == final(old(self).ram)@,
    {
        self.ram[LINK_ITEM_BOW + 12] = value;
    }

    pub fn set_mirror(&mut self, value: u8)
        requires
            LINK_ITEM_BOW + 19 < old(self).ram().len(),
        ensures
            final(self).ram() == old(self).ram().update(LINK_ITEM_BOW + 19, value),
            final(final(self).ram)@ == final(old(self).ram)@,
    {
        self.ram[LINK_ITEM_BOW + 19] = value;
    }

    pub fn set_boots(&mut self, value: u8)
        requires
            LINK_ITEM_BOW + 21 < old(self).ram().len(),
        ensures
            final(self).ram() == old(self).ram().update(LINK_ITEM_BOW + 21, value),
            final(final(self).ram)@ == final(old(self).ram)@,
    {
        self.ram[LINK_ITEM_BOW + 21] = value;
    }

    pub fn set_moon_pearl(&mut self, value: u8)
        requires
            LINK_ITEM_BOW + 23 < old(self).ram().len(),
        ensures
            final(self).ram() == old(self).ram().update(LINK_ITEM_BOW + 23, value),
            final(final(self).ram)@ == final(old(self).ram)@,
    {
        self.ram[LINK_ITEM_BOW + 23] = value;
    }

    pub fn add_ability_flags(&mut self, flags: u8)
        requires
            LINK_ABILITY_FLAGS < old(self).ram().len(),
        ensures
            final(self).ram() == old(self).ram().update(
                LINK_ABILITY_FLAGS as int,
                old(self).ram()[LINK_ABILITY_FLAGS as int] | flags,
            ),
            final(final(self).ram)@ == final(old(self).ram)@,
    {
        self.ram[LINK_ABILITY_FLAGS] |= flags;
    }

    pub fn set_sword_type(&mut self, value: u8)
        requires
            LINK_ITEM_BOW + 25 < old(self).ram().len(),
        ensures
            final(self).ram() == old(self).ram().update(LINK_ITEM_BOW + 25, value),
            final(final(self).ram)@ == final(old(self).ram)@,
    {
        self.ram[LINK_ITEM_BOW + 25] = value;
    }

    pub fn set_shield_type(&mut self, value: u8)
        requires
            LINK_ITEM_BOW + 26 < old(self).ram().len(),
        ensures
            final(self).ram() == old(self).ram().update(LINK_ITEM_BOW + 26, value),
            final(final(self).ram)@ == final(old(self).ram)@,
    {
        self.ram[LINK_ITEM_BOW + 26] = value;
    }

    pub fn set_bottle(&mut self, index: usize, value: u8)
        requires
            LINK_BOTTLE_INFO + index < old(self).ram().len(),
        ensures
            final(self).ram() == old(self).ram().update(LINK_BOTTLE_INFO + index, value),
            final(final(self).ram)@ == final(old(self).ram)@,
    {
        proof {
            assert(self.ram@.len() == self.ram.len());
        }
        self.ram[LINK_BOTTLE_INFO + index] = value;
    }

    pub fn fill_first_empty_bottle_with(&mut self, value: u8) -> (result: bool)
        requires
            LINK_BOTTLE_INFO < old(self).ram().len(),
            old(self).ram()[LINK_BOTTLE_INFO as int] >= 2
                ==> LINK_BOTTLE_INFO + 1 < old(self).ram().len(),
            (old(self).ram()[LINK_BOTTLE_INFO as int] >= 2)
                && (old(self).ram()[LINK_BOTTLE_INFO + 1] >= 2)
                ==> LINK_BOTTLE_INFO + 2 < old(self).ram().len(),
            (old(self).ram()[LINK_BOTTLE_INFO as int] >= 2)
                && (old(self).ram()[LINK_BOTTLE_INFO + 1] >= 2)
                && (old(self).ram()[LINK_BOTTLE_INFO + 2] >= 2)
                ==> LINK_BOTTLE_INFO + 3 < old(self).ram().len(),
        ensures
            result == ((old(self).ram()[LINK_BOTTLE_INFO as int] < 2)
                 || (old(self).ram()[LINK_BOTTLE_INFO + 1] < 2)
                 || (old(self).ram()[LINK_BOTTLE_INFO + 2] < 2)
                 || (old(self).ram()[LINK_BOTTLE_INFO + 3] < 2)),
            final(self).ram() == (if old(self).ram()[LINK_BOTTLE_INFO as int] < 2 {
                old(self).ram().update(LINK_BOTTLE_INFO as int, value)
            } else if old(self).ram()[LINK_BOTTLE_INFO + 1] < 2 {
                old(self).ram().update(LINK_BOTTLE_INFO + 1, value)
            } else if old(self).ram()[LINK_BOTTLE_INFO + 2] < 2 {
                old(self).ram().update(LINK_BOTTLE_INFO + 2, value)
            } else if old(self).ram()[LINK_BOTTLE_INFO + 3] < 2 {
                old(self).ram().update(LINK_BOTTLE_INFO + 3, value)
            } else {
                old(self).ram()
            }),
            final(final(self).ram)@ == final(old(self).ram)@,
    {
        if self.ram[LINK_BOTTLE_INFO] < 2 {
            self.ram[LINK_BOTTLE_INFO] = value;
            return true;
        }
        if self.ram[LINK_BOTTLE_INFO + 1] < 2 {
            self.ram[LINK_BOTTLE_INFO + 1] = value;
            return true;
        }
        if self.ram[LINK_BOTTLE_INFO + 2] < 2 {
            self.ram[LINK_BOTTLE_INFO + 2] = value;
            return true;
        }
        if self.ram[LINK_BOTTLE_INFO + 3] < 2 {
            self.ram[LINK_BOTTLE_INFO + 3] = value;
            return true;
        }
        false
    }

    pub fn replace_first_empty_bottle_with(&mut self, value: u8) -> (result: bool)
        requires
            LINK_BOTTLE_INFO < old(self).ram().len(),
            old(self).ram()[LINK_BOTTLE_INFO as int] != 2
                ==> LINK_BOTTLE_INFO + 1 < old(self).ram().len(),
            (old(self).ram()[LINK_BOTTLE_INFO as int] != 2)
                && (old(self).ram()[LINK_BOTTLE_INFO + 1] != 2)
                ==> LINK_BOTTLE_INFO + 2 < old(self).ram().len(),
            (old(self).ram()[LINK_BOTTLE_INFO as int] != 2)
                && (old(self).ram()[LINK_BOTTLE_INFO + 1] != 2)
                && (old(self).ram()[LINK_BOTTLE_INFO + 2] != 2)
                ==> LINK_BOTTLE_INFO + 3 < old(self).ram().len(),
        ensures
            result == ((old(self).ram()[LINK_BOTTLE_INFO as int] == 2)
                 || (old(self).ram()[LINK_BOTTLE_INFO + 1] == 2)
                 || (old(self).ram()[LINK_BOTTLE_INFO + 2] == 2)
                 || (old(self).ram()[LINK_BOTTLE_INFO + 3] == 2)),
            final(self).ram() == (if old(self).ram()[LINK_BOTTLE_INFO as int] == 2 {
                old(self).ram().update(LINK_BOTTLE_INFO as int, value)
            } else if old(self).ram()[LINK_BOTTLE_INFO + 1] == 2 {
                old(self).ram().update(LINK_BOTTLE_INFO + 1, value)
            } else if old(self).ram()[LINK_BOTTLE_INFO + 2] == 2 {
                old(self).ram().update(LINK_BOTTLE_INFO + 2, value)
            } else if old(self).ram()[LINK_BOTTLE_INFO + 3] == 2 {
                old(self).ram().update(LINK_BOTTLE_INFO + 3, value)
            } else {
                old(self).ram()
            }),
            final(final(self).ram)@ == final(old(self).ram)@,
    {
        if self.ram[LINK_BOTTLE_INFO] == 2 {
            self.ram[LINK_BOTTLE_INFO] = value;
            return true;
        }
        if self.ram[LINK_BOTTLE_INFO + 1] == 2 {
            self.ram[LINK_BOTTLE_INFO + 1] = value;
            return true;
        }
        if self.ram[LINK_BOTTLE_INFO + 2] == 2 {
            self.ram[LINK_BOTTLE_INFO + 2] = value;
            return true;
        }
        if self.ram[LINK_BOTTLE_INFO + 3] == 2 {
            self.ram[LINK_BOTTLE_INFO + 3] = value;
            return true;
        }
        false
    }
}

} // verus!
