use vstd::prelude::*;
use super::access;
use super::access::{byte};
use super::addresses::{HUD_INVENTORY_ORDER};

verus! {

pub struct HudInventoryOrderView<'a> {
    ram: &'a [u8],
}

impl<'a> HudInventoryOrderView<'a> {
    /// The bytes of RAM this view reads and writes.
    pub closed spec fn ram(&self) -> Seq<u8> {
        self.ram@
    }

    pub fn new(ram: &'a [u8]) -> (view: Self)
        ensures
            view.ram() == ram@,
    {
        Self { ram }
    }

    pub fn is_custom(&self) -> (result: bool)
        ensures
            result == (access::byte_at(self.ram(), HUD_INVENTORY_ORDER as int) != 0),
    {
        byte(self.ram, HUD_INVENTORY_ORDER) != 0
    }

    pub fn item(&self, index: usize) -> (result: u8)
        requires
            HUD_INVENTORY_ORDER + index <= usize::MAX,
        ensures
            result == access::byte_at(self.ram(), HUD_INVENTORY_ORDER + index),
    {
        byte(self.ram, HUD_INVENTORY_ORDER + index)
    }
}

pub struct HudInventoryOrderViewMut<'a> {
    pub ram: &'a mut [u8],
}

impl<'a> HudInventoryOrderViewMut<'a> {
    /// The bytes of RAM this view reads and writes.
    pub open spec fn ram(&self) -> Seq<u8> {
        self.ram@
    }

    pub fn new(ram: &'a mut [u8]) -> (view: Self)
        ensures
            view.ram() == old(ram)@,
            final(view.ram)@ == final(ram)@,
    {
        Self { ram }
    }

    pub fn initialize_default_order(&mut self, count: usize)
        requires
            count <= 255,
            HUD_INVENTORY_ORDER + count <= old(self).ram().len(),
        ensures
            final(self).ram() == Seq::new(
                old(self).ram().len(),
                |k: int|
                    if HUD_INVENTORY_ORDER <= k < HUD_INVENTORY_ORDER + count {
                        (k - HUD_INVENTORY_ORDER + 1) as u8
                    } else {
                        old(self).ram()[k]
                    },
            ),
            final(final(self).ram)@ == final(old(self).ram)@,
    {
        proof {
            assert(self.ram@.len() == self.ram.len());
        }
        for i in 0..count
            invariant
                final(self.ram)@ == final(old(self).ram)@,
                old(self).ram().len() <= usize::MAX,
                count <= 255,
                HUD_INVENTORY_ORDER + count <= self.ram().len(),
                self.ram().len() == old(self).ram().len(),
                forall|k: int|
                    0 <= k < self.ram().len() ==> #[trigger] self.ram()[k] == if HUD_INVENTORY_ORDER
                        <= k < HUD_INVENTORY_ORDER + i {
                        (k - HUD_INVENTORY_ORDER + 1) as u8
                    } else {
                        old(self).ram()[k]
                    },
        {
            self.ram[HUD_INVENTORY_ORDER + i] = i as u8 + 1;
        }
    }

    pub fn swap_items(&mut self, old_pos: usize, new_pos: usize)
        requires
            HUD_INVENTORY_ORDER + old_pos < old(self).ram().len(),
            HUD_INVENTORY_ORDER + new_pos < old(self).ram().len(),
        ensures
            final(self).ram() == old(self).ram().update(
                HUD_INVENTORY_ORDER + old_pos,
                old(self).ram()[HUD_INVENTORY_ORDER + new_pos],
            ).update(HUD_INVENTORY_ORDER + new_pos, old(self).ram()[HUD_INVENTORY_ORDER + old_pos]),
            final(final(self).ram)@ == final(old(self).ram)@,
    {
        proof {
            assert(self.ram@.len() == self.ram.len());
        }
        let a = HUD_INVENTORY_ORDER + old_pos;
        let b = HUD_INVENTORY_ORDER + new_pos;
        let first = self.ram[a];
        let second = self.ram[b];
        self.ram[a] = second;
        self.ram[b] = first;
    }
}

} // verus!
