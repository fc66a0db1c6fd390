use vstd::prelude::*;
use super::access;
use super::access::{byte};
use super::addresses::{ENEMY_DAMAGE_DATA};

verus! {

pub struct EnemyDamageDataView<'a> {
    ram: &'a [u8],
}

impl<'a> EnemyDamageDataView<'a> {
    /// The bytes of RAM this view reads and writes.
    pub closed spec fn ram(&self) -> Seq<u8> {
        self.ram@
    }

    pub fn new(ram: &'a [u8]) -> (view: Self)
        ensures
            view.ram() == ram@,
    {
        Self { ram }
    }

    pub fn entry(&self, index: usize) -> (result: u8)
        requires
            ENEMY_DAMAGE_DATA + index <= usize::MAX,
        ensures
            result == access::byte_at(self.ram(), ENEMY_DAMAGE_DATA + index),
    {
        byte(self.ram, ENEMY_DAMAGE_DATA + index)
    }
}

pub struct EnemyDamageDataViewMut<'a> {
    pub ram: &'a mut [u8],
}

impl<'a> EnemyDamageDataViewMut<'a> {
    /// The bytes of RAM this view reads and writes.
    pub open spec fn ram(&self) -> Seq<u8> {
        self.ram@
    }

    pub fn new(ram: &'a mut [u8]) -> (view: Self)
        ensures
            view.ram() == old(ram)@,
            final(view.ram)@ == final(ram)@,
    {
        Self { ram }
    }

    pub fn set_entry(&mut self, index: usize, value: u8)
        requires
            ENEMY_DAMAGE_DATA + index < old(self).ram().len(),
        ensures
            final(self).ram() == old(self).ram().update(ENEMY_DAMAGE_DATA + index, value),
            final(final(self).ram)@ == final(old(self).ram)@,
    {
        proof {
            assert(self.ram@.len() == self.ram.len());
        }
        self.ram[ENEMY_DAMAGE_DATA + index] = value;
    }
}

} // verus!
