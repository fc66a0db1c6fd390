use vstd::prelude::*;
use super::access;
use super::access::{byte};
use super::addresses::{POLY_FACE_COORDS};

verus! {

pub struct PolyFaceCoordsView<'a> {
    ram: &'a [u8],
}

impl<'a> PolyFaceCoordsView<'a> {
    /// The bytes of RAM this view reads and writes.
    pub closed spec fn ram(&self) -> Seq<u8> {
        self.ram@
    }

    pub fn new(ram: &'a [u8]) -> (view: Self)
        ensures
            view.ram() == ram@,
    {
        Self { ram }
    }

    pub fn coord(&self, offset: usize) -> (result: u8)
        requires
            POLY_FACE_COORDS + offset <= usize::MAX,
        ensures
            result == access::byte_at(self.ram(), POLY_FACE_COORDS + offset),
    {
        byte(self.ram, POLY_FACE_COORDS + offset)
    }

    pub fn xy_coords_count(&self) -> (result: u8)
        ensures
            result == access::byte_at(self.ram(), POLY_FACE_COORDS as int),
    {
        byte(self.ram, POLY_FACE_COORDS)
    }
}

pub struct PolyFaceCoordsViewMut<'a> {
    pub ram: &'a mut [u8],
}

impl<'a> PolyFaceCoordsViewMut<'a> {
    /// The bytes of RAM this view reads and writes.
    pub open spec fn ram(&self) -> Seq<u8> {
        self.ram@
    }

    pub fn new(ram: &'a mut [u8]) -> (view: Self)
        ensures
            view.ram() == old(ram)@,
            final(view.ram)@ == final(ram)@,
    {
        Self { ram }
    }

    pub fn set_coord(&mut self, offset: usize, value: u8)
        requires
            POLY_FACE_COORDS + offset < old(self).ram().len(),
        ensures
            final(self).ram() == old(self).ram().update(POLY_FACE_COORDS + offset, value),
            final(final(self).ram)@ == final(old(self).ram)@,
    {
        proof {
            assert(self.ram@.len() == self.ram.len());
        }
        self.ram[POLY_FACE_COORDS + offset] = value;
    }

    pub fn set_xy_coords_count(&mut self, value: u8)
        requires
            POLY_FACE_COORDS < old(self).ram().len(),
        ensures
            final(self).ram() == old(self).ram().update(POLY_FACE_COORDS as int, value),
            final(final(self).ram)@ == final(old(self).ram)@,
    {
        self.ram[POLY_FACE_COORDS] = value;
    }
}

} // verus!
