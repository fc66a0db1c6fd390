use vstd::prelude::*;
use super::access;
use super::access::{byte};
use super::addresses::{POLY_PROJECTED_X, POLY_PROJECTED_Y};

verus! {

pub struct PolyProjectedVertexView<'a> {
    ram: &'a [u8],
}

impl<'a> PolyProjectedVertexView<'a> {
    /// The bytes of RAM this view reads and writes.
    pub closed spec fn ram(&self) -> Seq<u8> {
        self.ram@
    }

    pub fn new(ram: &'a [u8]) -> (view: Self)
        ensures
            view.ram() == ram@,
    {
        Self { ram }
    }

    pub fn x(&self, vertex: usize) -> (result: u8)
        requires
            POLY_PROJECTED_X + vertex <= usize::MAX,
        ensures
            result == access::byte_at(self.ram(), POLY_PROJECTED_X + vertex),
    {
        byte(self.ram, POLY_PROJECTED_X + vertex)
    }

    pub fn y(&self, vertex: usize) -> (result: u8)
        requires
            POLY_PROJECTED_Y + vertex <= usize::MAX,
        ensures
            result == access::byte_at(self.ram(), POLY_PROJECTED_Y + vertex),
    {
        byte(self.ram, POLY_PROJECTED_Y + vertex)
    }
}

pub struct PolyProjectedVertexViewMut<'a> {
    pub ram: &'a mut [u8],
}

impl<'a> PolyProjectedVertexViewMut<'a> {
    /// The bytes of RAM this view reads and writes.
    pub open spec fn ram(&self) -> Seq<u8> {
        self.ram@
    }

    pub fn new(ram: &'a mut [u8]) -> (view: Self)
        ensures
            view.ram() == old(ram)@,
            final(view.ram)@ == final(ram)@,
    {
        Self { ram }
    }

    pub fn set_position(&mut self, vertex: usize, x: u8, y: u8)
        requires
            POLY_PROJECTED_X + vertex < old(self).ram().len(),
            POLY_PROJECTED_Y + vertex < old(self).ram().len(),
        ensures
            final(self).ram() == old(self).ram()
                .update(POLY_PROJECTED_X + vertex, x)
                .update(POLY_PROJECTED_Y + vertex, y),
            final(final(self).ram)@ == final(old(self).ram)@,
    {
        proof {
            assert(self.ram@.len() == self.ram.len());
        }
        self.ram[POLY_PROJECTED_X + vertex] = x;
        self.ram[POLY_PROJECTED_Y + vertex] = y;
    }
}

} // verus!
