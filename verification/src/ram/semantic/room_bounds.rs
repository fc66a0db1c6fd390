use vstd::prelude::*;
use super::access;
use super::access::{word};
use super::addresses::{ROOM_BOUNDS};
use crate::types;
use crate::types::{write_le_u16};

verus! {

pub struct RoomBoundsView<'a> {
    ram: &'a [u8],
}

impl<'a> RoomBoundsView<'a> {
    /// The bytes of RAM this view reads and writes.
    pub closed spec fn ram(&self) -> Seq<u8> {
        self.ram@
    }

    pub fn new(ram: &'a [u8]) -> (view: Self)
        ensures
            view.ram() == ram@,
    {
        Self { ram }
    }

    pub fn y_bound(&self, index: usize) -> (result: u16)
        requires
            (ROOM_BOUNDS + (index * 2)) + 1 <= usize::MAX,
        ensures
            result == access::word_at(self.ram(), ROOM_BOUNDS + (index * 2)),
    {
        word(self.ram, ROOM_BOUNDS + index * 2)
    }

    pub fn x_bound(&self, index: usize) -> (result: u16)
        requires
            ((ROOM_BOUNDS + 8) + (index * 2)) + 1 <= usize::MAX,
        ensures
            result == access::word_at(self.ram(), (ROOM_BOUNDS + 8) + (index * 2)),
    {
        word(self.ram, ROOM_BOUNDS + 8 + index * 2)
    }

    pub fn packed_bound(&self, index: usize) -> (result: u16)
        requires
            (ROOM_BOUNDS + (index * 2)) + 1 <= usize::MAX,
        ensures
            result == access::word_at(self.ram(), ROOM_BOUNDS + (index * 2)),
    {
        word(self.ram, ROOM_BOUNDS + index * 2)
    }

    pub fn packed_top(&self) -> (result: u16)
        ensures
            result == access::word_at(self.ram(), ROOM_BOUNDS + (0 * 2)),
    {
        self.packed_bound(0)
    }

    pub fn packed_bottom(&self) -> (result: u16)
        ensures
            result == access::word_at(self.ram(), ROOM_BOUNDS + (1 * 2)),
    {
        self.packed_bound(1)
    }

    pub fn packed_left(&self) -> (result: u16)
        ensures
            result == access::word_at(self.ram(), ROOM_BOUNDS + (2 * 2)),
    {
        self.packed_bound(2)
    }

    pub fn packed_right(&self) -> (result: u16)
        ensures
            result == access::word_at(self.ram(), ROOM_BOUNDS + (3 * 2)),
    {
        self.packed_bound(3)
    }
}

pub struct RoomBoundsViewMut<'a> {
    pub ram: &'a mut [u8],
}

impl<'a> RoomBoundsViewMut<'a> {
    /// The bytes of RAM this view reads and writes.
    pub open spec fn ram(&self) -> Seq<u8> {
        self.ram@
    }

    pub fn new(ram: &'a mut [u8]) -> (view: Self)
        ensures
            view.ram() == old(ram)@,
            final(view.ram)@ == final(ram)@,
    {
        Self { ram }
    }

    pub fn set_y_bound(&mut self, index: usize, value: u16)
        requires
            (ROOM_BOUNDS + (index * 2)) + 1 < old(self).ram().len(),
        ensures
            final(self).ram() == types::with_u16(old(self).ram(), ROOM_BOUNDS + (index * 2), value),
            final(final(self).ram)@ == final(old(self).ram)@,
    {
        proof {
            assert(self.ram@.len() == self.ram.len());
        }
        write_le_u16(self.ram, ROOM_BOUNDS + index * 2, value);
    }

    pub fn set_x_bound(&mut self, index: usize, value: u16)
        requires
            ((ROOM_BOUNDS + 8) + (index * 2)) + 1 < old(self).ram().len(),
        ensures
            final(self).ram() == types::with_u16(
                old(self).ram(),
                (ROOM_BOUNDS + 8) + (index * 2),
                value,
            ),
            final(final(self).ram)@ == final(old(self).ram)@,
    {
        proof {
            assert(self.ram@.len() == self.ram.len());
        }
        write_le_u16(self.ram, ROOM_BOUNDS + 8 + index * 2, value);
    }

    pub fn set_packed_bound(&mut self, index: usize, value: u16)
        requires
            (ROOM_BOUNDS + (index * 2)) + 1 < old(self).ram().len(),
        ensures
            final(self).ram() == types::with_u16(old(self).ram(), ROOM_BOUNDS + (index * 2), value),
            final(final(self).ram)@ == final(old(self).ram)@,
    {
        proof {
            assert(self.ram@.len() == self.ram.len());
        }
        write_le_u16(self.ram, ROOM_BOUNDS + index * 2, value);
    }

    pub fn set_packed_bounds(&mut self, top: u16, bottom: u16, left: u16, right: u16)
        requires
            (ROOM_BOUNDS + (0 * 2)) + 1 < old(self).ram().len(),
            (ROOM_BOUNDS + (1 * 2)) + 1 < old(self).ram().len(),
            (ROOM_BOUNDS + (2 * 2)) + 1 < old(self).ram().len(),
            (ROOM_BOUNDS + (3 * 2)) + 1 < old(self).ram().len(),
        ensures
            final(self).ram() == types::with_u16(
                types::with_u16(
                    types::with_u16(
                        types::with_u16(
                            old(self).ram(),
                            ROOM_BOUNDS + (0 * 2),
                            top,
                        ),
                        ROOM_BOUNDS + (1 * 2),
                        bottom,
                    ),
                    ROOM_BOUNDS + (2 * 2),
                    left,
                ),
                ROOM_BOUNDS + (3 * 2),
                right,
            ),
            final(final(self).ram)@ == final(old(self).ram)@,
    {
        self.set_packed_bound(0, top);
        self.set_packed_bound(1, bottom);
        self.set_packed_bound(2, left);
        self.set_packed_bound(3, right);
    }

    pub fn copy_y_bound_from(&mut self, index: usize, src: usize)
        requires
            src + 1 <= usize::MAX,
            (ROOM_BOUNDS + (index * 2)) + 1 < old(self).ram().len(),
        ensures
            final(self).ram() == types::with_u16(
                old(self).ram(),
                ROOM_BOUNDS + (index * 2),
                access::word_at(old(self).ram(), src as int),
            ),
            final(final(self).ram)@ == final(old(self).ram)@,
    {
        proof {
            assert(self.ram@.len() == self.ram.len());
        }
        let value = word(self.ram, src);
        self.set_y_bound(index, value);
    }

    pub fn copy_x_bound_from(&mut self, index: usize, src: usize)
        requires
            src + 1 <= usize::MAX,
            ((ROOM_BOUNDS + 8) + (index * 2)) + 1 < old(self).ram().len(),
        ensures
            final(self).ram() == types::with_u16(
                old(self).ram(),
                (ROOM_BOUNDS + 8) + (index * 2),
                access::word_at(old(self).ram(), src as int),
            ),
            final(final(self).ram)@ == final(old(self).ram)@,
    {
        proof {
            assert(self.ram@.len() == self.ram.len());
        }
        let value = word(self.ram, src);
        self.set_x_bound(index, value);
    }

    pub fn copy_packed_bound_from(&mut self, index: usize, src: usize)
        requires
            src + 1 <= usize::MAX,
            (ROOM_BOUNDS + (index * 2)) + 1 < old(self).ram().len(),
        ensures
            final(self).ram() == types::with_u16(
                old(self).ram(),
                ROOM_BOUNDS + (index * 2),
                access::word_at(old(self).ram(), src as int),
            ),
            final(final(self).ram)@ == final(old(self).ram)@,
    {
        proof {
            assert(self.ram@.len() == self.ram.len());
        }
        let value = word(self.ram, src);
        self.set_packed_bound(index, value);
    }

    pub fn add_y_bounds_a(&mut self, value: u16)
        requires
            (ROOM_BOUNDS + (0 * 2)) + 1 < old(self).ram().len(),
            (ROOM_BOUNDS + (2 * 2)) + 1 < old(self).ram().len(),
        ensures
            ({
                let ram1 = types::with_u16(
                    old(self).ram(),
                    ROOM_BOUNDS + (0 * 2),
                    access::word_at(old(self).ram(), ROOM_BOUNDS as int).wrapping_add(value),
                );
                final(self).ram() == types::with_u16(
                    ram1,
                    ROOM_BOUNDS + (2 * 2),
                    access::word_at(ram1, ROOM_BOUNDS + 4).wrapping_add(value),
                )
            }),
            final(final(self).ram)@ == final(old(self).ram)@,
    {
        let next = word(self.ram, ROOM_BOUNDS).wrapping_add(value);
        self.set_y_bound(0, next);
        let next = word(self.ram, ROOM_BOUNDS + 4).wrapping_add(value);
        self.set_y_bound(2, next);
    }

    pub fn add_y_bounds_b(&mut self, value: u16)
        requires
            (ROOM_BOUNDS + (1 * 2)) + 1 < old(self).ram().len(),
            (ROOM_BOUNDS + (3 * 2)) + 1 < old(self).ram().len(),
        ensures
            ({
                let ram1 = types::with_u16(
                    old(self).ram(),
                    ROOM_BOUNDS + (1 * 2),
                    access::word_at(old(self).ram(), ROOM_BOUNDS + 2).wrapping_add(value),
                );
                final(self).ram() == types::with_u16(
                    ram1,
                    ROOM_BOUNDS + (3 * 2),
                    access::word_at(ram1, ROOM_BOUNDS + 6).wrapping_add(value),
                )
            }),
            final(final(self).ram)@ == final(old(self).ram)@,
    {
        let next = word(self.ram, ROOM_BOUNDS + 2).wrapping_add(value);
        self.set_y_bound(1, next);
        let next = word(self.ram, ROOM_BOUNDS + 6).wrapping_add(value);
        self.set_y_bound(3, next);
    }

    pub fn add_x_bounds_a(&mut self, value: u16)
        requires
            ((ROOM_BOUNDS + 8) + (0 * 2)) + 1 < old(self).ram().len(),
            ((ROOM_BOUNDS + 8) + (2 * 2)) + 1 < old(self).ram().len(),
        ensures
            ({
                let ram1 = types::with_u16(
                    old(self).ram(),
                    (ROOM_BOUNDS + 8) + (0 * 2),
                    access::word_at(old(self).ram(), ROOM_BOUNDS + 8).wrapping_add(value),
                );
                final(self).ram() == types::with_u16(
                    ram1,
                    (ROOM_BOUNDS + 8) + (2 * 2),
                    access::word_at(ram1, (ROOM_BOUNDS + 8) + 4)
                        .wrapping_add(value),
                )
            }),
            final(final(self).ram)@ == final(old(self).ram)@,
    {
        let next = word(self.ram, ROOM_BOUNDS + 8).wrapping_add(value);
        self.set_x_bound(0, next);
        let next = word(self.ram, ROOM_BOUNDS + 8 + 4).wrapping_add(value);
        self.set_x_bound(2, next);
    }

    pub fn add_x_bounds_b(&mut self, value: u16)
        requires
            ((ROOM_BOUNDS + 8) + (1 * 2)) + 1 < old(self).ram().len(),
            ((ROOM_BOUNDS + 8) + (3 * 2)) + 1 < old(self).ram().len(),
        ensures
            ({
                let ram1 = types::with_u16(
                    old(self).ram(),
                    (ROOM_BOUNDS + 8) + (1 * 2),
                    access::word_at(old(self).ram(), (ROOM_BOUNDS + 8) + 2).wrapping_add(value),
                );
                final(self).ram() == types::with_u16(
                    ram1,
                    (ROOM_BOUNDS + 8) + (3 * 2),
                    access::word_at(ram1, (ROOM_BOUNDS + 8) + 6)
                        .wrapping_add(value),
                )
            }),
            final(final(self).ram)@ == final(old(self).ram)@,
    {
        let next = word(self.ram, ROOM_BOUNDS + 8 + 2).wrapping_add(value);
        self.set_x_bound(1, next);
        let next = word(self.ram, ROOM_BOUNDS + 8 + 6).wrapping_add(value);
        self.set_x_bound(3, next);
    }

    pub fn copy_y_bounds_from(&mut self, src: usize, count: usize)
        requires
            count > 0 ==> ROOM_BOUNDS + count - 1 < old(self).ram().len(),
            count > 0 ==> src + count - 1 < old(self).ram().len(),
        ensures
            final(self).ram() == access::strided_copy(
                old(self).ram(),
                ROOM_BOUNDS as int,
                1,
                src as int,
                count as nat,
            ),
            final(final(self).ram)@ == final(old(self).ram)@,
    {
        proof {
            assert(self.ram@.len() == self.ram.len());
        }
        for i in 0..count
            invariant
                final(self.ram)@ == final(old(self).ram)@,
                old(self).ram().len() <= usize::MAX,
                count > 0 ==> ROOM_BOUNDS + count - 1 < old(self).ram().len(),
                count > 0 ==> src + count - 1 < old(self).ram().len(),
                self.ram().len() == old(self).ram().len(),
                self.ram() == access::strided_copy(old(self).ram(), ROOM_BOUNDS as int, 1, src as int, i as nat),
        {
            self.ram[ROOM_BOUNDS + i] = self.ram[src + i];
        }
    }
}

} // verus!
