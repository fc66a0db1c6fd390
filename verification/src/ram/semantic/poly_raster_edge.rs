use vstd::prelude::*;
use super::access;
use super::access::{byte};
use super::addresses::{
    POLY_CUR_VERTEX_IDX0, POLY_CUR_VERTEX_IDX1, POLY_TOTAL_NUM_STEPS, POLY_X0_CUR, POLY_X0_TARGET,
    POLY_X1_CUR, POLY_X1_TARGET, POLY_Y0_CUR, POLY_Y0_TRIG, POLY_Y1_CUR, POLY_Y1_TRIG,
};

verus! {

pub struct PolyRasterEdgeView<'a> {
    ram: &'a [u8],
}

impl<'a> PolyRasterEdgeView<'a> {
    /// The bytes of RAM this view reads and writes.
    pub closed spec fn ram(&self) -> Seq<u8> {
        self.ram@
    }

    pub fn new(ram: &'a [u8]) -> (view: Self)
        ensures
            view.ram() == ram@,
    {
        Self { ram }
    }

    pub fn x0_cur(&self) -> (result: u8)
        ensures
            result == access::byte_at(self.ram(), POLY_X0_CUR as int),
    {
        byte(self.ram, POLY_X0_CUR)
    }

    pub fn y0_cur(&self) -> (result: u8)
        ensures
            result == access::byte_at(self.ram(), POLY_Y0_CUR as int),
    {
        byte(self.ram, POLY_Y0_CUR)
    }

    pub fn x1_cur(&self) -> (result: u8)
        ensures
            result == access::byte_at(self.ram(), POLY_X1_CUR as int),
    {
        byte(self.ram, POLY_X1_CUR)
    }

    pub fn y1_cur(&self) -> (result: u8)
        ensures
            result == access::byte_at(self.ram(), POLY_Y1_CUR as int),
    {
        byte(self.ram, POLY_Y1_CUR)
    }

    pub fn x0_target(&self) -> (result: u8)
        ensures
            result == access::byte_at(self.ram(), POLY_X0_TARGET as int),
    {
        byte(self.ram, POLY_X0_TARGET)
    }

    pub fn y0_trigger(&self) -> (result: u8)
        ensures
            result == access::byte_at(self.ram(), POLY_Y0_TRIG as int),
    {
        byte(self.ram, POLY_Y0_TRIG)
    }

    pub fn x1_target(&self) -> (result: u8)
        ensures
            result == access::byte_at(self.ram(), POLY_X1_TARGET as int),
    {
        byte(self.ram, POLY_X1_TARGET)
    }

    pub fn y1_trigger(&self) -> (result: u8)
        ensures
            result == access::byte_at(self.ram(), POLY_Y1_TRIG as int),
    {
        byte(self.ram, POLY_Y1_TRIG)
    }

    pub fn total_num_steps(&self) -> (result: u8)
        ensures
            result == access::byte_at(self.ram(), POLY_TOTAL_NUM_STEPS as int),
    {
        byte(self.ram, POLY_TOTAL_NUM_STEPS)
    }

    pub fn total_num_steps_signed(&self) -> (result: i8)
        ensures
            result == (access::byte_at(self.ram(), POLY_TOTAL_NUM_STEPS as int) as i8),
    {
        byte(self.ram, POLY_TOTAL_NUM_STEPS) as i8
    }

    pub fn cur_vertex_idx0(&self) -> (result: u8)
        ensures
            result == access::byte_at(self.ram(), POLY_CUR_VERTEX_IDX0 as int),
    {
        byte(self.ram, POLY_CUR_VERTEX_IDX0)
    }

    pub fn cur_vertex_idx1(&self) -> (result: u8)
        ensures
            result == access::byte_at(self.ram(), POLY_CUR_VERTEX_IDX1 as int),
    {
        byte(self.ram, POLY_CUR_VERTEX_IDX1)
    }
}

pub struct PolyRasterEdgeViewMut<'a> {
    pub ram: &'a mut [u8],
}

impl<'a> PolyRasterEdgeViewMut<'a> {
    /// The bytes of RAM this view reads and writes.
    pub open spec fn ram(&self) -> Seq<u8> {
        self.ram@
    }

    pub fn new(ram: &'a mut [u8]) -> (view: Self)
        ensures
            view.ram() == old(ram)@,
            final(view.ram)@ == final(ram)@,
    {
        Self { ram }
    }

    pub fn set_left_current(&mut self, x: u8, y: u8)
        requires
            POLY_X0_CUR < old(self).ram().len(),
            POLY_Y0_CUR < old(self).ram().len(),
        ensures
            final(self).ram() == old(self).ram()
                .update(POLY_X0_CUR as int, x)
                .update(POLY_Y0_CUR as int, y),
            final(final(self).ram)@ == final(old(self).ram)@,
    {
        self.ram[POLY_X0_CUR] = x;
        self.ram[POLY_Y0_CUR] = y;
    }

    pub fn set_right_current(&mut self, x: u8, y: u8)
        requires
            POLY_X1_CUR < old(self).ram().len(),
            POLY_Y1_CUR < old(self).ram().len(),
        ensures
            final(self).ram() == old(self).ram()
                .update(POLY_X1_CUR as int, x)
                .update(POLY_Y1_CUR as int, y),
            final(final(self).ram)@ == final(old(self).ram)@,
    {
        self.ram[POLY_X1_CUR] = x;
        self.ram[POLY_Y1_CUR] = y;
    }

    pub fn set_left_target(&mut self, x: u8, y: u8)
        requires
            POLY_X0_TARGET < old(self).ram().len(),
            POLY_Y0_TRIG < old(self).ram().len(),
        ensures
            final(self).ram() == old(self).ram()
                .update(POLY_X0_TARGET as int, x)
                .update(POLY_Y0_TRIG as int, y),
            final(final(self).ram)@ == final(old(self).ram)@,
    {
        self.ram[POLY_X0_TARGET] = x;
        self.ram[POLY_Y0_TRIG] = y;
    }

    pub fn set_right_target(&mut self, x: u8, y: u8)
        requires
            POLY_X1_TARGET < old(self).ram().len(),
            POLY_Y1_TRIG < old(self).ram().len(),
        ensures
            final(self).ram() == old(self).ram()
                .update(POLY_X1_TARGET as int, x)
                .update(POLY_Y1_TRIG as int, y),
            final(final(self).ram)@ == final(old(self).ram)@,
    {
        self.ram[POLY_X1_TARGET] = x;
        self.ram[POLY_Y1_TRIG] = y;
    }

    pub fn set_left_current_x(&mut self, x: u8)
        requires
            POLY_X0_CUR < old(self).ram().len(),
        ensures
            final(self).ram() == old(self).ram().update(POLY_X0_CUR as int, x),
            final(final(self).ram)@ == final(old(self).ram)@,
    {
        self.ram[POLY_X0_CUR] = x;
    }

    pub fn set_right_current_x(&mut self, x: u8)
        requires
            POLY_X1_CUR < old(self).ram().len(),
        ensures
            final(self).ram() == old(self).ram().update(POLY_X1_CUR as int, x),
            final(final(self).ram)@ == final(old(self).ram)@,
    {
        self.ram[POLY_X1_CUR] = x;
    }

    pub fn set_total_num_steps(&mut self, value: u8)
        requires
            POLY_TOTAL_NUM_STEPS < old(self).ram().len(),
        ensures
            final(self).ram() == old(self).ram().update(POLY_TOTAL_NUM_STEPS as int, value),
            final(final(self).ram)@ == final(old(self).ram)@,
    {
        self.ram[POLY_TOTAL_NUM_STEPS] = value;
    }

    pub fn decrement_total_num_steps(&mut self) -> (result: i8)
        requires
            POLY_TOTAL_NUM_STEPS < old(self).ram().len(),
        ensures
            result == (old(self).ram()[POLY_TOTAL_NUM_STEPS as int].wrapping_sub(1) as i8),
            final(self).ram() == old(self).ram().update(
                POLY_TOTAL_NUM_STEPS as int,
                old(self).ram()[POLY_TOTAL_NUM_STEPS as int].wrapping_sub(1),
            ),
            final(final(self).ram)@ == final(old(self).ram)@,
    {
        self.ram[POLY_TOTAL_NUM_STEPS] = self.ram[POLY_TOTAL_NUM_STEPS].wrapping_sub(1);
        self.ram[POLY_TOTAL_NUM_STEPS] as i8
    }

    pub fn set_both_cur_vertex_idx(&mut self, value: u8)
        requires
            POLY_CUR_VERTEX_IDX0 < old(self).ram().len(),
            POLY_CUR_VERTEX_IDX1 < old(self).ram().len(),
        ensures
            final(self).ram() == old(self).ram()
                .update(POLY_CUR_VERTEX_IDX0 as int, value)
                .update(POLY_CUR_VERTEX_IDX1 as int, value),
            final(final(self).ram)@ == final(old(self).ram)@,
    {
        self.ram[POLY_CUR_VERTEX_IDX0] = value;
        self.ram[POLY_CUR_VERTEX_IDX1] = value;
    }

    pub fn set_cur_vertex_idx0(&mut self, value: u8)
        requires
            POLY_CUR_VERTEX_IDX0 < old(self).ram().len(),
        ensures
            final(self).ram() == old(self).ram().update(POLY_CUR_VERTEX_IDX0 as int, value),
            final(final(self).ram)@ == final(old(self).ram)@,
    {
        self.ram[POLY_CUR_VERTEX_IDX0] = value;
    }

    pub fn set_cur_vertex_idx1(&mut self, value: u8)
        requires
            POLY_CUR_VERTEX_IDX1 < old(self).ram().len(),
        ensures
            final(self).ram() == old(self).ram().update(POLY_CUR_VERTEX_IDX1 as int, value),
            final(final(self).ram)@ == final(old(self).ram)@,
    {
        self.ram[POLY_CUR_VERTEX_IDX1] = value;
    }

    pub fn increment_y0_cur(&mut self)
        requires
            POLY_Y0_CUR < old(self).ram().len(),
        ensures
            final(self).ram() == old(self).ram().update(
                POLY_Y0_CUR as int,
                old(self).ram()[POLY_Y0_CUR as int].wrapping_add(1),
            ),
            final(final(self).ram)@ == final(old(self).ram)@,
    {
        self.ram[POLY_Y0_CUR] = self.ram[POLY_Y0_CUR].wrapping_add(1);
    }

    pub fn increment_y1_cur(&mut self)
        requires
            POLY_Y1_CUR < old(self).ram().len(),
        ensures
            final(self).ram() == old(self).ram().update(
                POLY_Y1_CUR as int,
                old(self).ram()[POLY_Y1_CUR as int].wrapping_add(1),
            ),
            final(final(self).ram)@ == final(old(self).ram)@,
    {
        self.ram[POLY_Y1_CUR] = self.ram[POLY_Y1_CUR].wrapping_add(1);
    }
}

} // verus!
