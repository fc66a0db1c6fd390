use vstd::prelude::*;
use super::access;
use super::access::{byte, word, fill_bytes};
use super::addresses::{
    POLYHEDRAL_BUFFER, POLY_A, POLY_B, POLY_BASE_X, POLY_BASE_Y, POLY_CONFIG1,
    POLY_CONFIG_COLOR_MODE, POLY_CONFIG_NUM_POLYS, POLY_CONFIG_NUM_VERTEX, POLY_F0, POLY_F1,
    POLY_FROMLUT_X, POLY_FROMLUT_Y, POLY_FROMLUT_Z, POLY_NUM_VERTEX_IN_POLY,
    POLY_RASTER_COLOR_CONFIG, POLY_SHAPE_DEPTH_BIAS, POLY_TMP0, POLY_TMP2, POLY_WHICH_MODEL,
};
use crate::types;
use crate::types::{write_le_u16};

verus! {

pub struct PolyStateView<'a> {
    ram: &'a [u8],
}

impl<'a> PolyStateView<'a> {
    /// The bytes of RAM this view reads and writes.
    pub closed spec fn ram(&self) -> Seq<u8> {
        self.ram@
    }

    pub fn new(ram: &'a [u8]) -> (view: Self)
        ensures
            view.ram() == ram@,
    {
        Self { ram }
    }

    pub fn config1(&self) -> (result: u8)
        ensures
            result == access::byte_at(self.ram(), POLY_CONFIG1 as int),
    {
        byte(self.ram, POLY_CONFIG1)
    }

    pub fn color_mode(&self) -> (result: u8)
        ensures
            result == access::byte_at(self.ram(), POLY_CONFIG_COLOR_MODE as int),
    {
        byte(self.ram, POLY_CONFIG_COLOR_MODE)
    }

    pub fn model(&self) -> (result: u8)
        ensures
            result == access::byte_at(self.ram(), POLY_WHICH_MODEL as int),
    {
        byte(self.ram, POLY_WHICH_MODEL)
    }

    pub fn angle_a(&self) -> (result: u8)
        ensures
            result == access::byte_at(self.ram(), POLY_A as int),
    {
        byte(self.ram, POLY_A)
    }

    pub fn angle_b(&self) -> (result: u8)
        ensures
            result == access::byte_at(self.ram(), POLY_B as int),
    {
        byte(self.ram, POLY_B)
    }

    pub fn base_x(&self) -> (result: u8)
        ensures
            result == access::byte_at(self.ram(), POLY_BASE_X as int),
    {
        byte(self.ram, POLY_BASE_X)
    }

    pub fn base_y(&self) -> (result: u8)
        ensures
            result == access::byte_at(self.ram(), POLY_BASE_Y as int),
    {
        byte(self.ram, POLY_BASE_Y)
    }

    pub fn shape_depth_bias_low(&self) -> (result: u8)
        ensures
            result == access::byte_at(self.ram(), POLY_SHAPE_DEPTH_BIAS as int),
    {
        byte(self.ram, POLY_SHAPE_DEPTH_BIAS)
    }

    pub fn shape_depth_bias(&self) -> (result: u16)
        ensures
            result == access::word_at(self.ram(), POLY_SHAPE_DEPTH_BIAS as int),
    {
        word(self.ram, POLY_SHAPE_DEPTH_BIAS)
    }

    pub fn num_vertices(&self) -> (result: u8)
        ensures
            result == access::byte_at(self.ram(), POLY_CONFIG_NUM_VERTEX as int),
    {
        byte(self.ram, POLY_CONFIG_NUM_VERTEX)
    }

    pub fn num_polys(&self) -> (result: u8)
        ensures
            result == access::byte_at(self.ram(), POLY_CONFIG_NUM_POLYS as int),
    {
        byte(self.ram, POLY_CONFIG_NUM_POLYS)
    }

    pub fn fromlut_x(&self) -> (result: i8)
        ensures
            result == (access::byte_at(self.ram(), POLY_FROMLUT_X as int) as i8),
    {
        byte(self.ram, POLY_FROMLUT_X) as i8
    }

    pub fn fromlut_y(&self) -> (result: i8)
        ensures
            result == (access::byte_at(self.ram(), POLY_FROMLUT_Y as int) as i8),
    {
        byte(self.ram, POLY_FROMLUT_Y) as i8
    }

    pub fn fromlut_z(&self) -> (result: i8)
        ensures
            result == (access::byte_at(self.ram(), POLY_FROMLUT_Z as int) as i8),
    {
        byte(self.ram, POLY_FROMLUT_Z) as i8
    }

    pub fn f0(&self) -> (result: u8)
        ensures
            result == access::byte_at(self.ram(), POLY_F0 as int),
    {
        byte(self.ram, POLY_F0)
    }

    pub fn f1(&self) -> (result: u8)
        ensures
            result == access::byte_at(self.ram(), POLY_F1 as int),
    {
        byte(self.ram, POLY_F1)
    }

    pub fn num_vertex_in_poly(&self) -> (result: u8)
        ensures
            result == access::byte_at(self.ram(), POLY_NUM_VERTEX_IN_POLY as int),
    {
        byte(self.ram, POLY_NUM_VERTEX_IN_POLY)
    }

    pub fn raster_color_config(&self) -> (result: u8)
        ensures
            result == access::byte_at(self.ram(), POLY_RASTER_COLOR_CONFIG as int),
    {
        byte(self.ram, POLY_RASTER_COLOR_CONFIG)
    }

    pub fn tmp0(&self) -> (result: u8)
        ensures
            result == access::byte_at(self.ram(), POLY_TMP0 as int),
    {
        byte(self.ram, POLY_TMP0)
    }

    pub fn tmp2(&self) -> (result: u8)
        ensures
            result == access::byte_at(self.ram(), POLY_TMP2 as int),
    {
        byte(self.ram, POLY_TMP2)
    }
}

pub struct PolyStateViewMut<'a> {
    pub ram: &'a mut [u8],
}

impl<'a> PolyStateViewMut<'a> {
    /// The bytes of RAM this view reads and writes.
    pub open spec fn ram(&self) -> Seq<u8> {
        self.ram@
    }

    pub fn new(ram: &'a mut [u8]) -> (view: Self)
        ensures
            view.ram() == old(ram)@,
            final(view.ram)@ == final(ram)@,
    {
        Self { ram }
    }

    pub fn set_config1(&mut self, value: u8)
        requires
            POLY_CONFIG1 < old(self).ram().len(),
        ensures
            final(self).ram() == old(self).ram().update(POLY_CONFIG1 as int, value),
            final(final(self).ram)@ == final(old(self).ram)@,
    {
        self.ram[POLY_CONFIG1] = value;
    }

    pub fn clear_config1(&mut self)
        requires
            POLY_CONFIG1 < old(self).ram().len(),
        ensures
            final(self).ram() == old(self).ram().update(POLY_CONFIG1 as int, 0u8),
            final(final(self).ram)@ == final(old(self).ram)@,
    {
        self.ram[POLY_CONFIG1] = 0;
    }

    pub fn increment_config1(&mut self) -> (result: u8)
        requires
            POLY_CONFIG1 < old(self).ram().len(),
        ensures
            result == old(self).ram()[POLY_CONFIG1 as int].wrapping_add(1),
            final(self).ram() == old(self).ram().update(
                POLY_CONFIG1 as int,
                old(self).ram()[POLY_CONFIG1 as int].wrapping_add(1),
            ),
            final(final(self).ram)@ == final(old(self).ram)@,
    {
        self.ram[POLY_CONFIG1] = self.ram[POLY_CONFIG1].wrapping_add(1);
        self.ram[POLY_CONFIG1]
    }

    pub fn subtract_config1(&mut self, value: u8) -> (result: u8)
        requires
            POLY_CONFIG1 < old(self).ram().len(),
        ensures
            result == old(self).ram()[POLY_CONFIG1 as int].wrapping_sub(value),
            final(self).ram() == old(self).ram().update(
                POLY_CONFIG1 as int,
                old(self).ram()[POLY_CONFIG1 as int].wrapping_sub(value),
            ),
            final(final(self).ram)@ == final(old(self).ram)@,
    {
        self.ram[POLY_CONFIG1] = self.ram[POLY_CONFIG1].wrapping_sub(value);
        self.ram[POLY_CONFIG1]
    }

    pub fn set_color_mode(&mut self, value: u8)
        requires
            POLY_CONFIG_COLOR_MODE < old(self).ram().len(),
        ensures
            final(self).ram() == old(self).ram().update(POLY_CONFIG_COLOR_MODE as int, value),
            final(final(self).ram)@ == final(old(self).ram)@,
    {
        self.ram[POLY_CONFIG_COLOR_MODE] = value;
    }

    pub fn set_model(&mut self, value: u8)
        requires
            POLY_WHICH_MODEL < old(self).ram().len(),
        ensures
            final(self).ram() == old(self).ram().update(POLY_WHICH_MODEL as int, value),
            final(final(self).ram)@ == final(old(self).ram)@,
    {
        self.ram[POLY_WHICH_MODEL] = value;
    }

    pub fn set_angle_a(&mut self, value: u8)
        requires
            POLY_A < old(self).ram().len(),
        ensures
            final(self).ram() == old(self).ram().update(POLY_A as int, value),
            final(final(self).ram)@ == final(old(self).ram)@,
    {
        self.ram[POLY_A] = value;
    }

    pub fn set_angle_b(&mut self, value: u8)
        requires
            POLY_B < old(self).ram().len(),
        ensures
            final(self).ram() == old(self).ram().update(POLY_B as int, value),
            final(final(self).ram)@ == final(old(self).ram)@,
    {
        self.ram[POLY_B] = value;
    }

    pub fn clear_angles(&mut self)
        requires
            POLY_A < old(self).ram().len(),
            POLY_B < old(self).ram().len(),
        ensures
            final(self).ram() == old(self).ram()
                .update(POLY_A as int, 0u8)
                .update(POLY_B as int, 0u8),
            final(final(self).ram)@ == final(old(self).ram)@,
    {
        self.ram[POLY_A] = 0;
        self.ram[POLY_B] = 0;
    }

    pub fn add_angle_a(&mut self, value: u8) -> (result: u8)
        requires
            POLY_A < old(self).ram().len(),
        ensures
            result == old(self).ram()[POLY_A as int].wrapping_add(value),
            final(self).ram() == old(self).ram().update(
                POLY_A as int,
                old(self).ram()[POLY_A as int].wrapping_add(value),
            ),
            final(final(self).ram)@ == final(old(self).ram)@,
    {
        self.ram[POLY_A] = self.ram[POLY_A].wrapping_add(value);
        self.ram[POLY_A]
    }

    pub fn add_angle_b(&mut self, value: u8) -> (result: u8)
        requires
            POLY_B < old(self).ram().len(),
        ensures
            result == old(self).ram()[POLY_B as int].wrapping_add(value),
            final(self).ram() == old(self).ram().update(
                POLY_B as int,
                old(self).ram()[POLY_B as int].wrapping_add(value),
            ),
            final(final(self).ram)@ == final(old(self).ram)@,
    {
        self.ram[POLY_B] = self.ram[POLY_B].wrapping_add(value);
        self.ram[POLY_B]
    }

    pub fn add_angles(&mut self, angle_a: u8, angle_b: u8)
        requires
            POLY_A < old(self).ram().len(),
            POLY_B < old(self).ram().len(),
        ensures
            final(self).ram() == old(self).ram()
                .update(POLY_A as int, old(self).ram()[POLY_A as int].wrapping_add(angle_a))
                .update(POLY_B as int, old(self).ram()[POLY_B as int].wrapping_add(angle_b)),
            final(final(self).ram)@ == final(old(self).ram)@,
    {
        self.add_angle_a(angle_a);
        self.add_angle_b(angle_b);
    }

    pub fn set_base_x(&mut self, value: u8)
        requires
            POLY_BASE_X < old(self).ram().len(),
        ensures
            final(self).ram() == old(self).ram().update(POLY_BASE_X as int, value),
            final(final(self).ram)@ == final(old(self).ram)@,
    {
        self.ram[POLY_BASE_X] = value;
    }

    pub fn set_base_y(&mut self, value: u8)
        requires
            POLY_BASE_Y < old(self).ram().len(),
        ensures
            final(self).ram() == old(self).ram().update(POLY_BASE_Y as int, value),
            final(final(self).ram)@ == final(old(self).ram)@,
    {
        self.ram[POLY_BASE_Y] = value;
    }

    pub fn set_base_position(&mut self, x: u8, y: u8)
        requires
            POLY_BASE_X < old(self).ram().len(),
            POLY_BASE_Y < old(self).ram().len(),
        ensures
            final(self).ram() == old(self).ram()
                .update(POLY_BASE_X as int, x)
                .update(POLY_BASE_Y as int, y),
            final(final(self).ram)@ == final(old(self).ram)@,
    {
        self.ram[POLY_BASE_X] = x;
        self.ram[POLY_BASE_Y] = y;
    }

    pub fn set_shape_depth_bias_low(&mut self, value: u8)
        requires
            POLY_SHAPE_DEPTH_BIAS < old(self).ram().len(),
        ensures
            final(self).ram() == old(self).ram().update(POLY_SHAPE_DEPTH_BIAS as int, value),
            final(final(self).ram)@ == final(old(self).ram)@,
    {
        self.ram[POLY_SHAPE_DEPTH_BIAS] = value;
    }

    pub fn set_shape_depth_bias(&mut self, value: u16)
        requires
            POLY_SHAPE_DEPTH_BIAS + 1 < old(self).ram().len(),
        ensures
            final(self).ram() == types::with_u16(
                old(self).ram(),
                POLY_SHAPE_DEPTH_BIAS as int,
                value,
            ),
            final(final(self).ram)@ == final(old(self).ram)@,
    {
        write_le_u16(self.ram, POLY_SHAPE_DEPTH_BIAS, value);
    }

    pub fn set_num_vertices(&mut self, value: u8)
        requires
            POLY_CONFIG_NUM_VERTEX < old(self).ram().len(),
        ensures
            final(self).ram() == old(self).ram().update(POLY_CONFIG_NUM_VERTEX as int, value),
            final(final(self).ram)@ == final(old(self).ram)@,
    {
        self.ram[POLY_CONFIG_NUM_VERTEX] = value;
    }

    pub fn set_num_polys(&mut self, value: u8)
        requires
            POLY_CONFIG_NUM_POLYS < old(self).ram().len(),
        ensures
            final(self).ram() == old(self).ram().update(POLY_CONFIG_NUM_POLYS as int, value),
            final(final(self).ram)@ == final(old(self).ram)@,
    {
        self.ram[POLY_CONFIG_NUM_POLYS] = value;
    }

    pub fn decrement_num_polys(&mut self) -> (result: u8)
        requires
            POLY_CONFIG_NUM_POLYS < old(self).ram().len(),
        ensures
            result == old(self).ram()[POLY_CONFIG_NUM_POLYS as int].wrapping_sub(1),
            final(self).ram() == old(self).ram().update(
                POLY_CONFIG_NUM_POLYS as int,
                old(self).ram()[POLY_CONFIG_NUM_POLYS as int].wrapping_sub(1),
            ),
            final(final(self).ram)@ == final(old(self).ram)@,
    {
        self.ram[POLY_CONFIG_NUM_POLYS] = self.ram[POLY_CONFIG_NUM_POLYS].wrapping_sub(1);
        self.ram[POLY_CONFIG_NUM_POLYS]
    }

    pub fn set_fromlut_position(&mut self, x: u8, y: u8, z: u8)
        requires
            POLY_FROMLUT_X < old(self).ram().len(),
            POLY_FROMLUT_Y < old(self).ram().len(),
            POLY_FROMLUT_Z < old(self).ram().len(),
        ensures
            final(self).ram() == old(self).ram()
                .update(POLY_FROMLUT_X as int, x)
                .update(POLY_FROMLUT_Y as int, y)
                .update(POLY_FROMLUT_Z as int, z),
            final(final(self).ram)@ == final(old(self).ram)@,
    {
        self.ram[POLY_FROMLUT_X] = x;
        self.ram[POLY_FROMLUT_Y] = y;
        self.ram[POLY_FROMLUT_Z] = z;
    }

    pub fn set_num_vertex_in_poly(&mut self, value: u8)
        requires
            POLY_NUM_VERTEX_IN_POLY < old(self).ram().len(),
        ensures
            final(self).ram() == old(self).ram().update(POLY_NUM_VERTEX_IN_POLY as int, value),
            final(final(self).ram)@ == final(old(self).ram)@,
    {
        self.ram[POLY_NUM_VERTEX_IN_POLY] = value;
    }

    pub fn set_raster_color_config(&mut self, value: u8)
        requires
            POLY_RASTER_COLOR_CONFIG < old(self).ram().len(),
        ensures
            final(self).ram() == old(self).ram().update(POLY_RASTER_COLOR_CONFIG as int, value),
            final(final(self).ram)@ == final(old(self).ram)@,
    {
        self.ram[POLY_RASTER_COLOR_CONFIG] = value;
    }

    pub fn set_tmp0(&mut self, value: u8)
        requires
            POLY_TMP0 < old(self).ram().len(),
        ensures
            final(self).ram() == old(self).ram().update(POLY_TMP0 as int, value),
            final(final(self).ram)@ == final(old(self).ram)@,
    {
        self.ram[POLY_TMP0] = value;
    }

    pub fn decrement_tmp0(&mut self) -> (result: u8)
        requires
            POLY_TMP0 < old(self).ram().len(),
        ensures
            result == old(self).ram()[POLY_TMP0 as int].wrapping_sub(1),
            final(self).ram() == old(self).ram().update(
                POLY_TMP0 as int,
                old(self).ram()[POLY_TMP0 as int].wrapping_sub(1),
            ),
            final(final(self).ram)@ == final(old(self).ram)@,
    {
        self.ram[POLY_TMP0] = self.ram[POLY_TMP0].wrapping_sub(1);
        self.ram[POLY_TMP0]
    }

    pub fn set_tmp2(&mut self, value: u8)
        requires
            POLY_TMP2 < old(self).ram().len(),
        ensures
            final(self).ram() == old(self).ram().update(POLY_TMP2 as int, value),
            final(final(self).ram)@ == final(old(self).ram)@,
    {
        self.ram[POLY_TMP2] = value;
    }

    pub fn clear_poly_buffer(&mut self)
        requires
            POLYHEDRAL_BUFFER + 0x800 <= old(self).ram().len(),
        ensures
            final(self).ram() == access::filled(
                old(self).ram(),
                POLYHEDRAL_BUFFER as int,
                POLYHEDRAL_BUFFER + 0x800,
                0u8,
            ),
            final(final(self).ram)@ == final(old(self).ram)@,
    {
        fill_bytes(self.ram, POLYHEDRAL_BUFFER, POLYHEDRAL_BUFFER + 0x800, 0);
    }
}

} // verus!
