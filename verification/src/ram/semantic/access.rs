//! Byte-level access shared by the views: tolerant reads, split positions
//! and the fixed-point movement used by sprites, ancillae and the player.

use vstd::prelude::*;
use crate::types;
use crate::types::{read_le_u16, write_le_u16};

verus! {

/// The byte at `offset`, or 0 past the end of RAM.
pub open spec fn byte_at(ram: Seq<u8>, offset: int) -> u8 {
    if 0 <= offset < ram.len() {
        ram[offset]
    } else {
        0
    }
}

/// The little-endian word at `offset`, or 0 unless both of its bytes are in RAM.
pub open spec fn word_at(ram: Seq<u8>, offset: int) -> u16 {
    if 0 <= offset && offset + 1 < ram.len() {
        types::u16_at(ram, offset)
    } else {
        0
    }
}

/// The 24-bit fixed-point coordinate held in a subpixel, a low and a high byte.
pub open spec fn axis24(ram: Seq<u8>, subpixel: int, low: int, high: int) -> int {
    ram[subpixel] + 256 * ram[low] + 65536 * ram[high]
}

/// The 24-bit coordinate after one step of `velocity` (a signed byte counted
/// in sixteenths of a pixel), wrapping around.
pub open spec fn axis24_moved(ram: Seq<u8>, subpixel: int, low: int, high: int, velocity: int) -> int {
    (axis24(ram, subpixel, low, high) + 16 * (ram[velocity] as i8)) % 0x100_0000
}

/// RAM after one velocity step of a 24-bit coordinate.
pub open spec fn moved_axis24(ram: Seq<u8>, subpixel: int, low: int, high: int, velocity: int) -> Seq<u8> {
    let moved = axis24_moved(ram, subpixel, low, high, velocity);
    ram.update(subpixel, (moved % 256) as u8).update(low, ((moved / 256) % 256) as u8).update(
        high,
        (moved / 65536) as u8,
    )
}

/// The 16-bit coordinate held in a subpixel byte and a whole-pixel byte.
pub open spec fn axis16(ram: Seq<u8>, subpixel: int, offset: int) -> int {
    ram[subpixel] + 256 * ram[offset]
}

/// The 16-bit coordinate after one velocity step, wrapping around.
pub open spec fn axis16_moved(ram: Seq<u8>, subpixel: int, offset: int, velocity: int) -> int {
    (axis16(ram, subpixel, offset) + 16 * (ram[velocity] as i8)) % 0x1_0000
}

/// RAM after one velocity step of a 16-bit coordinate.
pub open spec fn moved_axis16(ram: Seq<u8>, subpixel: int, offset: int, velocity: int) -> Seq<u8> {
    let moved = axis16_moved(ram, subpixel, offset, velocity);
    ram.update(subpixel, (moved % 256) as u8).update(offset, (moved / 256) as u8)
}

/// A player coordinate with its subpixel byte, moved by `amount` subpixels,
/// wrapping at 24 bits.
pub open spec fn link_axis_moved(ram: Seq<u8>, subpixel: int, coord: int, amount: int) -> int {
    (ram[subpixel] + 256 * types::u16_at(ram, coord) + amount) % 0x100_0000
}

/// The whole-pixel part of a moved player coordinate.
pub open spec fn link_axis_target(ram: Seq<u8>, subpixel: int, coord: int, amount: int) -> u16 {
    (link_axis_moved(ram, subpixel, coord, amount) / 256) as u16
}

/// RAM after moving a player coordinate by `amount` subpixels.
pub open spec fn with_link_axis(ram: Seq<u8>, subpixel: int, coord: int, amount: int) -> Seq<u8> {
    let moved = link_axis_moved(ram, subpixel, coord, amount);
    types::with_u16(
        ram.update(subpixel, (moved % 256) as u8),
        coord,
        link_axis_target(ram, subpixel, coord, amount),
    )
}

/// `ram` with every byte in `start..end` set to `value`.
pub open spec fn filled(ram: Seq<u8>, start: int, end: int, value: u8) -> Seq<u8> {
    Seq::new(ram.len(), |i: int| if start <= i < end { value } else { ram[i] })
}

/// `ram` with `src` copied to the bytes from `start` on.
pub open spec fn copied(ram: Seq<u8>, start: int, src: Seq<u8>) -> Seq<u8> {
    Seq::new(ram.len(), |i: int| if start <= i < start + src.len() { src[i - start] } else { ram[i] })
}

/// RAM after copying `count` bytes one at a time, byte `k` going from
/// `src + k` to `dst + k * stride`, each copy seeing the ones before it.
pub open spec fn strided_copy(ram: Seq<u8>, dst: int, stride: int, src: int, count: nat) -> Seq<u8>
    decreases count,
{
    if count == 0 {
        ram
    } else {
        let before = strided_copy(ram, dst, stride, src, (count - 1) as nat);
        before.update(dst + (count - 1) * stride, before[src + count - 1])
    }
}

/// RAM after copying two rows of `count` bytes side by side: step `k` first
/// copies `src0 + k` to `top + k`, then `src1 + k` to `bottom + k`, each copy
/// seeing the ones before it.
pub open spec fn row_pair_copy(ram: Seq<u8>, top: int, bottom: int, src0: int, src1: int, count: nat) -> Seq<u8>
    decreases count,
{
    if count == 0 {
        ram
    } else {
        let k = count - 1;
        let before = row_pair_copy(ram, top, bottom, src0, src1, k as nat);
        let upper = before.update(top + k, before[src0 + k]);
        upper.update(bottom + k, upper[src1 + k])
    }
}

/// Reads a byte; past the end of RAM it reads 0.
pub fn byte(ram: &[u8], offset: usize) -> (value: u8)
    ensures
        value == byte_at(ram@, offset as int),
{
    if offset < ram.len() {
        ram[offset]
    } else {
        0
    }
}

/// Reads a little-endian word; unless both bytes are in RAM it reads 0.
pub fn word(ram: &[u8], offset: usize) -> (value: u16)
    requires
        offset + 1 <= usize::MAX,
    ensures
        value == word_at(ram@, offset as int),
{
    if offset + 1 < ram.len() {
        read_le_u16(ram, offset)
    } else {
        0
    }
}

/// Copies the word at `src` to `dst`.
pub fn copy_word(ram: &mut [u8], dst: usize, src: usize)
    requires
        dst + 1 < old(ram)@.len(),
        src + 1 < old(ram)@.len(),
    ensures
        final(ram)@ == types::with_u16(old(ram)@, dst as int, types::u16_at(old(ram)@, src as int)),
{
    let value = read_le_u16(ram, src);
    write_le_u16(ram, dst, value);
}

/// A position kept as two separate bytes, low and high.
pub fn packed_position(ram: &[u8], low_offset: usize, high_offset: usize) -> (value: u16)
    ensures
        value == types::le_word(byte_at(ram@, low_offset as int), byte_at(ram@, high_offset as int)),
{
    let lo = byte(ram, low_offset);
    let hi = byte(ram, high_offset);
    assert((lo as u16) | ((hi as u16) << 8) == (lo as u16) + 256 * (hi as u16)) by (bit_vector);
    (lo as u16) | ((hi as u16) << 8)
}

/// Stores a position as two separate bytes, low and high.
pub fn write_position(ram: &mut [u8], low_offset: usize, high_offset: usize, value: u16)
    requires
        low_offset < old(ram)@.len(),
        high_offset < old(ram)@.len(),
    ensures
        final(ram)@ == old(ram)@.update(low_offset as int, types::low_byte(value)).update(
            high_offset as int,
            types::high_byte(value),
        ),
{
    assert(value as u8 == value % 256) by (bit_vector);
    assert((value >> 8) as u8 == value / 256) by (bit_vector);
    ram[low_offset] = value as u8;
    ram[high_offset] = (value >> 8) as u8;
}

/// The sign-extended velocity byte, scaled to subpixels, as a 32-bit word.
proof fn lemma_velocity_delta32(v: u8)
    ensures
        v < 128 ==> (((v as i8 as i32) << 4) as u32) as int == 16 * v,
        v >= 128 ==> (((v as i8 as i32) << 4) as u32) as int == 0x1_0000_0000 - 16 * (256 - v),
        (v as i8) as int == if v < 128 { v as int } else { v - 256 },
{
    assert(v < 128 ==> ((v as i8 as i32) << 4) as u32 == 16 * (v as u32)) by (bit_vector);
    assert(v >= 128 ==> ((v as i8 as i32) << 4) as u32 == 0xffff_ffffu32 - (16 * (256 - (v as u32)) - 1))
        by (bit_vector);
    assert(v < 128 ==> (v as i8) as i32 == v as i32) by (bit_vector);
    assert(v >= 128 ==> (v as i8) as i32 == (v as i32) - 256) by (bit_vector);
}

proof fn lemma_velocity_delta16(v: u8)
    ensures
        v < 128 ==> (((v as i8 as i32) << 4) as u16) as int == 16 * v,
        v >= 128 ==> (((v as i8 as i32) << 4) as u16) as int == 0x1_0000 - 16 * (256 - v),
        (v as i8) as int == if v < 128 { v as int } else { v - 256 },
{
    assert(v < 128 ==> ((v as i8 as i32) << 4) as u16 == 16 * (v as u16)) by (bit_vector);
    assert(v >= 128 ==> ((v as i8 as i32) << 4) as u16 == 0xffffu16 - (16 * (256 - (v as u16)) - 1))
        by (bit_vector);
    assert(v < 128 ==> (v as i8) as i32 == v as i32) by (bit_vector);
    assert(v >= 128 ==> (v as i8) as i32 == (v as i32) - 256) by (bit_vector);
}

proof fn lemma_bytes_of_u32(m: u32)
    ensures
        m as u8 == m % 256,
        (m >> 8) as u8 == (m / 256) % 256,
        (m >> 16) as u8 == (m / 65536) % 256,
        (m >> 8) as u16 == (m / 256) % 65536,
{
    assert(m as u8 == m % 256) by (bit_vector);
    assert((m >> 8) as u8 == (m / 256) % 256) by (bit_vector);
    assert((m >> 16) as u8 == (m / 65536) % 256) by (bit_vector);
    assert((m >> 8) as u16 == (m / 256) % 65536) by (bit_vector);
}

proof fn lemma_join24(s: u8, l: u8, h: u8)
    ensures
        (s as u32) | ((l as u32) << 8) | ((h as u32) << 16) == s + 256 * l + 65536 * h,
{
    assert((s as u32) | ((l as u32) << 8) | ((h as u32) << 16) == (s as u32) + 256 * (l as u32) + 65536
        * (h as u32)) by (bit_vector);
}

/// `x % 2^24` taken apart into its three bytes, when `x` agrees with `m` modulo `2^32`.
proof fn lemma_mod24_bytes(x: int, m: int)
    requires
        0 <= m < 0x1_0000_0000,
        (x - m) % 0x1_0000_0000 == 0,
    ensures
        (x % 0x100_0000) % 256 == m % 256,
        ((x % 0x100_0000) / 256) % 256 == (m / 256) % 256,
        (x % 0x100_0000) / 65536 == (m / 65536) % 256,
        (x % 0x100_0000) / 256 == (m / 256) % 65536,
{
    let k = (x - m) / 0x1_0000_0000;
    assert(x == m + 0x1_0000_0000 * k);
    let r = m % 0x100_0000;
    assert(m == 0x100_0000 * (m / 0x100_0000) + r);
    assert(x == 0x100_0000 * (m / 0x100_0000 + 256 * k) + r);
    assert(x % 0x100_0000 == r) by {
        vstd::arithmetic::div_mod::lemma_mod_multiples_vanish(m / 0x100_0000 + 256 * k, r, 0x100_0000);
        vstd::arithmetic::div_mod::lemma_small_mod(r as nat, 0x100_0000);
    }
}

/// Moves a 24-bit fixed-point coordinate by its velocity byte.
pub fn move_axis24(
    ram: &mut [u8],
    subpixel_offset: usize,
    low_offset: usize,
    high_offset: usize,
    velocity_offset: usize,
)
    requires
        subpixel_offset < old(ram)@.len(),
        low_offset < old(ram)@.len(),
        high_offset < old(ram)@.len(),
        velocity_offset < old(ram)@.len(),
    ensures
        final(ram)@ == moved_axis24(
            old(ram)@,
            subpixel_offset as int,
            low_offset as int,
            high_offset as int,
            velocity_offset as int,
        ),
{
    let s = ram[subpixel_offset];
    let l = ram[low_offset];
    let h = ram[high_offset];
    let v = ram[velocity_offset];
    let pos = (s as u32) | ((l as u32) << 8) | ((h as u32) << 16);
    let delta = ((v as i8 as i32) << 4) as u32;
    let moved = pos.wrapping_add(delta);
    proof {
        lemma_join24(s, l, h);
        lemma_velocity_delta32(v);
        lemma_bytes_of_u32(moved);
        let x = s + 256 * l + 65536 * h + 16 * (v as i8);
        assert((x - moved) % 0x1_0000_0000 == 0);
        lemma_mod24_bytes(x, moved as int);
    }
    ram[subpixel_offset] = moved as u8;
    ram[low_offset] = (moved >> 8) as u8;
    ram[high_offset] = (moved >> 16) as u8;
}

/// Moves a 16-bit fixed-point coordinate by its velocity byte.
pub fn move_axis16(ram: &mut [u8], subpixel_offset: usize, offset: usize, velocity_offset: usize)
    requires
        subpixel_offset < old(ram)@.len(),
        offset < old(ram)@.len(),
        velocity_offset < old(ram)@.len(),
    ensures
        final(ram)@ == moved_axis16(
            old(ram)@,
            subpixel_offset as int,
            offset as int,
            velocity_offset as int,
        ),
{
    let s = ram[subpixel_offset];
    let o = ram[offset];
    let v = ram[velocity_offset];
    let pos = ((o as u16) << 8) | (s as u16);
    let delta = ((v as i8 as i32) << 4) as u16;
    let moved = pos.wrapping_add(delta);
    proof {
        assert(((o as u16) << 8) | (s as u16) == (s as u16) + 256 * (o as u16)) by (bit_vector);
        lemma_velocity_delta16(v);
        assert(moved as u8 == moved % 256) by (bit_vector);
        assert((moved >> 8) as u8 == moved / 256) by (bit_vector);
    }
    ram[subpixel_offset] = moved as u8;
    ram[offset] = (moved >> 8) as u8;
}

/// Moves a player coordinate (a subpixel byte plus a little-endian word) by
/// its velocity byte and returns the new whole-pixel coordinate.
pub fn move_link_axis_by_velocity(
    ram: &mut [u8],
    subpixel_offset: usize,
    coord_offset: usize,
    velocity: u8,
) -> (coord: u16)
    requires
        subpixel_offset < old(ram)@.len(),
        coord_offset + 1 < old(ram)@.len(),
    ensures
        final(ram)@ == with_link_axis(
            old(ram)@,
            subpixel_offset as int,
            coord_offset as int,
            16 * (velocity as i8),
        ),
        coord == link_axis_target(
            old(ram)@,
            subpixel_offset as int,
            coord_offset as int,
            16 * (velocity as i8),
        ),
{
    let s = ram[subpixel_offset];
    let c = read_le_u16(ram, coord_offset);
    let pos = (s as u32) | ((c as u32) << 8);
    let delta = ((velocity as i8 as i32) << 4) as u32;
    let moved = pos.wrapping_add(delta);
    proof {
        assert((s as u32) | ((c as u32) << 8) == (s as u32) + 256 * (c as u32)) by (bit_vector);
        lemma_velocity_delta32(velocity);
        lemma_bytes_of_u32(moved);
        let x = s + 256 * c + 16 * (velocity as i8);
        assert((x - moved) % 0x1_0000_0000 == 0);
        lemma_mod24_bytes(x, moved as int);
    }
    ram[subpixel_offset] = moved as u8;
    write_le_u16(ram, coord_offset, (moved >> 8) as u16);
    (moved >> 8) as u16
}

/// Moves a player coordinate by a signed 16-bit subpixel delta and returns the
/// new whole-pixel coordinate.
pub fn move_link_axis_by_subpixel_delta(
    ram: &mut [u8],
    subpixel_offset: usize,
    coord_offset: usize,
    delta: u16,
) -> (coord: u16)
    requires
        subpixel_offset < old(ram)@.len(),
        coord_offset + 1 < old(ram)@.len(),
    ensures
        final(ram)@ == with_link_axis(
            old(ram)@,
            subpixel_offset as int,
            coord_offset as int,
            delta as i16 as int,
        ),
        coord == link_axis_target(
            old(ram)@,
            subpixel_offset as int,
            coord_offset as int,
            delta as i16 as int,
        ),
{
    let s = ram[subpixel_offset];
    let c = read_le_u16(ram, coord_offset);
    let pos = (s as u32) | ((c as u32) << 8);
    let step = delta as i16 as i32 as u32;
    let moved = pos.wrapping_add(step);
    proof {
        assert((s as u32) | ((c as u32) << 8) == (s as u32) + 256 * (c as u32)) by (bit_vector);
        assert(delta < 0x8000 ==> delta as i16 as i32 as u32 == delta as u32) by (bit_vector);
        assert(delta >= 0x8000 ==> delta as i16 as i32 as u32 == 0xffff_0000u32 + delta as u32)
            by (bit_vector);
        assert(delta < 0x8000 ==> delta as i16 as i32 == delta as i32) by (bit_vector);
        assert(delta >= 0x8000 ==> delta as i16 as i32 == delta as i32 - 0x1_0000) by (bit_vector);
        lemma_bytes_of_u32(moved);
        let x = s + 256 * c + (delta as i16);
        assert((x - moved) % 0x1_0000_0000 == 0);
        lemma_mod24_bytes(x, moved as int);
    }
    ram[subpixel_offset] = moved as u8;
    write_le_u16(ram, coord_offset, (moved >> 8) as u16);
    (moved >> 8) as u16
}

/// Sets every byte in `start..end` to `value`.
pub fn fill_bytes(ram: &mut [u8], start: usize, end: usize, value: u8)
    requires
        start <= end <= old(ram)@.len(),
    ensures
        final(ram)@ == filled(old(ram)@, start as int, end as int, value),
{
    let mut i = start;
    while i < end
        invariant
            start <= i <= end <= ram@.len(),
            ram@.len() == old(ram)@.len(),
            forall|k: int|
                0 <= k < ram@.len() ==> #[trigger] ram@[k] == if start <= k < i {
                    value
                } else {
                    old(ram)@[k]
                },
        decreases end - i,
    {
        ram[i] = value;
        i = i + 1;
    }
    assert(ram@ =~= filled(old(ram)@, start as int, end as int, value));
}

/// Copies `src` into RAM from `start` on.
pub fn copy_bytes(ram: &mut [u8], start: usize, src: &[u8])
    requires
        start + src@.len() <= old(ram)@.len(),
    ensures
        final(ram)@ == copied(old(ram)@, start as int, src@),
        final(ram)@.len() == old(ram)@.len(),
        forall|k: int| 0 <= k < src@.len() ==> #[trigger] final(ram)@[start + k] == src@[k],
        forall|i: int|
            0 <= i < old(ram)@.len() && !(start <= i < start + src@.len()) ==> #[trigger] final(ram)@[i]
                == old(ram)@[i],
{
    let n = ram.len();
    let mut i: usize = 0;
    while i < src.len()
        invariant
            i <= src@.len(),
            n == ram@.len(),
            start + src@.len() <= ram@.len(),
            ram@.len() == old(ram)@.len(),
            forall|k: int|
                0 <= k < ram@.len() ==> #[trigger] ram@[k] == if start <= k < start + i {
                    src@[k - start]
                } else {
                    old(ram)@[k]
                },
        decreases src@.len() - i,
    {
        ram[start + i] = src[i];
        i = i + 1;
    }
    assert(ram@ =~= copied(old(ram)@, start as int, src@));
}

} // verus!
