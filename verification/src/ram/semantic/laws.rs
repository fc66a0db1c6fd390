//! Properties that hold across the views: what a getter reads back after a
//! setter, which bytes a write leaves alone, how a velocity step moves a
//! fixed-point coordinate, and which calls undo one another.

use vstd::prelude::*;
use super::access;
use super::addresses::{CACHED_SPRITE_ALT_FIELDS, CACHED_SPRITE_LIVE_FIELDS};
use super::cached_sprite_slot::{
    cache_fields_fit, cached_from_live, live_fields, loaded_from_cache, restored_from_backup,
};
use super::addresses::{
    HAPPINESS_POND_ACTIVE, HAPPINESS_POND_ITEM_TO_LINK, HAPPINESS_POND_STEP, HAPPINESS_POND_TIMER,
    HAPPINESS_POND_X_HI, HAPPINESS_POND_X_LO, HAPPINESS_POND_X_SUBPIXEL, HAPPINESS_POND_X_VEL,
    HAPPINESS_POND_Y_HI, HAPPINESS_POND_Y_LO, HAPPINESS_POND_Y_SUBPIXEL, HAPPINESS_POND_Y_VEL,
    HAPPINESS_POND_Z, HAPPINESS_POND_Z_SUBPIXEL, HAPPINESS_POND_Z_VEL, WEATHERVANE_ANIM_TIMER,
    WEATHERVANE_DRAW_STATE, WEATHERVANE_X_HI, WEATHERVANE_X_LO, WEATHERVANE_X_VELOCITY, WEATHERVANE_Y_HI,
    WEATHERVANE_Y_LO, WEATHERVANE_Y_VELOCITY, WEATHERVANE_Z, WEATHERVANE_Z_VELOCITY,
};
use super::happiness_pond_rupee::{
    HappinessPondRupeeState, pond_rupee_at, pond_rupee_fits, with_new_pond_rupee, with_pond_rupee,
};
use super::weather_vane_debris::{
    WeatherVaneDebrisState, debris_at, debris_fits, with_debris_position, with_new_debris,
};
use crate::types;

verus! {

/// A byte read back from where a setter stored it is the byte stored; every
/// other byte reads as before.
pub proof fn lemma_byte_read_after_write(ram: Seq<u8>, offset: int, value: u8, other: int)
    requires
        0 <= offset < ram.len(),
    ensures
        access::byte_at(ram.update(offset, value), offset) == value,
        other != offset ==> access::byte_at(ram.update(offset, value), other) == access::byte_at(
            ram,
            other,
        ),
{
}

/// A word read back from where a setter stored it is the word stored; a byte
/// outside its two bytes, and a word that shares no byte with it, read as before.
pub proof fn lemma_word_read_after_write(ram: Seq<u8>, offset: int, value: u16, other: int)
    requires
        0 <= offset,
        offset + 1 < ram.len(),
    ensures
        access::word_at(types::with_u16(ram, offset, value), offset) == value,
        other != offset && other != offset + 1 ==> access::byte_at(
            types::with_u16(ram, offset, value),
            other,
        ) == access::byte_at(ram, other),
        other + 1 < offset || offset + 1 < other ==> access::word_at(
            types::with_u16(ram, offset, value),
            other,
        ) == access::word_at(ram, other),
{
}

/// A position stored as a separate low and high byte reads back as the
/// position stored.
pub proof fn lemma_position_read_after_write(ram: Seq<u8>, low: int, high: int, value: u16)
    requires
        0 <= low < ram.len(),
        0 <= high < ram.len(),
        low != high,
    ensures
        ({
            let after = ram.update(low, types::low_byte(value)).update(high, types::high_byte(value));
            types::le_word(access::byte_at(after, low), access::byte_at(after, high)) == value
        }),
{
}

/// Copying a word makes the destination read as the source did.
pub proof fn lemma_copy_word_reads_back(ram: Seq<u8>, dst: int, src: int)
    requires
        0 <= dst,
        dst + 1 < ram.len(),
        0 <= src,
        src + 1 < ram.len(),
    ensures
        types::u16_at(types::with_u16(ram, dst, types::u16_at(ram, src)), dst) == types::u16_at(
            ram,
            src,
        ),
{
}

/// Copying a word back to where it was just copied from changes nothing more:
/// restoring a position right after caching it leaves RAM as the cache left it.
/// The two words must not share a byte.
pub proof fn lemma_copy_word_back(ram: Seq<u8>, dst: int, src: int)
    requires
        0 <= dst,
        dst + 1 < ram.len(),
        0 <= src,
        src + 1 < ram.len(),
        dst + 1 < src || src + 1 < dst,
    ensures
        ({
            let cached = types::with_u16(ram, dst, types::u16_at(ram, src));
            types::with_u16(cached, src, types::u16_at(cached, dst)) == cached
        }),
{
    let cached = types::with_u16(ram, dst, types::u16_at(ram, src));
    types::lemma_read_after_write(ram, dst, types::u16_at(ram, src));
    assert(types::u16_at(cached, src) == types::u16_at(ram, src));
    types::lemma_write_what_was_read(cached, src);
}

/// Adding and then subtracting the same amount leaves a byte as it was.
pub proof fn lemma_byte_add_then_sub(value: u8, amount: u8)
    ensures
        value.wrapping_add(amount).wrapping_sub(amount) == value,
        value.wrapping_sub(amount).wrapping_add(amount) == value,
{
}

/// Adding and then subtracting the same amount leaves a word as it was.
pub proof fn lemma_word_add_then_sub(value: u16, amount: u16)
    ensures
        value.wrapping_add(amount).wrapping_sub(amount) == value,
        value.wrapping_sub(amount).wrapping_add(amount) == value,
{
}

/// Incrementing a counter and then decrementing it leaves RAM as it was.
pub proof fn lemma_increment_then_decrement(ram: Seq<u8>, offset: int)
    requires
        0 <= offset < ram.len(),
    ensures
        ({
            let up = ram.update(offset, ram[offset].wrapping_add(1));
            up.update(offset, up[offset].wrapping_sub(1)) == ram
        }),
{
    let up = ram.update(offset, ram[offset].wrapping_add(1));
    lemma_byte_add_then_sub(ram[offset], 1);
    assert(up.update(offset, up[offset].wrapping_sub(1)) =~= ram);
}

/// Toggling the same bits of a byte twice leaves RAM as it was.
pub proof fn lemma_toggle_twice(ram: Seq<u8>, offset: int, mask: u8)
    requires
        0 <= offset < ram.len(),
    ensures
        ({
            let once = ram.update(offset, ram[offset] ^ mask);
            once.update(offset, once[offset] ^ mask) == ram
        }),
{
    let v = ram[offset];
    assert((v ^ mask) ^ mask == v) by (bit_vector);
    let once = ram.update(offset, ram[offset] ^ mask);
    assert(once.update(offset, once[offset] ^ mask) =~= ram);
}

/// Negating a byte twice gives it back.
pub proof fn lemma_negate_twice(value: u8)
    ensures
        0u8.wrapping_sub(0u8.wrapping_sub(value)) == value,
{
}

/// Swapping two bytes twice leaves RAM as it was.
pub proof fn lemma_swap_twice(ram: Seq<u8>, a: int, b: int)
    requires
        0 <= a < ram.len(),
        0 <= b < ram.len(),
    ensures
        ({
            let once = ram.update(a, ram[b]).update(b, ram[a]);
            once.update(a, once[b]).update(b, once[a]) == ram
        }),
{
    let once = ram.update(a, ram[b]).update(b, ram[a]);
    assert(once.update(a, once[b]).update(b, once[a]) =~= ram);
}

proof fn lemma_split24(x: int)
    requires
        0 <= x < 0x100_0000,
    ensures
        x % 256 + 256 * ((x / 256) % 256) + 65536 * (x / 65536) == x,
        0 <= x % 256 < 256,
        0 <= (x / 256) % 256 < 256,
        0 <= x / 65536 < 256,
{
    assert(x % 256 + 256 * ((x / 256) % 256) + 65536 * (x / 65536) == x) by (nonlinear_arith)
        requires
            0 <= x < 0x100_0000,
    ;
    assert(0 <= x / 65536 < 256) by (nonlinear_arith)
        requires
            0 <= x < 0x100_0000,
    ;
}

/// One velocity step moves a 24-bit coordinate by sixteen times the signed
/// velocity, wrapping at 24 bits, and changes no byte but its own three.
pub proof fn lemma_axis24_step(ram: Seq<u8>, subpixel: int, low: int, high: int, velocity: int)
    requires
        0 <= subpixel < ram.len(),
        0 <= low < ram.len(),
        0 <= high < ram.len(),
        0 <= velocity < ram.len(),
        subpixel != low,
        subpixel != high,
        low != high,
    ensures
        access::axis24(access::moved_axis24(ram, subpixel, low, high, velocity), subpixel, low, high)
            == (access::axis24(ram, subpixel, low, high) + 16 * (ram[velocity] as i8)) % 0x100_0000,
        access::moved_axis24(ram, subpixel, low, high, velocity).len() == ram.len(),
        forall|i: int|
            0 <= i < ram.len() && i != subpixel && i != low && i != high ==> #[trigger] access::moved_axis24(
                ram,
                subpixel,
                low,
                high,
                velocity,
            )[i] == ram[i],
{
    let moved = access::axis24_moved(ram, subpixel, low, high, velocity);
    lemma_split24(moved);
}

/// A velocity step with zero velocity leaves RAM as it was.
pub proof fn lemma_axis24_zero_velocity(ram: Seq<u8>, subpixel: int, low: int, high: int, velocity: int)
    requires
        0 <= subpixel < ram.len(),
        0 <= low < ram.len(),
        0 <= high < ram.len(),
        0 <= velocity < ram.len(),
        subpixel != low,
        subpixel != high,
        low != high,
        ram[velocity] == 0,
    ensures
        access::moved_axis24(ram, subpixel, low, high, velocity) == ram,
{
    let s = ram[subpixel] as int;
    let l = ram[low] as int;
    let h = ram[high] as int;
    let x = s + 256 * l + 65536 * h;
    assert(x % 0x100_0000 == x);
    assert(x % 256 == s && (x / 256) % 256 == l && x / 65536 == h) by (nonlinear_arith)
        requires
            x == s + 256 * l + 65536 * h,
            0 <= s < 256,
            0 <= l < 256,
            0 <= h < 256,
    ;
    assert(access::moved_axis24(ram, subpixel, low, high, velocity) =~= ram);
}

proof fn lemma_negated_velocity(v: u8)
    requires
        v != 0x80,
    ensures
        (0u8.wrapping_sub(v)) as i8 == -(v as i8),
{
    assert(v != 0x80 ==> ((0u8.wrapping_sub(v)) as i8) as int == -((v as i8) as int)) by (bit_vector);
}

/// A step, a negation of the velocity byte and a second step bring a 24-bit
/// coordinate back to where it started.
pub proof fn lemma_axis24_step_back(ram: Seq<u8>, subpixel: int, low: int, high: int, velocity: int)
    requires
        0 <= subpixel < ram.len(),
        0 <= low < ram.len(),
        0 <= high < ram.len(),
        0 <= velocity < ram.len(),
        subpixel != low,
        subpixel != high,
        low != high,
        velocity != subpixel,
        velocity != low,
        velocity != high,
        ram[velocity] != 0x80,
    ensures
        ({
            let forth = access::moved_axis24(ram, subpixel, low, high, velocity);
            let turned = forth.update(velocity, 0u8.wrapping_sub(forth[velocity]));
            access::axis24(access::moved_axis24(turned, subpixel, low, high, velocity), subpixel, low, high)
                == access::axis24(ram, subpixel, low, high)
        }),
{
    let forth = access::moved_axis24(ram, subpixel, low, high, velocity);
    let turned = forth.update(velocity, 0u8.wrapping_sub(forth[velocity]));
    lemma_axis24_step(ram, subpixel, low, high, velocity);
    lemma_axis24_step(turned, subpixel, low, high, velocity);
    assert(forth[velocity] == ram[velocity]);
    lemma_negated_velocity(ram[velocity]);
    let a = access::axis24(ram, subpixel, low, high);
    let d = 16 * (ram[velocity] as i8);
    assert(access::axis24(turned, subpixel, low, high) == access::axis24(forth, subpixel, low, high));
    assert(0 <= a < 0x100_0000);
    assert(((a + d) % 0x100_0000 - d) % 0x100_0000 == a) by (nonlinear_arith)
        requires
            0 <= a < 0x100_0000,
            -2048 <= d <= 2032,
    ;
}

/// One velocity step moves a 16-bit coordinate by sixteen times the signed
/// velocity, wrapping at 16 bits, and changes no byte but its own two.
pub proof fn lemma_axis16_step(ram: Seq<u8>, subpixel: int, offset: int, velocity: int)
    requires
        0 <= subpixel < ram.len(),
        0 <= offset < ram.len(),
        0 <= velocity < ram.len(),
        subpixel != offset,
    ensures
        access::axis16(access::moved_axis16(ram, subpixel, offset, velocity), subpixel, offset)
            == (access::axis16(ram, subpixel, offset) + 16 * (ram[velocity] as i8)) % 0x1_0000,
        forall|i: int|
            0 <= i < ram.len() && i != subpixel && i != offset ==> #[trigger] access::moved_axis16(
                ram,
                subpixel,
                offset,
                velocity,
            )[i] == ram[i],
{
    let moved = access::axis16_moved(ram, subpixel, offset, velocity);
    assert(moved % 256 + 256 * (moved / 256) == moved && 0 <= moved / 256 < 256) by (nonlinear_arith)
        requires
            0 <= moved < 0x1_0000,
    ;
}

/// A step, a negation of the velocity byte and a second step bring a 16-bit
/// coordinate back to where it started.
pub proof fn lemma_axis16_step_back(ram: Seq<u8>, subpixel: int, offset: int, velocity: int)
    requires
        0 <= subpixel < ram.len(),
        0 <= offset < ram.len(),
        0 <= velocity < ram.len(),
        subpixel != offset,
        velocity != subpixel,
        velocity != offset,
        ram[velocity] != 0x80,
    ensures
        ({
            let forth = access::moved_axis16(ram, subpixel, offset, velocity);
            let turned = forth.update(velocity, 0u8.wrapping_sub(forth[velocity]));
            access::axis16(access::moved_axis16(turned, subpixel, offset, velocity), subpixel, offset)
                == access::axis16(ram, subpixel, offset)
        }),
{
    let forth = access::moved_axis16(ram, subpixel, offset, velocity);
    let turned = forth.update(velocity, 0u8.wrapping_sub(forth[velocity]));
    lemma_axis16_step(ram, subpixel, offset, velocity);
    lemma_axis16_step(turned, subpixel, offset, velocity);
    assert(forth[velocity] == ram[velocity]);
    lemma_negated_velocity(ram[velocity]);
    let a = access::axis16(ram, subpixel, offset);
    let d = 16 * (ram[velocity] as i8);
    assert(access::axis16(turned, subpixel, offset) == access::axis16(forth, subpixel, offset));
    assert(0 <= a < 0x1_0000);
    assert(((a + d) % 0x1_0000 - d) % 0x1_0000 == a) by (nonlinear_arith)
        requires
            0 <= a < 0x1_0000,
            -2048 <= d <= 2032,
    ;
}

/// Moving a player coordinate leaves its word reading the returned
/// whole-pixel coordinate and its subpixel byte the fraction, together the
/// moved 24-bit position.
pub proof fn lemma_link_axis_step(ram: Seq<u8>, subpixel: int, coord: int, amount: int)
    requires
        0 <= subpixel < ram.len(),
        0 <= coord,
        coord + 1 < ram.len(),
        subpixel != coord,
        subpixel != coord + 1,
    ensures
        ({
            let after = access::with_link_axis(ram, subpixel, coord, amount);
            &&& types::u16_at(after, coord) == access::link_axis_target(ram, subpixel, coord, amount)
            &&& after[subpixel] + 256 * types::u16_at(after, coord) == access::link_axis_moved(
                ram,
                subpixel,
                coord,
                amount,
            )
        }),
{
    let moved = access::link_axis_moved(ram, subpixel, coord, amount);
    assert(moved % 256 + 256 * (moved / 256) == moved && 0 <= moved / 256 < 0x1_0000) by (nonlinear_arith)
        requires
            0 <= moved < 0x100_0000,
    ;
}

/// Moving a player coordinate by an amount and then by its negation leaves
/// RAM as it was.
pub proof fn lemma_link_axis_step_back(ram: Seq<u8>, subpixel: int, coord: int, amount: int)
    requires
        0 <= subpixel < ram.len(),
        0 <= coord,
        coord + 1 < ram.len(),
        subpixel != coord,
        subpixel != coord + 1,
    ensures
        access::with_link_axis(access::with_link_axis(ram, subpixel, coord, amount), subpixel, coord, -amount)
            == ram,
{
    let after = access::with_link_axis(ram, subpixel, coord, amount);
    lemma_link_axis_step(ram, subpixel, coord, amount);
    let start = ram[subpixel] + 256 * types::u16_at(ram, coord);
    assert(0 <= start < 0x100_0000);
    assert(access::link_axis_moved(after, subpixel, coord, -amount) == start) by {
        assert(((start + amount) % 0x100_0000 - amount) % 0x100_0000 == start) by (nonlinear_arith)
            requires
                0 <= start < 0x100_0000,
        ;
    }
    assert(start % 256 == ram[subpixel] && start / 256 == types::u16_at(ram, coord)) by (nonlinear_arith)
        requires
            start == ram[subpixel] + 256 * types::u16_at(ram, coord),
            0 <= ram[subpixel] < 256,
    ;
    types::lemma_bytes_word_roundtrip(ram[coord], ram[coord + 1]);
    assert(access::with_link_axis(after, subpixel, coord, -amount) =~= ram);
}

/// Bytes inside a filled range read the fill value; bytes outside read as before.
pub proof fn lemma_fill_reads_back(ram: Seq<u8>, start: int, end: int, value: u8, i: int)
    requires
        0 <= i < ram.len(),
    ensures
        access::filled(ram, start, end, value).len() == ram.len(),
        start <= i < end ==> access::filled(ram, start, end, value)[i] == value,
        !(start <= i < end) ==> access::filled(ram, start, end, value)[i] == ram[i],
{
}

/// The range a block copy wrote reads back as the source.
pub proof fn lemma_copy_reads_back(ram: Seq<u8>, start: int, src: Seq<u8>)
    requires
        0 <= start,
        start + src.len() <= ram.len(),
    ensures
        access::copied(ram, start, src).subrange(start, start + src.len()) == src,
        access::copied(ram, start, src).len() == ram.len(),
{
    assert(access::copied(ram, start, src).subrange(start, start + src.len()) =~= src);
}

/// Where step `k` of a strided copy writes.
pub open spec fn stride_target(dst: int, stride: int, k: int) -> int {
    dst + k * stride
}

/// When a strided copy reads no byte that it writes, byte `k` of the source
/// ends up at `dst + k * stride` and every other byte is left alone.
pub proof fn lemma_strided_copy_disjoint(ram: Seq<u8>, dst: int, stride: int, src: int, count: nat)
    requires
        stride >= 1,
        0 <= dst,
        0 <= src,
        count > 0 ==> dst + (count - 1) * stride < ram.len(),
        src + count <= ram.len(),
        forall|j: int|
            0 <= j < count ==> !(src <= #[trigger] stride_target(dst, stride, j) < src + count),
    ensures
        access::strided_copy(ram, dst, stride, src, count).len() == ram.len(),
        forall|k: int|
            0 <= k < count ==> access::strided_copy(ram, dst, stride, src, count)[#[trigger] stride_target(
                dst,
                stride,
                k,
            )] == ram[src + k],
        forall|i: int|
            0 <= i < ram.len() && (forall|k: int| 0 <= k < count ==> i != #[trigger] stride_target(dst, stride, k))
                ==> #[trigger] access::strided_copy(ram, dst, stride, src, count)[i] == ram[i],
    decreases count,
{
    if count > 0 {
        let n = (count - 1) as nat;
        assert(n > 0 ==> dst + (n - 1) * stride < ram.len()) by (nonlinear_arith)
            requires
                stride >= 1,
                dst + (count - 1) * stride < ram.len(),
                n == count - 1,
        ;
        lemma_strided_copy_disjoint(ram, dst, stride, src, n);
        let before = access::strided_copy(ram, dst, stride, src, n);
        let last = stride_target(dst, stride, n as int);
        assert forall|k: int| 0 <= k < n implies last != #[trigger] stride_target(dst, stride, k) && 0
            <= stride_target(dst, stride, k) < ram.len() by {
            assert(k * stride < n * stride && 0 <= k * stride) by (nonlinear_arith)
                requires
                    0 <= k < n,
                    stride >= 1,
            ;
        }
        assert(0 <= n * stride) by (nonlinear_arith)
            requires
                stride >= 1,
        ;
        assert(before[src + n] == ram[src + n]) by {
            assert forall|k: int| 0 <= k < n implies src + n != #[trigger] stride_target(dst, stride, k) by {
                assert(stride_target(dst, stride, k) != src + n);
            }
        }
        assert forall|k: int| 0 <= k < count implies access::strided_copy(ram, dst, stride, src, count)[
            #[trigger] stride_target(dst, stride, k)] == ram[src + k] by {
            if k < n {
                assert(stride_target(dst, stride, k) != last);
            }
        }
    }
}

/// Whether the ranges `a..a + n` and `b..b + n` share no index.
pub open spec fn apart(a: int, b: int, n: int) -> bool {
    a + n <= b || b + n <= a
}

/// When two rows are copied side by side from sources that neither row
/// overlaps, the top row ends up holding the first source, the bottom row the
/// second, and every other byte is left alone.
pub proof fn lemma_row_pair_copy_disjoint(ram: Seq<u8>, top: int, bottom: int, src0: int, src1: int, count: nat)
    requires
        0 <= top,
        0 <= bottom,
        0 <= src0,
        0 <= src1,
        top + count <= ram.len(),
        bottom + count <= ram.len(),
        src0 + count <= ram.len(),
        src1 + count <= ram.len(),
        apart(top, bottom, count as int),
        apart(top, src0, count as int),
        apart(top, src1, count as int),
        apart(bottom, src0, count as int),
        apart(bottom, src1, count as int),
    ensures
        access::row_pair_copy(ram, top, bottom, src0, src1, count).len() == ram.len(),
        forall|k: int|
            0 <= k < count ==> #[trigger] access::row_pair_copy(ram, top, bottom, src0, src1, count)[top + k]
                == ram[src0 + k],
        forall|k: int|
            0 <= k < count ==> #[trigger] access::row_pair_copy(ram, top, bottom, src0, src1, count)[bottom
                + k] == ram[src1 + k],
        forall|i: int|
            0 <= i < ram.len() && !(top <= i < top + count) && !(bottom <= i < bottom + count)
                ==> #[trigger] access::row_pair_copy(ram, top, bottom, src0, src1, count)[i] == ram[i],
    decreases count,
{
    if count > 0 {
        let k = (count - 1) as nat;
        lemma_row_pair_copy_disjoint(ram, top, bottom, src0, src1, k);
        let before = access::row_pair_copy(ram, top, bottom, src0, src1, k);
        let upper = before.update(top + k, before[src0 + k]);
        assert(before[src0 + k] == ram[src0 + k]);
        assert(upper[src1 + k] == ram[src1 + k]);
        let after = access::row_pair_copy(ram, top, bottom, src0, src1, count);
        assert(after == upper.update(bottom + k, upper[src1 + k]));
        assert forall|j: int| 0 <= j < count implies #[trigger] after[top + j] == ram[src0 + j] by {
            if j < k {
                assert(before[top + j] == ram[src0 + j]);
            }
        }
        assert forall|j: int| 0 <= j < count implies #[trigger] after[bottom + j] == ram[src1 + j] by {
            if j < k {
                assert(before[bottom + j] == ram[src1 + j]);
            }
        }
    }
}

/// Restoring a sprite slot's live fields from the backup that loading its
/// cached copy filled leaves RAM exactly as it was before the load.
pub proof fn lemma_restore_undoes_cache_load(ram: Seq<u8>, slot: int)
    requires
        cache_fields_fit(ram, slot),
    ensures
        restored_from_backup(loaded_from_cache(ram, slot), slot, live_fields(ram, slot)) == ram,
{
    assert(restored_from_backup(loaded_from_cache(ram, slot), slot, live_fields(ram, slot)) =~= ram);
}

/// A snapshot taken right after a rupee record was stored reads back the
/// stored record, with its timer one tick further down (not below zero).
pub proof fn lemma_pond_rupee_snapshot_after_store(ram: Seq<u8>, slot: int, state: HappinessPondRupeeState)
    requires
        pond_rupee_fits(ram, slot),
    ensures
        pond_rupee_at(with_pond_rupee(ram, slot, state), slot) == (HappinessPondRupeeState {
            timer: state.timer.saturating_sub(1),
            ..state
        }),
{
}

/// A snapshot taken right after debris was set up reads back the position,
/// height, velocities and draw state it was set up with.
pub proof fn lemma_debris_snapshot_after_initialize(
    ram: Seq<u8>,
    slot: int,
    x: u16,
    y: u16,
    x_velocity: u8,
    y_velocity: u8,
    z_velocity: u8,
    z: u8,
    draw_state: u8,
)
    requires
        debris_fits(ram, slot),
    ensures
        debris_at(with_new_debris(ram, slot, x, y, x_velocity, y_velocity, z_velocity, z, draw_state), slot)
            == (WeatherVaneDebrisState { y, x, z, y_velocity, x_velocity, z_velocity, draw_state }),
{
    types::lemma_word_bytes_roundtrip(x);
    types::lemma_word_bytes_roundtrip(y);
}

/// Loading a slot's cached copy sets live field `k` of the slot, as the live
/// field table lists it, to field `k` of the cached table, keeps the old live
/// value as entry `k` of the backup, and changes no byte outside the live fields.
pub proof fn lemma_cache_load_pairs_fields(ram: Seq<u8>, slot: int)
    requires
        cache_fields_fit(ram, slot),
    ensures
        loaded_from_cache(ram, slot).len() == ram.len(),
        live_fields(ram, slot).len() == 24,
        forall|k: int|
            0 <= k < 24 ==> loaded_from_cache(ram, slot)[CACHED_SPRITE_LIVE_FIELDS[k] + slot]
                == ram[CACHED_SPRITE_ALT_FIELDS[k] + slot],
        forall|k: int| 0 <= k < 24 ==> live_fields(ram, slot)[k] == ram[CACHED_SPRITE_LIVE_FIELDS[k] + slot],
        forall|i: int|
            0 <= i < ram.len() && (forall|k: int| 0 <= k < 24 ==> i != CACHED_SPRITE_LIVE_FIELDS[k] + slot)
                ==> #[trigger] loaded_from_cache(ram, slot)[i] == ram[i],
{
    let loaded = loaded_from_cache(ram, slot);
    assert forall|k: int| 0 <= k < 24 implies loaded[CACHED_SPRITE_LIVE_FIELDS[k] + slot]
        == ram[CACHED_SPRITE_ALT_FIELDS[k] + slot] by {
        if k == 0 {} else if k == 1 {} else if k == 2 {} else if k == 3 {} else if k == 4 {}
        else if k == 5 {} else if k == 6 {} else if k == 7 {} else if k == 8 {} else if k == 9 {}
        else if k == 10 {} else if k == 11 {} else if k == 12 {} else if k == 13 {} else if k == 14 {}
        else if k == 15 {} else if k == 16 {} else if k == 17 {} else if k == 18 {} else if k == 19 {}
        else if k == 20 {} else if k == 21 {} else if k == 22 {} else {}
    }
    assert forall|k: int| 0 <= k < 24 implies live_fields(ram, slot)[k] == ram[CACHED_SPRITE_LIVE_FIELDS[k] + slot] by {
        if k == 0 {} else if k == 1 {} else if k == 2 {} else if k == 3 {} else if k == 4 {}
        else if k == 5 {} else if k == 6 {} else if k == 7 {} else if k == 8 {} else if k == 9 {}
        else if k == 10 {} else if k == 11 {} else if k == 12 {} else if k == 13 {} else if k == 14 {}
        else if k == 15 {} else if k == 16 {} else if k == 17 {} else if k == 18 {} else if k == 19 {}
        else if k == 20 {} else if k == 21 {} else if k == 22 {} else {}
    }
    assert forall|i: int|
        0 <= i < ram.len() && (forall|k: int| 0 <= k < 24 ==> i != CACHED_SPRITE_LIVE_FIELDS[k] + slot)
            implies #[trigger] loaded[i] == ram[i] by {
        assert(i != CACHED_SPRITE_LIVE_FIELDS[0] + slot);
        assert(i != CACHED_SPRITE_LIVE_FIELDS[1] + slot);
        assert(i != CACHED_SPRITE_LIVE_FIELDS[2] + slot);
        assert(i != CACHED_SPRITE_LIVE_FIELDS[3] + slot);
        assert(i != CACHED_SPRITE_LIVE_FIELDS[4] + slot);
        assert(i != CACHED_SPRITE_LIVE_FIELDS[5] + slot);
        assert(i != CACHED_SPRITE_LIVE_FIELDS[6] + slot);
        assert(i != CACHED_SPRITE_LIVE_FIELDS[7] + slot);
        assert(i != CACHED_SPRITE_LIVE_FIELDS[8] + slot);
        assert(i != CACHED_SPRITE_LIVE_FIELDS[9] + slot);
        assert(i != CACHED_SPRITE_LIVE_FIELDS[10] + slot);
        assert(i != CACHED_SPRITE_LIVE_FIELDS[11] + slot);
        assert(i != CACHED_SPRITE_LIVE_FIELDS[12] + slot);
        assert(i != CACHED_SPRITE_LIVE_FIELDS[13] + slot);
        assert(i != CACHED_SPRITE_LIVE_FIELDS[14] + slot);
        assert(i != CACHED_SPRITE_LIVE_FIELDS[15] + slot);
        assert(i != CACHED_SPRITE_LIVE_FIELDS[16] + slot);
        assert(i != CACHED_SPRITE_LIVE_FIELDS[17] + slot);
        assert(i != CACHED_SPRITE_LIVE_FIELDS[18] + slot);
        assert(i != CACHED_SPRITE_LIVE_FIELDS[19] + slot);
        assert(i != CACHED_SPRITE_LIVE_FIELDS[20] + slot);
        assert(i != CACHED_SPRITE_LIVE_FIELDS[21] + slot);
        assert(i != CACHED_SPRITE_LIVE_FIELDS[22] + slot);
        assert(i != CACHED_SPRITE_LIVE_FIELDS[23] + slot);
    }
}

/// Restoring a slot's live fields from a backup sets live field `k`, as the
/// live field table lists it, to entry `k` of the backup and changes no other byte.
pub proof fn lemma_restore_sets_fields(ram: Seq<u8>, slot: int, backup: Seq<u8>)
    requires
        cache_fields_fit(ram, slot),
        backup.len() == 24,
    ensures
        restored_from_backup(ram, slot, backup).len() == ram.len(),
        forall|k: int|
            0 <= k < 24 ==> restored_from_backup(ram, slot, backup)[CACHED_SPRITE_LIVE_FIELDS[k] + slot] == backup[k],
        forall|i: int|
            0 <= i < ram.len() && (forall|k: int| 0 <= k < 24 ==> i != CACHED_SPRITE_LIVE_FIELDS[k] + slot)
                ==> #[trigger] restored_from_backup(ram, slot, backup)[i] == ram[i],
{
    let restored = restored_from_backup(ram, slot, backup);
    assert forall|k: int| 0 <= k < 24 implies restored[CACHED_SPRITE_LIVE_FIELDS[k] + slot] == backup[k] by {
        if k == 0 {} else if k == 1 {} else if k == 2 {} else if k == 3 {} else if k == 4 {}
        else if k == 5 {} else if k == 6 {} else if k == 7 {} else if k == 8 {} else if k == 9 {}
        else if k == 10 {} else if k == 11 {} else if k == 12 {} else if k == 13 {} else if k == 14 {}
        else if k == 15 {} else if k == 16 {} else if k == 17 {} else if k == 18 {} else if k == 19 {}
        else if k == 20 {} else if k == 21 {} else if k == 22 {} else {}
    }
    assert forall|i: int|
        0 <= i < ram.len() && (forall|k: int| 0 <= k < 24 ==> i != CACHED_SPRITE_LIVE_FIELDS[k] + slot)
            implies #[trigger] restored[i] == ram[i] by {
        assert(i != CACHED_SPRITE_LIVE_FIELDS[0] + slot);
        assert(i != CACHED_SPRITE_LIVE_FIELDS[1] + slot);
        assert(i != CACHED_SPRITE_LIVE_FIELDS[2] + slot);
        assert(i != CACHED_SPRITE_LIVE_FIELDS[3] + slot);
        assert(i != CACHED_SPRITE_LIVE_FIELDS[4] + slot);
        assert(i != CACHED_SPRITE_LIVE_FIELDS[5] + slot);
        assert(i != CACHED_SPRITE_LIVE_FIELDS[6] + slot);
        assert(i != CACHED_SPRITE_LIVE_FIELDS[7] + slot);
        assert(i != CACHED_SPRITE_LIVE_FIELDS[8] + slot);
        assert(i != CACHED_SPRITE_LIVE_FIELDS[9] + slot);
        assert(i != CACHED_SPRITE_LIVE_FIELDS[10] + slot);
        assert(i != CACHED_SPRITE_LIVE_FIELDS[11] + slot);
        assert(i != CACHED_SPRITE_LIVE_FIELDS[12] + slot);
        assert(i != CACHED_SPRITE_LIVE_FIELDS[13] + slot);
        assert(i != CACHED_SPRITE_LIVE_FIELDS[14] + slot);
        assert(i != CACHED_SPRITE_LIVE_FIELDS[15] + slot);
        assert(i != CACHED_SPRITE_LIVE_FIELDS[16] + slot);
        assert(i != CACHED_SPRITE_LIVE_FIELDS[17] + slot);
        assert(i != CACHED_SPRITE_LIVE_FIELDS[18] + slot);
        assert(i != CACHED_SPRITE_LIVE_FIELDS[19] + slot);
        assert(i != CACHED_SPRITE_LIVE_FIELDS[20] + slot);
        assert(i != CACHED_SPRITE_LIVE_FIELDS[21] + slot);
        assert(i != CACHED_SPRITE_LIVE_FIELDS[22] + slot);
        assert(i != CACHED_SPRITE_LIVE_FIELDS[23] + slot);
    }
}

/// Each field of a rupee snapshot is read from its own address: the X bytes
/// from the X addresses, the Y bytes from the Y addresses, and so on (the
/// timer one tick down, not below zero). Storing a record writes each field
/// to its own address and changes no byte outside the record.
pub proof fn lemma_pond_rupee_fields(ram: Seq<u8>, slot: int, state: HappinessPondRupeeState)
    requires
        pond_rupee_fits(ram, slot),
    ensures
        pond_rupee_at(ram, slot).y_low == ram[HAPPINESS_POND_Y_LO + slot],
        pond_rupee_at(ram, slot).y_high == ram[HAPPINESS_POND_Y_HI + slot],
        pond_rupee_at(ram, slot).x_low == ram[HAPPINESS_POND_X_LO + slot],
        pond_rupee_at(ram, slot).x_high == ram[HAPPINESS_POND_X_HI + slot],
        pond_rupee_at(ram, slot).z == ram[HAPPINESS_POND_Z + slot],
        pond_rupee_at(ram, slot).y_velocity == ram[HAPPINESS_POND_Y_VEL + slot],
        pond_rupee_at(ram, slot).x_velocity == ram[HAPPINESS_POND_X_VEL + slot],
        pond_rupee_at(ram, slot).z_velocity == ram[HAPPINESS_POND_Z_VEL + slot],
        pond_rupee_at(ram, slot).y_subpixel == ram[HAPPINESS_POND_Y_SUBPIXEL + slot],
        pond_rupee_at(ram, slot).x_subpixel == ram[HAPPINESS_POND_X_SUBPIXEL + slot],
        pond_rupee_at(ram, slot).z_subpixel == ram[HAPPINESS_POND_Z_SUBPIXEL + slot],
        pond_rupee_at(ram, slot).item_to_link == ram[HAPPINESS_POND_ITEM_TO_LINK + slot],
        pond_rupee_at(ram, slot).timer == ram[HAPPINESS_POND_TIMER + slot].saturating_sub(1),
        pond_rupee_at(ram, slot).step == ram[HAPPINESS_POND_STEP + slot],
        with_pond_rupee(ram, slot, state)[HAPPINESS_POND_Y_LO + slot] == state.y_low,
        with_pond_rupee(ram, slot, state)[HAPPINESS_POND_Y_HI + slot] == state.y_high,
        with_pond_rupee(ram, slot, state)[HAPPINESS_POND_X_LO + slot] == state.x_low,
        with_pond_rupee(ram, slot, state)[HAPPINESS_POND_X_HI + slot] == state.x_high,
        with_pond_rupee(ram, slot, state)[HAPPINESS_POND_Z + slot] == state.z,
        with_pond_rupee(ram, slot, state)[HAPPINESS_POND_Y_VEL + slot] == state.y_velocity,
        with_pond_rupee(ram, slot, state)[HAPPINESS_POND_X_VEL + slot] == state.x_velocity,
        with_pond_rupee(ram, slot, state)[HAPPINESS_POND_Z_VEL + slot] == state.z_velocity,
        with_pond_rupee(ram, slot, state)[HAPPINESS_POND_Y_SUBPIXEL + slot] == state.y_subpixel,
        with_pond_rupee(ram, slot, state)[HAPPINESS_POND_X_SUBPIXEL + slot] == state.x_subpixel,
        with_pond_rupee(ram, slot, state)[HAPPINESS_POND_Z_SUBPIXEL + slot] == state.z_subpixel,
        with_pond_rupee(ram, slot, state)[HAPPINESS_POND_ITEM_TO_LINK + slot] == state.item_to_link,
        with_pond_rupee(ram, slot, state)[HAPPINESS_POND_TIMER + slot] == state.timer,
        with_pond_rupee(ram, slot, state)[HAPPINESS_POND_STEP + slot] == state.step,
        with_pond_rupee(ram, slot, state).len() == ram.len(),
        forall|i: int|
            0 <= i < ram.len() && i != HAPPINESS_POND_Y_LO + slot && i != HAPPINESS_POND_Y_HI + slot && i != HAPPINESS_POND_X_LO + slot && i != HAPPINESS_POND_X_HI + slot && i != HAPPINESS_POND_Z + slot && i != HAPPINESS_POND_Y_VEL + slot && i != HAPPINESS_POND_X_VEL + slot && i != HAPPINESS_POND_Z_VEL + slot && i != HAPPINESS_POND_Y_SUBPIXEL + slot && i != HAPPINESS_POND_X_SUBPIXEL + slot && i != HAPPINESS_POND_Z_SUBPIXEL + slot && i != HAPPINESS_POND_ITEM_TO_LINK + slot && i != HAPPINESS_POND_TIMER + slot && i != HAPPINESS_POND_STEP + slot ==> #[trigger] with_pond_rupee(ram, slot, state)[i] == ram[i],
{
}

/// A snapshot taken right after a rupee is set up reads back its position,
/// split into low and high bytes, its velocities, a height and step of 0, a
/// timer of 15 and item 53; the subpixels are those it had before.
pub proof fn lemma_pond_rupee_snapshot_after_initialize(
    ram: Seq<u8>,
    slot: int,
    x: u16,
    y: u16,
    x_velocity: u8,
    y_velocity: u8,
    z_velocity: u8,
)
    requires
        pond_rupee_fits(ram, slot),
        HAPPINESS_POND_ACTIVE + slot < ram.len(),
    ensures
        ({
            let s = pond_rupee_at(with_new_pond_rupee(ram, slot, x, y, x_velocity, y_velocity, z_velocity), slot);
            &&& s.x_low == x as u8
            &&& s.x_high == (x >> 8) as u8
            &&& s.y_low == y as u8
            &&& s.y_high == (y >> 8) as u8
            &&& s.z == 0
            &&& s.x_velocity == x_velocity
            &&& s.y_velocity == y_velocity
            &&& s.z_velocity == z_velocity
            &&& s.step == 0
            &&& s.timer == 15
            &&& s.item_to_link == 53
            &&& s.x_subpixel == ram[HAPPINESS_POND_X_SUBPIXEL + slot]
            &&& s.y_subpixel == ram[HAPPINESS_POND_Y_SUBPIXEL + slot]
            &&& s.z_subpixel == ram[HAPPINESS_POND_Z_SUBPIXEL + slot]
        }),
        with_new_pond_rupee(ram, slot, x, y, x_velocity, y_velocity, z_velocity)[HAPPINESS_POND_ACTIVE + slot] == 1,
{
    types::lemma_split_bits(x);
    types::lemma_split_bits(y);
}

/// A debris snapshot reads its X position from the X bytes and its Y position
/// from the Y bytes, each low byte first, and every other field from its own
/// address. Setting debris up writes `x` to the X bytes and `y` to the Y bytes.
pub proof fn lemma_debris_fields(
    ram: Seq<u8>,
    slot: int,
    x: u16,
    y: u16,
    x_velocity: u8,
    y_velocity: u8,
    z_velocity: u8,
    z: u8,
    draw_state: u8,
)
    requires
        debris_fits(ram, slot),
    ensures
        debris_at(ram, slot).x == ram[WEATHERVANE_X_LO + slot] as u16 + 256 * ram[WEATHERVANE_X_HI + slot] as u16,
        debris_at(ram, slot).y == ram[WEATHERVANE_Y_LO + slot] as u16 + 256 * ram[WEATHERVANE_Y_HI + slot] as u16,
        debris_at(ram, slot).z == ram[WEATHERVANE_Z + slot],
        debris_at(ram, slot).x_velocity == ram[WEATHERVANE_X_VELOCITY + slot],
        debris_at(ram, slot).y_velocity == ram[WEATHERVANE_Y_VELOCITY + slot],
        debris_at(ram, slot).z_velocity == ram[WEATHERVANE_Z_VELOCITY + slot],
        debris_at(ram, slot).draw_state == ram[WEATHERVANE_DRAW_STATE + slot],
        ({
            let after = with_new_debris(ram, slot, x, y, x_velocity, y_velocity, z_velocity, z, draw_state);
            &&& after[WEATHERVANE_X_LO + slot] == x as u8
            &&& after[WEATHERVANE_X_HI + slot] == (x >> 8) as u8
            &&& after[WEATHERVANE_Y_LO + slot] == y as u8
            &&& after[WEATHERVANE_Y_HI + slot] == (y >> 8) as u8
            &&& after[WEATHERVANE_Z + slot] == z
            &&& after[WEATHERVANE_X_VELOCITY + slot] == x_velocity
            &&& after[WEATHERVANE_Y_VELOCITY + slot] == y_velocity
            &&& after[WEATHERVANE_Z_VELOCITY + slot] == z_velocity
            &&& after[WEATHERVANE_ANIM_TIMER + slot] == 1
            &&& after[WEATHERVANE_DRAW_STATE + slot] == draw_state
        }),
{
    types::lemma_split_bits(x);
    types::lemma_split_bits(y);
}

/// Saving a debris position writes `x` to the X bytes, `y` to the Y bytes and
/// `z` to the height, changes no other byte, and a snapshot taken afterwards
/// reads back `x`, `y` and `z` with the velocities and draw state unchanged.
pub proof fn lemma_debris_snapshot_after_save(ram: Seq<u8>, slot: int, x: u16, y: u16, z: u8)
    requires
        debris_fits(ram, slot),
    ensures
        ({
            let after = with_debris_position(ram, slot, x, y, z);
            &&& after.len() == ram.len()
            &&& after[WEATHERVANE_X_LO + slot] == x as u8
            &&& after[WEATHERVANE_X_HI + slot] == (x >> 8) as u8
            &&& after[WEATHERVANE_Y_LO + slot] == y as u8
            &&& after[WEATHERVANE_Y_HI + slot] == (y >> 8) as u8
            &&& after[WEATHERVANE_Z + slot] == z
            &&& forall|i: int|
                0 <= i < ram.len() && i != WEATHERVANE_X_LO + slot && i != WEATHERVANE_X_HI + slot && i
                    != WEATHERVANE_Y_LO + slot && i != WEATHERVANE_Y_HI + slot && i != WEATHERVANE_Z + slot
                    ==> #[trigger] after[i] == ram[i]
            &&& debris_at(after, slot) == (WeatherVaneDebrisState { x, y, z, ..debris_at(ram, slot) })
        }),
{
    types::lemma_split_bits(x);
    types::lemma_split_bits(y);
    types::lemma_word_bytes_roundtrip(x);
    types::lemma_word_bytes_roundtrip(y);
}

/// A block copy makes byte `start + k` of RAM byte `k` of the source and
/// changes no byte outside `start..start + src.len()`.
pub proof fn lemma_copy_changes_only_block(ram: Seq<u8>, start: int, src: Seq<u8>)
    requires
        0 <= start,
        start + src.len() <= ram.len(),
    ensures
        access::copied(ram, start, src).len() == ram.len(),
        forall|k: int| 0 <= k < src.len() ==> #[trigger] access::copied(ram, start, src)[start + k] == src[k],
        forall|i: int|
            0 <= i < ram.len() && !(start <= i < start + src.len()) ==> #[trigger] access::copied(
                ram,
                start,
                src,
            )[i] == ram[i],
{
}

/// Caching a slot's live fields sets cached field `k`, as the cached field
/// table lists it, to live field `k`, and changes no byte outside the cached
/// fields; loading the cache right afterwards leaves RAM as the caching left it.
pub proof fn lemma_cache_live_pairs_fields(ram: Seq<u8>, slot: int)
    requires
        cache_fields_fit(ram, slot),
    ensures
        cached_from_live(ram, slot).len() == ram.len(),
        forall|k: int|
            0 <= k < 24 ==> cached_from_live(ram, slot)[CACHED_SPRITE_ALT_FIELDS[k] + slot]
                == ram[CACHED_SPRITE_LIVE_FIELDS[k] + slot],
        forall|i: int|
            0 <= i < ram.len() && (forall|k: int| 0 <= k < 24 ==> i != CACHED_SPRITE_ALT_FIELDS[k] + slot)
                ==> #[trigger] cached_from_live(ram, slot)[i] == ram[i],
        loaded_from_cache(cached_from_live(ram, slot), slot) == cached_from_live(ram, slot),
{
    let cached = cached_from_live(ram, slot);
    assert forall|k: int| 0 <= k < 24 implies cached[CACHED_SPRITE_ALT_FIELDS[k] + slot]
        == ram[CACHED_SPRITE_LIVE_FIELDS[k] + slot] by {
        if k == 0 {} else if k == 1 {} else if k == 2 {} else if k == 3 {} else if k == 4 {}
        else if k == 5 {} else if k == 6 {} else if k == 7 {} else if k == 8 {} else if k == 9 {}
        else if k == 10 {} else if k == 11 {} else if k == 12 {} else if k == 13 {} else if k == 14 {}
        else if k == 15 {} else if k == 16 {} else if k == 17 {} else if k == 18 {} else if k == 19 {}
        else if k == 20 {} else if k == 21 {} else if k == 22 {} else {}
    }
    assert forall|i: int|
        0 <= i < ram.len() && (forall|k: int| 0 <= k < 24 ==> i != CACHED_SPRITE_ALT_FIELDS[k] + slot)
            implies #[trigger] cached[i] == ram[i] by {
        assert(i != CACHED_SPRITE_ALT_FIELDS[0] + slot);
        assert(i != CACHED_SPRITE_ALT_FIELDS[1] + slot);
        assert(i != CACHED_SPRITE_ALT_FIELDS[2] + slot);
        assert(i != CACHED_SPRITE_ALT_FIELDS[3] + slot);
        assert(i != CACHED_SPRITE_ALT_FIELDS[4] + slot);
        assert(i != CACHED_SPRITE_ALT_FIELDS[5] + slot);
        assert(i != CACHED_SPRITE_ALT_FIELDS[6] + slot);
        assert(i != CACHED_SPRITE_ALT_FIELDS[7] + slot);
        assert(i != CACHED_SPRITE_ALT_FIELDS[8] + slot);
        assert(i != CACHED_SPRITE_ALT_FIELDS[9] + slot);
        assert(i != CACHED_SPRITE_ALT_FIELDS[10] + slot);
        assert(i != CACHED_SPRITE_ALT_FIELDS[11] + slot);
        assert(i != CACHED_SPRITE_ALT_FIELDS[12] + slot);
        assert(i != CACHED_SPRITE_ALT_FIELDS[13] + slot);
        assert(i != CACHED_SPRITE_ALT_FIELDS[14] + slot);
        assert(i != CACHED_SPRITE_ALT_FIELDS[15] + slot);
        assert(i != CACHED_SPRITE_ALT_FIELDS[16] + slot);
        assert(i != CACHED_SPRITE_ALT_FIELDS[17] + slot);
        assert(i != CACHED_SPRITE_ALT_FIELDS[18] + slot);
        assert(i != CACHED_SPRITE_ALT_FIELDS[19] + slot);
        assert(i != CACHED_SPRITE_ALT_FIELDS[20] + slot);
        assert(i != CACHED_SPRITE_ALT_FIELDS[21] + slot);
        assert(i != CACHED_SPRITE_ALT_FIELDS[22] + slot);
        assert(i != CACHED_SPRITE_ALT_FIELDS[23] + slot);
    }
    assert(loaded_from_cache(cached, slot) =~= cached);
}

} // verus!
