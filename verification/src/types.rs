//! Little-endian words stored in a byte array.

use vstd::prelude::*;

verus! {

/// The word whose low byte is `lo` and whose high byte is `hi`.
pub open spec fn le_word(lo: u8, hi: u8) -> u16 {
    (lo as int + 256 * hi as int) as u16
}

/// The low byte of a word.
pub open spec fn low_byte(value: u16) -> u8 {
    (value % 256) as u8
}

/// The high byte of a word.
pub open spec fn high_byte(value: u16) -> u8 {
    (value / 256) as u8
}

/// The little-endian word stored at `offset` and `offset + 1`.
pub open spec fn u16_at(ram: Seq<u8>, offset: int) -> u16 {
    le_word(ram[offset], ram[offset + 1])
}

/// `ram` with `value` stored little-endian at `offset` and `offset + 1`.
pub open spec fn with_u16(ram: Seq<u8>, offset: int, value: u16) -> Seq<u8> {
    ram.update(offset, low_byte(value)).update(offset + 1, high_byte(value))
}

proof fn lemma_le_word_bits(lo: u8, hi: u8)
    ensures
        (lo as u16) | ((hi as u16) << 8) == le_word(lo, hi),
{
    assert((lo as u16) | ((hi as u16) << 8) == (lo as u16) + 256 * (hi as u16)) by (bit_vector);
}

/// The low and high bytes of a word, as the casts and the shift give them.
pub proof fn lemma_split_bits(value: u16)
    ensures
        value as u8 == low_byte(value),
        (value >> 8) as u8 == high_byte(value),
{
    assert(value as u8 == value % 256) by (bit_vector);
    assert((value >> 8) as u8 == value / 256) by (bit_vector);
}

/// Reads the little-endian word at `offset`.
pub fn read_le_u16(ram: &[u8], offset: usize) -> (value: u16)
    requires
        offset + 1 < ram@.len(),
    ensures
        value == u16_at(ram@, offset as int),
{
    let lo = ram[offset];
    let hi = ram[offset + 1];
    proof {
        lemma_le_word_bits(lo, hi);
    }
    (lo as u16) | ((hi as u16) << 8)
}

/// Writes `value` little-endian at `offset`; no other byte changes.
pub fn write_le_u16(ram: &mut [u8], offset: usize, value: u16)
    requires
        offset + 1 < old(ram)@.len(),
    ensures
        final(ram)@ == with_u16(old(ram)@, offset as int, value),
{
    proof {
        lemma_split_bits(value);
    }
    ram[offset] = value as u8;
    ram[offset + 1] = (value >> 8) as u8;
}

/// Splitting a word into bytes and joining them again gives the word back.
pub proof fn lemma_word_bytes_roundtrip(value: u16)
    ensures
        le_word(low_byte(value), high_byte(value)) == value,
{
}

/// Joining two bytes into a word and splitting it gives the bytes back.
pub proof fn lemma_bytes_word_roundtrip(lo: u8, hi: u8)
    ensures
        low_byte(le_word(lo, hi)) == lo,
        high_byte(le_word(lo, hi)) == hi,
{
}

/// A word read back from where it was written is the word written, and a
/// write changes no byte outside its two bytes.
pub proof fn lemma_read_after_write(ram: Seq<u8>, offset: int, value: u16)
    requires
        0 <= offset,
        offset + 1 < ram.len(),
    ensures
        u16_at(with_u16(ram, offset, value), offset) == value,
        with_u16(ram, offset, value).len() == ram.len(),
        forall|i: int|
            0 <= i < ram.len() && i != offset && i != offset + 1 ==> #[trigger] with_u16(
                ram,
                offset,
                value,
            )[i] == ram[i],
{
}

/// Writing back the word that is already stored leaves the bytes unchanged.
pub proof fn lemma_write_what_was_read(ram: Seq<u8>, offset: int)
    requires
        0 <= offset,
        offset + 1 < ram.len(),
    ensures
        with_u16(ram, offset, u16_at(ram, offset)) == ram,
{
    assert(with_u16(ram, offset, u16_at(ram, offset)) =~= ram);
}

/// The second of two writes to the same word wins.
pub proof fn lemma_write_twice(ram: Seq<u8>, offset: int, first: u16, second: u16)
    requires
        0 <= offset,
        offset + 1 < ram.len(),
    ensures
        with_u16(with_u16(ram, offset, first), offset, second) == with_u16(ram, offset, second),
{
    assert(with_u16(with_u16(ram, offset, first), offset, second) =~= with_u16(ram, offset, second));
}

} // verus!
