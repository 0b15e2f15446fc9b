//! Facts about bit operations on bytes and words, used across the crate.
use vstd::prelude::*;

verus! {

/// The low nibble of a byte is its remainder modulo 16.
pub proof fn lemma_low_nibble(x: u8)
    ensures
        x & 0xF == x % 16,
{
    assert(x & 0xF == x % 16) by (bit_vector);
}

/// The low nibble of a word is its remainder modulo 16.
pub proof fn lemma_low_nibble_u16(x: u16)
    ensures
        x & 0xF == x % 16,
{
    assert(x & 0xF == x % 16) by (bit_vector);
}

/// The low twelve bits of a word are its remainder modulo 4096.
pub proof fn lemma_low_twelve_bits(x: u16)
    ensures
        x & 0xFFF == x % 4096,
{
    assert(x & 0xFFF == x % 4096) by (bit_vector);
}

/// Two bytes shifted and or-ed into a word give high * 256 + low.
pub proof fn lemma_combine_bytes(high: u16, low: u16)
    requires
        high < 256,
        low < 256,
    ensures
        (high << 8) | low == 256 * high + low,
{
    assert((high << 8) | low == 256 * high + low) by (bit_vector)
        requires
            high < 256,
            low < 256,
    ;
}

/// Splitting a word into its high and low bytes.
pub proof fn lemma_split_word(value: u16)
    ensures
        (value >> 8) as u8 == value / 256,
        value as u8 == value % 256,
{
    assert((value >> 8) as u8 == value / 256 && value as u8 == value % 256) by (bit_vector);
}

/// Sign extension of a byte offset to a word.
pub proof fn lemma_sign_extend(value: i8)
    ensures
        value as u16 == (value as int + 65536) % 65536,
{
    let extended = value as u16;
    assert(extended == (value as int + 65536) % 65536) by (bit_vector)
        requires
            extended == value as u16,
    ;
}

/// Rotating a byte by four bits swaps its nibbles.
pub proof fn lemma_swap_nibbles(x: u8)
    ensures
        (x << 4) | (x >> 4) == (x % 16) * 16 + x / 16,
{
    assert((x << 4) | (x >> 4) == (x % 16) * 16 + x / 16) by (bit_vector);
}

/// Masking a word with 0xFF keeps its low byte.
pub proof fn lemma_low_byte_mask(value: u16)
    ensures
        (value & 0xFF) as u8 == value % 256,
{
    assert((value & 0xFF) as u8 == value % 256) by (bit_vector);
}

/// The high and low nibbles of a byte.
pub proof fn lemma_nibbles(x: u8)
    ensures
        x >> 4 == x / 16,
        x & 0xF == x % 16,
{
    assert(x >> 4 == x / 16 && x & 0xF == x % 16) by (bit_vector);
}

/// Masking with bit `k` tests the same bit as shifting it down.
pub proof fn lemma_bit_test(x: u8, k: u8)
    requires
        k < 8,
    ensures
        (x & (1u8 << k) == (1u8 << k)) == ((x >> k) & 1 == 1),
{
    assert((x & (1u8 << k) == (1u8 << k)) == ((x >> k) & 1 == 1)) by (bit_vector)
        requires
            k < 8,
    ;
}

/// The lowest bit of a byte is 0 or 1.
pub proof fn lemma_low_bit(x: u8)
    ensures
        x & 1 <= 1,
{
    assert(x & 1 <= 1) by (bit_vector);
}

} // verus!
