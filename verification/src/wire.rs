use vstd::prelude::*;

verus! {

/// A signed 16-bit field read big-endian from two wire bytes.
pub open spec fn spec_i16_from_be(hi: u8, lo: u8) -> i16 {
    (((hi as u16) << 8u16) | (lo as u16)) as i16
}

/// An unsigned 16-bit field read big-endian from two wire bytes.
pub open spec fn spec_u16_from_be(hi: u8, lo: u8) -> u16 {
    ((hi as u16) << 8u16) | (lo as u16)
}

/// A signed 32-bit field read big-endian from four wire bytes.
pub open spec fn spec_i32_from_be(b0: u8, b1: u8, b2: u8, b3: u8) -> i32 {
    (((b0 as u32) << 24u32) | ((b1 as u32) << 16u32) | ((b2 as u32) << 8u32) | (b3 as u32)) as i32
}

/// The signed 16-bit big-endian field is the two's-complement value of
/// `hi * 256 + lo`.
pub proof fn lemma_i16_from_be_value(hi: u8, lo: u8)
    ensures
        hi < 0x80 ==> spec_i16_from_be(hi, lo) == hi * 256 + lo,
        hi >= 0x80 ==> spec_i16_from_be(hi, lo) == hi * 256 + lo - 0x10000,
{
    assert(hi < 0x80 ==> ((((hi as u16) << 8u16) | (lo as u16)) as i16) == hi * 256 + lo)
        by (bit_vector);
    assert(hi >= 0x80 ==> ((((hi as u16) << 8u16) | (lo as u16)) as i16) == hi * 256 + lo - 0x10000)
        by (bit_vector);
}

/// The unsigned 16-bit big-endian field is `hi * 256 + lo`.
pub proof fn lemma_u16_from_be_value(hi: u8, lo: u8)
    ensures
        spec_u16_from_be(hi, lo) == hi * 256 + lo,
{
    assert((((hi as u16) << 8u16) | (lo as u16)) == hi * 256 + lo) by (bit_vector);
}

/// The signed 32-bit big-endian field is the two's-complement value of the
/// four bytes' place values.
pub proof fn lemma_i32_from_be_value(b0: u8, b1: u8, b2: u8, b3: u8)
    ensures
        b0 < 0x80 ==> spec_i32_from_be(b0, b1, b2, b3) == b0 * 0x1000000 + b1 * 0x10000 + b2
            * 0x100 + b3,
        b0 >= 0x80 ==> spec_i32_from_be(b0, b1, b2, b3) == b0 * 0x1000000 + b1 * 0x10000 + b2
            * 0x100 + b3 - 0x100000000,
{
    assert(b0 < 0x80 ==> ((((b0 as u32) << 24u32) | ((b1 as u32) << 16u32) | ((b2 as u32)
        << 8u32) | (b3 as u32)) as i32) == b0 * 0x1000000 + b1 * 0x10000 + b2 * 0x100 + b3)
        by (bit_vector);
    assert(b0 >= 0x80 ==> ((((b0 as u32) << 24u32) | ((b1 as u32) << 16u32) | ((b2 as u32)
        << 8u32) | (b3 as u32)) as i32) == b0 * 0x1000000 + b1 * 0x10000 + b2 * 0x100 + b3
        - 0x100000000) by (bit_vector);
}

/// Executable big-endian decode of a signed 16-bit field.
pub fn i16_from_be(hi: u8, lo: u8) -> (r: i16)
    ensures
        r == spec_i16_from_be(hi, lo),
        hi < 0x80 ==> r == hi * 256 + lo,
        hi >= 0x80 ==> r == hi * 256 + lo - 0x10000,
{
    proof {
        lemma_i16_from_be_value(hi, lo);
    }
    (((hi as u16) << 8u16) | (lo as u16)) as i16
}

/// Executable big-endian decode of an unsigned 16-bit field.
pub fn u16_from_be(hi: u8, lo: u8) -> (r: u16)
    ensures
        r == spec_u16_from_be(hi, lo),
        r == hi * 256 + lo,
{
    proof {
        lemma_u16_from_be_value(hi, lo);
    }
    ((hi as u16) << 8u16) | (lo as u16)
}

/// Executable big-endian decode of a signed 32-bit field.
pub fn i32_from_be(b0: u8, b1: u8, b2: u8, b3: u8) -> (r: i32)
    ensures
        r == spec_i32_from_be(b0, b1, b2, b3),
        b0 < 0x80 ==> r == b0 * 0x1000000 + b1 * 0x10000 + b2 * 0x100 + b3,
        b0 >= 0x80 ==> r == b0 * 0x1000000 + b1 * 0x10000 + b2 * 0x100 + b3 - 0x100000000,
{
    proof {
        lemma_i32_from_be_value(b0, b1, b2, b3);
    }
    (((b0 as u32) << 24u32) | ((b1 as u32) << 16u32) | ((b2 as u32) << 8u32) | (b3 as u32)) as i32
}

} // verus!
