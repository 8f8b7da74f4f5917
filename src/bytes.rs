use vstd::prelude::*;

verus! {

/// The value of a little-endian 16-bit field made of `low` followed by `high`.
pub open spec fn le16(low: u8, high: u8) -> nat {
    high as nat * 256 + low as nat
}

/// Joins two payload bytes into the 16-bit little-endian quantity they encode.
pub fn convert_byte(a: u8, b: u8) -> (r: u32)
    ensures
        r as nat == le16(a, b),
        r < 0x1_0000,
{
    let r: u32 = ((b as u32) << 8u32) | (a as u32);
    assert(((b as u32) << 8u32) | (a as u32) == (b as u32) * 256 + (a as u32)) by (bit_vector)
        requires
            (b as u32) < 256,
            (a as u32) < 256,
    ;
    r
}

} // verus!
