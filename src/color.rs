use vstd::prelude::*;

verus! {

/// The packed value of an 8-bit (R, G, B) triplet: red in bits 16..24, green
/// in bits 8..16, blue in bits 0..8, and the top byte clear.
pub open spec fn argb(r: u8, g: u8, b: u8) -> int {
    r as int * 0x1_0000 + g as int * 0x100 + b as int
}

/// Packs an (R, G, B) triplet into one 32-bit pixel value, `(R << 16) | (G << 8) | B`.
pub fn to_u32_argb(color: (u8, u8, u8)) -> (packed: u32)
    ensures
        packed as int == argb(color.0, color.1, color.2),
        packed == ((color.0 as u32) << 16u32) | ((color.1 as u32) << 8u32) | (color.2 as u32),
        packed >> 24u32 == 0,
{
    let (r, g, b) = color;
    let packed = (r as u32) << 16u32 | (g as u32) << 8u32 | b as u32;
    assert(packed == (r as u32) * 0x1_0000u32 + (g as u32) * 0x100u32 + (b as u32)
        && packed >> 24u32 == 0) by (bit_vector)
        requires
            packed == (r as u32) << 16u32 | (g as u32) << 8u32 | b as u32,
    ;
    packed
}

} // verus!
