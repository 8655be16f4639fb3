//! Integer state of the performance LFO's sample & hold generator.

use vstd::prelude::*;

verus! {

/// Seed of the sample & hold generator.
pub const LFO_RNG_SEED: u32 = 0x1234_5678;

/// One xorshift32 step: `x ^= x << 13; x ^= x >> 17; x ^= x << 5`.
pub open spec fn spec_xorshift32(x: u32) -> u32 {
    let a = x ^ (x << 13u32);
    let b = a ^ (a >> 17u32);
    b ^ (b << 5u32)
}

/// Advances the sample & hold generator state by one xorshift32 step. A
/// non-zero state never becomes zero, so the generator never locks up.
pub fn xorshift32(x: u32) -> (r: u32)
    ensures
        r == spec_xorshift32(x),
        x != 0 ==> r != 0,
{
    let a = x ^ (x << 13u32);
    let b = a ^ (a >> 17u32);
    let r = b ^ (b << 5u32);
    assert(x != 0 ==> r != 0) by (bit_vector)
        requires
            a == x ^ (x << 13u32),
            b == a ^ (a >> 17u32),
            r == b ^ (b << 5u32),
    ;
    r
}

} // verus!
