//! Integer parameter mappings.

use vstd::prelude::*;

verus! {

/// `base + velocity * sensitivity / 127`, rounded to the nearest integer
/// (halves away from zero), as an exact integer.
pub open spec fn spec_tl_sum_rounded(base_tl: u8, velocity: u8, sensitivity: u8) -> int {
    (2 * (127 * base_tl + velocity * sensitivity) + 127) / 254
}

/// Effective TL = clamp(TL + (velocity / 127) * sensitivity, 0, 255),
/// rounded to the nearest integer.
pub open spec fn spec_effective_tl(base_tl: u8, velocity: u8, sensitivity: u8) -> u8 {
    let s = spec_tl_sum_rounded(base_tl, velocity, sensitivity);
    if s > 255 {
        255
    } else {
        s as u8
    }
}

/// Effective TL = clamp(TL + (velocity / 127) * sensitivity, 0, 255).
pub fn effective_tl(base_tl: u8, velocity: u8, sensitivity: u8) -> (r: u8)
    ensures
        r == spec_effective_tl(base_tl, velocity, sensitivity),
        r >= base_tl,
        sensitivity == 0 ==> r == base_tl,
{
    let v: u32 = velocity as u32;
    let sens: u32 = sensitivity as u32;
    assert(v * sens <= 255 * 255) by (nonlinear_arith)
        requires
            v <= 255,
            sens <= 255,
    ;
    assert(sens == 0 ==> v * sens == 0) by (nonlinear_arith);
    let n: u32 = 127 * (base_tl as u32) + v * sens;
    let s: u32 = (2 * n + 127) / 254;
    assert(s >= base_tl) by (nonlinear_arith)
        requires
            n >= 127 * base_tl,
            s == (2 * n + 127) / 254,
    ;
    assert(sensitivity == 0 ==> s == base_tl) by (nonlinear_arith)
        requires
            sensitivity == 0 ==> n == 127 * base_tl,
            s == (2 * n + 127) / 254,
            base_tl <= 255,
    ;
    if s > 255 {
        255
    } else {
        s as u8
    }
}

} // verus!
