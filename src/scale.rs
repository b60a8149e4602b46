//! The text scale of the document area, in thousandths of the base font size.

use vstd::prelude::*;

verus! {

/// Smallest scale: half the base size.
pub const MIN_SCALE: u32 = 500;

/// Largest scale: three times the base size.
pub const MAX_SCALE: u32 = 3000;

/// Scale at start-up: the base size.
pub const DEFAULT_SCALE: u32 = 1000;

/// A scale is valid when it lies between the two bounds.
pub open spec fn scale_valid(s: int) -> bool {
    MIN_SCALE <= s <= MAX_SCALE
}

/// One step up: grow by a tenth, capped at the upper bound.
pub open spec fn scale_up_spec(s: int) -> int {
    let g = s * 11 / 10;
    if g > MAX_SCALE as int {
        MAX_SCALE as int
    } else {
        g
    }
}

/// One step down: shrink by a tenth, held at the lower bound.
pub open spec fn scale_down_spec(s: int) -> int {
    let g = s * 9 / 10;
    if g < MIN_SCALE as int {
        MIN_SCALE as int
    } else {
        g
    }
}

/// The scale one step up from `s`.
pub fn scale_up(s: u32) -> (r: u32)
    ensures
        r as int == scale_up_spec(s as int),
{
    let g: u64 = (s as u64) * 11 / 10;
    if g > MAX_SCALE as u64 {
        MAX_SCALE
    } else {
        g as u32
    }
}

/// The scale one step down from `s`.
pub fn scale_down(s: u32) -> (r: u32)
    ensures
        r as int == scale_down_spec(s as int),
{
    let g: u64 = (s as u64) * 9 / 10;
    if g < MIN_SCALE as u64 {
        MIN_SCALE
    } else {
        g as u32
    }
}

} // verus!
