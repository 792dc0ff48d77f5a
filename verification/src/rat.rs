//! Exact rational numbers: the collision formulas divide by mass sums and
//! squared distances, so their results are rationals. A `Rat` is a plain
//! numerator/denominator pair, never reduced; all statements about it go
//! through cross-multiplication, which needs no division.

use vstd::prelude::*;

verus! {

/// An exact rational `num / den`; well-formed when `den > 0`.
#[derive(Clone, Copy, Debug)]
pub struct Rat {
    pub num: i128,
    pub den: i128,
}

/// A pair of rationals: a velocity or a unit normal with exact components.
#[derive(Clone, Copy, Debug)]
pub struct RatVec2 {
    pub x: Rat,
    pub y: Rat,
}

pub open spec fn rat_wf(r: Rat) -> bool {
    r.den > 0
}

pub open spec fn rat_vec_wf(v: RatVec2) -> bool {
    rat_wf(v.x) && rat_wf(v.y)
}

/// `r` denotes exactly the rational `n / d` (for `d > 0`), by cross-multiplication.
pub open spec fn rat_is(r: Rat, n: int, d: int) -> bool {
    r.num * d == n * r.den
}

/// Both components of `r` have magnitude at most `bound`, denominator included.
pub open spec fn rat_bounded(r: Rat, bound: int) -> bool {
    -bound <= r.num <= bound && r.den <= bound
}

} // verus!
