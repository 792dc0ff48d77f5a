//! Collision response. Two formulas, both exact:
//!
//! - bouncing off a wall reflects a velocity about the contact normal,
//!   `v' = v - 2 (v . n) n`;
//! - two discs exchange momentum along the line of their centers by the
//!   one-dimensional elastic-collision law, weighted by mass.
//!
//! Velocities, positions and masses come in on the integer grid; the results
//! are exact rationals. Dividing by the squared length of the center line
//! instead of normalizing it keeps everything rational: for the disc-disc
//! case, `v1' = v1 + (2 m2 ((v2 - v1) . d) / ((m1 + m2) (d . d))) d` with
//! `d = p1 - p2`, which is the textbook formula with the unit vector `d/|d|`
//! substituted in.

use vstd::prelude::*;

use crate::rat::{rat_bounded, rat_is, rat_vec_wf, Rat, RatVec2};
use crate::{vec_ok, Vec2, MAX_COORD};

verus! {

/// `-(aa*bb) <= a*b <= aa*bb` for `a`, `b` of magnitude at most `aa`, `bb`.
proof fn lemma_mul_bound(a: int, b: int, aa: int, bb: int) by (nonlinear_arith)
    requires
        -aa <= a <= aa,
        -bb <= b <= bb,
        0 <= aa,
        0 <= bb,
    ensures
        -(aa * bb) <= a * b <= aa * bb,
{
}

proof fn lemma_mul_pos(a: int, b: int) by (nonlinear_arith)
    requires
        a > 0,
        b > 0,
    ensures
        a * b > 0,
{
}

/// The exact result of reflecting `v` about the normal `n`:
/// `r == v - 2 (v . n) n`, written over a common denominator.
/// With `v . n == p / q`, the components are
/// `r.x == (v.x * q * n.x.den - 2 p * n.x.num) / (q * n.x.den)` and
/// symmetrically for `y`.
pub open spec fn reflect_post(v: Vec2, n: RatVec2, r: RatVec2) -> bool {
    let vx: int = v.x as int;
    let vy: int = v.y as int;
    let nxn: int = n.x.num as int;
    let nxd: int = n.x.den as int;
    let nyn: int = n.y.num as int;
    let nyd: int = n.y.den as int;
    let p: int = vx * nxn * nyd + vy * nyn * nxd;
    let q: int = nxd * nyd;
    &&& r.x.num == vx * q * nxd - 2 * p * nxn
    &&& r.x.den == q * nxd
    &&& r.y.num == vy * q * nyd - 2 * p * nyn
    &&& r.y.den == q * nyd
}

/// Reflect the velocity `v` of a body about the contact normal `n`:
/// `v' = v - 2 (v . n) n`, computed exactly.
pub fn reflect_velocity(v: Vec2, n: RatVec2) -> (r: RatVec2)
    requires
        vec_ok(v),
        rat_vec_wf(n),
        rat_bounded(n.x, MAX_COORD as int),
        rat_bounded(n.y, MAX_COORD as int),
    ensures
        reflect_post(v, n, r),
        rat_vec_wf(r),
{
    let vx: i128 = v.x as i128;
    let vy: i128 = v.y as i128;
    let nxn: i128 = n.x.num;
    let nxd: i128 = n.x.den;
    let nyn: i128 = n.y.num;
    let nyd: i128 = n.y.den;
    proof {
        lemma_mul_bound(vx as int, nxn as int, 0x4000_0000, 0x4000_0000);
        lemma_mul_bound(vx as int * nxn as int, nyd as int, 0x1000_0000_0000_0000, 0x4000_0000);
        lemma_mul_bound(vy as int, nyn as int, 0x4000_0000, 0x4000_0000);
        lemma_mul_bound(vy as int * nyn as int, nxd as int, 0x1000_0000_0000_0000, 0x4000_0000);
    }
    let p: i128 = vx * nxn * nyd + vy * nyn * nxd;
    proof {
        lemma_mul_bound(nxd as int, nyd as int, 0x4000_0000, 0x4000_0000);
        lemma_mul_pos(nxd as int, nyd as int);
    }
    let q: i128 = nxd * nyd;
    proof {
        // |p| <= 2^91 and |q| <= 2^60, so every product below stays under 2^125.
        lemma_mul_bound(vx as int, q as int, 0x4000_0000, 0x1000_0000_0000_0000);
        lemma_mul_bound(
            vx as int * q as int,
            nxd as int,
            0x4000_0000int * 0x1000_0000_0000_0000,
            0x4000_0000,
        );
        lemma_mul_bound(
            2 * p as int,
            nxn as int,
            0x10int * 0x4000_0000 * 0x1000_0000_0000_0000,
            0x4000_0000,
        );
        lemma_mul_bound(vy as int, q as int, 0x4000_0000, 0x1000_0000_0000_0000);
        lemma_mul_bound(
            vy as int * q as int,
            nyd as int,
            0x4000_0000int * 0x1000_0000_0000_0000,
            0x4000_0000,
        );
        lemma_mul_bound(
            2 * p as int,
            nyn as int,
            0x10int * 0x4000_0000 * 0x1000_0000_0000_0000,
            0x4000_0000,
        );
        lemma_mul_bound(q as int, nxd as int, 0x1000_0000_0000_0000, 0x4000_0000);
        lemma_mul_bound(q as int, nyd as int, 0x1000_0000_0000_0000, 0x4000_0000);
        lemma_mul_pos(q as int, nxd as int);
        lemma_mul_pos(q as int, nyd as int);
    }
    let rx = Rat { num: vx * q * nxd - 2 * p * nxn, den: q * nxd };
    let ry = Rat { num: vy * q * nyd - 2 * p * nyn, den: q * nyd };
    RatVec2 { x: rx, y: ry }
}

/// A wall's contact normal is axis-aligned and of unit length: along `x`,
/// its `x` component is exactly `1` or `-1` and its `y` component is `0`.
pub open spec fn axis_normal_x(n: RatVec2) -> bool {
    &&& rat_vec_wf(n)
    &&& (n.x.num == n.x.den || n.x.num == -n.x.den)
    &&& n.y.num == 0
}

/// The same, with the normal along `y`.
pub open spec fn axis_normal_y(n: RatVec2) -> bool {
    &&& rat_vec_wf(n)
    &&& (n.y.num == n.y.den || n.y.num == -n.y.den)
    &&& n.x.num == 0
}

/// Bouncing off a face whose normal points along `x` inverts the sign of the
/// velocity component along the normal and leaves the tangential component
/// unchanged: `r == (-v.x, v.y)` exactly.
pub proof fn lemma_reflect_axis_normal_x(v: Vec2, n: RatVec2, r: RatVec2)
    requires
        axis_normal_x(n),
        reflect_post(v, n, r),
    ensures
        rat_is(r.x, -(v.x as int), 1),
        rat_is(r.y, v.y as int, 1),
{
    let vx: int = v.x as int;
    let vy: int = v.y as int;
    let nxn: int = n.x.num as int;
    let nxd: int = n.x.den as int;
    let nyn: int = n.y.num as int;
    let nyd: int = n.y.den as int;
    let p: int = vx * nxn * nyd + vy * nyn * nxd;
    let q: int = nxd * nyd;
    assert(vx * q * nxd - 2 * p * nxn == -vx * (q * nxd) && vy * q * nyd - 2 * p * nyn == vy * (q
        * nyd)) by (nonlinear_arith)
        requires
            nyn == 0,
            nxn == nxd || nxn == -nxd,
            p == vx * nxn * nyd + vy * nyn * nxd,
            q == nxd * nyd,
    ;
}

/// Bouncing off a face whose normal points along `y`: `r == (v.x, -v.y)` exactly.
pub proof fn lemma_reflect_axis_normal_y(v: Vec2, n: RatVec2, r: RatVec2)
    requires
        axis_normal_y(n),
        reflect_post(v, n, r),
    ensures
        rat_is(r.x, v.x as int, 1),
        rat_is(r.y, -(v.y as int), 1),
{
    let vx: int = v.x as int;
    let vy: int = v.y as int;
    let nxn: int = n.x.num as int;
    let nxd: int = n.x.den as int;
    let nyn: int = n.y.num as int;
    let nyd: int = n.y.den as int;
    let p: int = vx * nxn * nyd + vy * nyn * nxd;
    let q: int = nxd * nyd;
    assert(vx * q * nxd - 2 * p * nxn == vx * (q * nxd) && vy * q * nyd - 2 * p * nyn == -vy * (q
        * nyd)) by (nonlinear_arith)
        requires
            nxn == 0,
            nyn == nyd || nyn == -nyd,
            p == vx * nxn * nyd + vy * nyn * nxd,
            q == nxd * nyd,
    ;
}

/// The exact result of an elastic collision of two discs at `p1`, `p2` with
/// velocities `v1`, `v2` and masses `m1`, `m2`, along the line of centers
/// `d = p1 - p2`. Every output component sits over the common denominator
/// `(m1 + m2) * (d . d)`:
/// `v1' = v1 + (2 m2 w / ((m1 + m2) (d . d))) d` and
/// `v2' = v2 - (2 m1 w / ((m1 + m2) (d . d))) d`, with `w = (v2 - v1) . d`.
pub open spec fn elastic_post(
    p1: Vec2,
    v1: Vec2,
    m1: i64,
    p2: Vec2,
    v2: Vec2,
    m2: i64,
    r1: RatVec2,
    r2: RatVec2,
) -> bool {
    let dx: int = p1.x - p2.x;
    let dy: int = p1.y - p2.y;
    let s: int = dx * dx + dy * dy;
    let w: int = (v2.x - v1.x) * dx + (v2.y - v1.y) * dy;
    let den: int = (m1 + m2) * s;
    &&& r1.x.num == v1.x * den + 2 * m2 * w * dx
    &&& r1.x.den == den
    &&& r1.y.num == v1.y * den + 2 * m2 * w * dy
    &&& r1.y.den == den
    &&& r2.x.num == v2.x * den - 2 * m1 * w * dx
    &&& r2.x.den == den
    &&& r2.y.num == v2.y * den - 2 * m1 * w * dy
    &&& r2.y.den == den
}

/// Resolve a contact between two discs as a perfectly elastic collision:
/// project each velocity onto the line of centers, apply the two-body
/// elastic-collision law weighted by mass there, and keep the tangential
/// components. Returns the two new velocities, exactly.
pub fn elastic_disc_collision(p1: Vec2, v1: Vec2, m1: i64, p2: Vec2, v2: Vec2, m2: i64) -> (r: (
    RatVec2,
    RatVec2,
))
    requires
        vec_ok(p1),
        vec_ok(v1),
        vec_ok(p2),
        vec_ok(v2),
        0 < m1 <= MAX_COORD,
        0 < m2 <= MAX_COORD,
        p1 != p2,
    ensures
        elastic_post(p1, v1, m1, p2, v2, m2, r.0, r.1),
        rat_vec_wf(r.0),
        rat_vec_wf(r.1),
{
    let dx: i128 = (p1.x as i128) - (p2.x as i128);
    let dy: i128 = (p1.y as i128) - (p2.y as i128);
    proof {
        lemma_mul_bound(dx as int, dx as int, 0x8000_0000, 0x8000_0000);
        lemma_mul_bound(dy as int, dy as int, 0x8000_0000, 0x8000_0000);
    }
    let s: i128 = dx * dx + dy * dy;
    proof {
        assert(s > 0) by (nonlinear_arith)
            requires
                s == dx * dx + dy * dy,
                dx != 0 || dy != 0,
        ;
    }
    let ux: i128 = (v2.x as i128) - (v1.x as i128);
    let uy: i128 = (v2.y as i128) - (v1.y as i128);
    proof {
        lemma_mul_bound(ux as int, dx as int, 0x8000_0000, 0x8000_0000);
        lemma_mul_bound(uy as int, dy as int, 0x8000_0000, 0x8000_0000);
    }
    let w: i128 = ux * dx + uy * dy;
    let msum: i128 = (m1 as i128) + (m2 as i128);
    proof {
        lemma_mul_bound(msum as int, s as int, 0x8000_0000, 0x8000_0000_0000_0000);
        lemma_mul_pos(msum as int, s as int);
    }
    let den: i128 = msum * s;
    proof {
        // |den| <= 2^94, |w| <= 2^63, so each numerator term stays under 2^126.
        lemma_mul_bound(v1.x as int, den as int, 0x4000_0000, 0x4000_0000_0000_0000_0000_0000);
        lemma_mul_bound(v1.y as int, den as int, 0x4000_0000, 0x4000_0000_0000_0000_0000_0000);
        lemma_mul_bound(v2.x as int, den as int, 0x4000_0000, 0x4000_0000_0000_0000_0000_0000);
        lemma_mul_bound(v2.y as int, den as int, 0x4000_0000, 0x4000_0000_0000_0000_0000_0000);
        lemma_mul_bound(2 * m2 as int, w as int, 0x8000_0000, 0x8000_0000_0000_0000);
        lemma_mul_bound(
            2 * m2 as int * w as int,
            dx as int,
            0x4000_0000_0000_0000_0000_0000,
            0x8000_0000,
        );
        lemma_mul_bound(
            2 * m2 as int * w as int,
            dy as int,
            0x4000_0000_0000_0000_0000_0000,
            0x8000_0000,
        );
        lemma_mul_bound(2 * m1 as int, w as int, 0x8000_0000, 0x8000_0000_0000_0000);
        lemma_mul_bound(
            2 * m1 as int * w as int,
            dx as int,
            0x4000_0000_0000_0000_0000_0000,
            0x8000_0000,
        );
        lemma_mul_bound(
            2 * m1 as int * w as int,
            dy as int,
            0x4000_0000_0000_0000_0000_0000,
            0x8000_0000,
        );
    }
    let r1 = RatVec2 {
        x: Rat { num: (v1.x as i128) * den + 2 * (m2 as i128) * w * dx, den },
        y: Rat { num: (v1.y as i128) * den + 2 * (m2 as i128) * w * dy, den },
    };
    let r2 = RatVec2 {
        x: Rat { num: (v2.x as i128) * den - 2 * (m1 as i128) * w * dx, den },
        y: Rat { num: (v2.y as i128) * den - 2 * (m1 as i128) * w * dy, den },
    };
    (r1, r2)
}

/// The elastic-collision law in its equal-mass, head-on special case: when the
/// two discs have the same mass, move along their line of centers, and carry
/// opposite velocities of equal speed, the collision swaps the two
/// velocities: `r1 == v2` and `r2 == v1`, exactly.
pub proof fn lemma_equal_mass_head_on_swap(
    p1: Vec2,
    v1: Vec2,
    p2: Vec2,
    v2: Vec2,
    m: i64,
    r1: RatVec2,
    r2: RatVec2,
)
    requires
        m > 0,
        p1 != p2,
        v2.x == -(v1.x as int),
        v2.y == -(v1.y as int),
        v1.x * (p1.y - p2.y) == v1.y * (p1.x - p2.x),
        elastic_post(p1, v1, m, p2, v2, m, r1, r2),
    ensures
        rat_is(r1.x, v2.x as int, 1),
        rat_is(r1.y, v2.y as int, 1),
        rat_is(r2.x, v1.x as int, 1),
        rat_is(r2.y, v1.y as int, 1),
{
    let dx: int = p1.x - p2.x;
    let dy: int = p1.y - p2.y;
    let s: int = dx * dx + dy * dy;
    let w: int = (v2.x - v1.x) * dx + (v2.y - v1.y) * dy;
    let den: int = (m + m) * s;
    assert(w * dx == -2 * v1.x * s && w * dy == -2 * v1.y * s) by (nonlinear_arith)
        requires
            s == dx * dx + dy * dy,
            w == (-v1.x - v1.x) * dx + (-v1.y - v1.y) * dy,
            v1.x * dy == v1.y * dx,
    ;
    assert(v1.x * den + 2 * m * w * dx == -v1.x * den && v1.y * den + 2 * m * w * dy == -v1.y * den
        && -v1.x * den - 2 * m * w * dx == v1.x * den && -v1.y * den - 2 * m * w * dy == v1.y
        * den) by (nonlinear_arith)
        requires
            den == (m + m) * s,
            w * dx == -2 * v1.x * s,
            w * dy == -2 * v1.y * s,
    ;
}

} // verus!
