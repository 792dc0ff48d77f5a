//! Verified core of a 2D "balls and walls" sandbox: exact collision-response
//! formulas and the input-interaction rules, stated over integer coordinates
//! and exact rational numbers.

use vstd::prelude::*;

pub mod collision;
pub mod interact;
pub mod rat;

verus! {

/// Largest magnitude allowed for a coordinate, velocity component or mass
/// handed to the collision formulas: keeps every intermediate product of the
/// exact arithmetic inside `i128`.
pub const MAX_COORD: i64 = 0x4000_0000;

/// A point or velocity on the integer grid the simulation state is kept on.
#[derive(Clone, Copy, Debug, PartialEq, Eq, Structural)]
pub struct Vec2 {
    pub x: i64,
    pub y: i64,
}

pub open spec fn coord_ok(c: i64) -> bool {
    -MAX_COORD <= c <= MAX_COORD
}

pub open spec fn vec_ok(v: Vec2) -> bool {
    coord_ok(v.x) && coord_ok(v.y)
}

} // verus!
