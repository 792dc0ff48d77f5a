//! Interaction rules: how mouse presses, releases and mode keys turn into
//! spawned discs and walls.
//!
//! A press records an anchor point; a release either spawns a disc at the
//! anchor with velocity twice the drag vector and a radius drawn at press
//! time, or spawns the axis-aligned wall rectangle spanned by the anchor and
//! the release point. A second press while the button is already held is
//! ignored.

use vstd::prelude::*;

use crate::rat::{rat_wf, Rat};
use crate::{coord_ok, vec_ok, Vec2};

verus! {

/// Mouse coordinates arrive with `y` growing downwards; the simulation keeps
/// `y` growing upwards. Flip a screen point into world coordinates.
pub fn to_world(height: i64, x: i64, y: i64) -> (p: Vec2)
    requires
        coord_ok(height),
        coord_ok(x),
        coord_ok(y),
    ensures
        p.x == x,
        p.y == height - y,
{
    Vec2 { x, y: height - y }
}

/// Velocity given to a disc on release of a drag: exactly twice the vector
/// from the press point to the release point.
pub fn release_velocity(press: Vec2, release: Vec2) -> (v: Vec2)
    requires
        vec_ok(press),
        vec_ok(release),
    ensures
        v.x == 2 * (release.x - press.x),
        v.y == 2 * (release.y - press.y),
{
    Vec2 { x: 2 * (release.x - press.x), y: 2 * (release.y - press.y) }
}

/// An axis-aligned wall: center point and full extents.
#[derive(Clone, Copy, Debug)]
pub struct WallRect {
    pub center_x: Rat,
    pub center_y: Rat,
    pub width: i64,
    pub height: i64,
}

/// The wall spanned by the two corner points `(ax, ay)` and `(bx, by)`:
/// its center is their midpoint and its extents are the absolute coordinate
/// differences, whichever way the drag went.
pub open spec fn wall_rect_post(ax: i64, ay: i64, bx: i64, by: i64, w: WallRect) -> bool {
    &&& w.width == (if ax <= bx {
        bx - ax
    } else {
        ax - bx
    })
    &&& w.height == (if ay <= by {
        by - ay
    } else {
        ay - by
    })
    &&& w.center_x.num == ax + bx
    &&& w.center_x.den == 2
    &&& w.center_y.num == ay + by
    &&& w.center_y.den == 2
}

/// Compute the axis-aligned wall rectangle between two dragged corner
/// points. The extents are never negative, whichever direction the drag went.
pub fn wall_from_corners(ax: i64, ay: i64, bx: i64, by: i64) -> (w: WallRect)
    requires
        coord_ok(ax),
        coord_ok(ay),
        coord_ok(bx),
        coord_ok(by),
    ensures
        wall_rect_post(ax, ay, bx, by, w),
        w.width >= 0,
        w.height >= 0,
        rat_wf(w.center_x),
        rat_wf(w.center_y),
{
    let width: i64 = if ax <= bx {
        bx - ax
    } else {
        ax - bx
    };
    let height: i64 = if ay <= by {
        by - ay
    } else {
        ay - by
    };
    WallRect {
        center_x: Rat { num: ax as i128 + bx as i128, den: 2 },
        center_y: Rat { num: ay as i128 + by as i128, den: 2 },
        width,
        height,
    }
}

/// Number of equal steps the random scale is drawn from: a 32-bit draw `u`
/// stands for the fraction `u / SCALE_STEPS` in `[0, 1)`.
pub const SCALE_STEPS: i128 = 4294967296;

/// The radius given to a disc spawned with random scale `scale`:
/// exactly `5 + 15 * (scale / 2^32)`, a point in `[5, 20)`.
pub open spec fn spawn_radius_post(scale: u32, r: Rat) -> bool {
    &&& r.num == 5 * SCALE_STEPS + 15 * scale
    &&& r.den == SCALE_STEPS
}

/// The radius lies in `[5, 20]` (in fact always strictly below `20`).
pub open spec fn radius_in_range(r: Rat) -> bool {
    &&& 5 * r.den <= r.num
    &&& r.num < 20 * r.den
}

/// Map a raw 32-bit random draw to a disc radius: `5 + 15 * (scale / 2^32)`.
pub fn spawn_radius(scale: u32) -> (r: Rat)
    ensures
        spawn_radius_post(scale, r),
        radius_in_range(r),
        rat_wf(r),
{
    Rat { num: 5 * SCALE_STEPS + 15 * (scale as i128), den: SCALE_STEPS }
}

/// Relies on rand::random: draws a value of the asked-for type from the
/// thread-local generator. Nothing can be promised of the draw.
pub assume_specification<T>[ rand::random::<T> ]() -> (r: T)
    where
        rand::distributions::Standard: rand::distributions::Distribution<T>,
;

/// Draw a fresh random radius for a disc about to be spawned. Whatever the
/// generator returns, the radius lies in `[5, 20]`.
pub fn random_radius() -> (r: Rat)
    ensures
        radius_in_range(r),
        rat_wf(r),
{
    let scale: u32 = rand::random::<u32>();
    spawn_radius(scale)
}

/// What the user is currently placing with the primary button.
#[derive(Clone, Copy, Debug, PartialEq, Eq, Structural)]
pub enum PlaceMode {
    Ball,
    Wall,
}

/// A disc to be inserted into the simulation.
#[derive(Clone, Copy, Debug)]
pub struct BallSpawn {
    pub pos: Vec2,
    pub vel: Vec2,
    pub radius: Rat,
}

/// What a release of a mouse button asks the simulation to do.
#[derive(Clone, Copy, Debug)]
pub enum SpawnAction {
    Nothing,
    Ball(BallSpawn),
    Wall(WallRect),
}

/// The interaction state: current placement mode, which buttons are held,
/// the anchor points recorded at press time, and the radius drawn for the
/// disc being placed.
#[derive(Clone, Copy, Debug)]
pub struct InputState {
    pub mode: PlaceMode,
    pub left_down: bool,
    pub right_down: bool,
    pub anchor: Vec2,
    pub rect_anchor: Vec2,
    pub radius: Rat,
}

pub open spec fn input_wf(s: InputState) -> bool {
    &&& vec_ok(s.anchor)
    &&& vec_ok(s.rect_anchor)
    &&& rat_wf(s.radius)
}

impl InputState {
    /// Fresh state: ball mode, no button held, anchors at the origin,
    /// no radius drawn yet.
    pub fn new() -> (s: InputState)
        ensures
            s.mode == PlaceMode::Ball,
            !s.left_down,
            !s.right_down,
            s.anchor == (Vec2 { x: 0, y: 0 }),
            s.rect_anchor == (Vec2 { x: 0, y: 0 }),
            s.radius == (Rat { num: 0, den: 1 }),
            input_wf(s),
    {
        InputState {
            mode: PlaceMode::Ball,
            left_down: false,
            right_down: false,
            anchor: Vec2 { x: 0, y: 0 },
            rect_anchor: Vec2 { x: 0, y: 0 },
            radius: Rat { num: 0, den: 1 },
        }
    }

    /// Switch to wall placement.
    pub fn set_wall_mode(&mut self)
        ensures
            *final(self) == (InputState { mode: PlaceMode::Wall, ..*old(self) }),
    {
        self.mode = PlaceMode::Wall;
    }

    /// Switch to ball placement.
    pub fn set_ball_mode(&mut self)
        ensures
            *final(self) == (InputState { mode: PlaceMode::Ball, ..*old(self) }),
    {
        self.mode = PlaceMode::Ball;
    }

    /// Primary button pressed at `pt`, with `scale` the raw random draw for
    /// the radius of a disc to be placed. A press while the button is already
    /// held changes nothing. Otherwise, in wall mode the press anchors the
    /// rectangle; in ball mode it anchors the disc and fixes its radius.
    pub fn left_press(&mut self, pt: Vec2, scale: u32)
        requires
            vec_ok(pt),
            input_wf(*old(self)),
        ensures
            input_wf(*final(self)),
            old(self).left_down ==> *final(self) == *old(self),
            !old(self).left_down && old(self).mode == PlaceMode::Wall ==> *final(self) == (
            InputState { left_down: true, rect_anchor: pt, ..*old(self) }),
            !old(self).left_down && old(self).mode == PlaceMode::Ball ==> *final(self) == (
            InputState {
                left_down: true,
                anchor: pt,
                radius: Rat { num: (5 * SCALE_STEPS + 15 * scale) as i128, den: SCALE_STEPS },
                ..*old(self)
            }),
    {
        if !self.left_down {
            self.left_down = true;
            if matches!(self.mode, PlaceMode::Wall) {
                self.rect_anchor = pt;
            } else {
                self.radius = spawn_radius(scale);
                self.anchor = pt;
            }
        }
    }

    /// Primary button pressed at `pt`, drawing the radius from the
    /// thread-local generator; the radius then lies in `[5, 20]`.
    pub fn left_press_random(&mut self, pt: Vec2)
        requires
            vec_ok(pt),
            input_wf(*old(self)),
        ensures
            input_wf(*final(self)),
            old(self).left_down ==> *final(self) == *old(self),
            !old(self).left_down && old(self).mode == PlaceMode::Wall ==> *final(self) == (
            InputState { left_down: true, rect_anchor: pt, ..*old(self) }),
            !old(self).left_down && old(self).mode == PlaceMode::Ball ==> final(self).left_down
                && final(self).anchor == pt && radius_in_range(final(self).radius)
                && final(self).mode == old(self).mode
                && final(self).right_down == old(self).right_down
                && final(self).rect_anchor == old(self).rect_anchor,
    {
        let scale: u32 = rand::random::<u32>();
        self.left_press(pt, scale);
    }

    /// Primary button released at `pt`. If the button was not held, nothing
    /// happens. In wall mode the wall spanned by the rectangle anchor and
    /// `pt` is spawned; in ball mode a disc is spawned at the press anchor,
    /// with velocity twice the drag vector and the radius drawn at press
    /// time.
    pub fn left_release(&mut self, pt: Vec2) -> (a: SpawnAction)
        requires
            vec_ok(pt),
            input_wf(*old(self)),
        ensures
            input_wf(*final(self)),
            !old(self).left_down ==> *final(self) == *old(self) && a is Nothing,
            old(self).left_down ==> *final(self) == (InputState {
                left_down: false,
                ..*old(self)
            }),
            old(self).left_down && old(self).mode == PlaceMode::Wall ==> (a matches
                SpawnAction::Wall(w) && wall_rect_post(
                old(self).rect_anchor.x,
                old(self).rect_anchor.y,
                pt.x,
                pt.y,
                w,
            )),
            old(self).left_down && old(self).mode == PlaceMode::Ball ==> (a matches
                SpawnAction::Ball(b) && b.pos == old(self).anchor
                && b.vel.x == 2 * (pt.x - old(self).anchor.x)
                && b.vel.y == 2 * (pt.y - old(self).anchor.y)
                && b.radius == old(self).radius),
    {
        if !self.left_down {
            return SpawnAction::Nothing;
        }
        self.left_down = false;
        if matches!(self.mode, PlaceMode::Wall) {
            let w = wall_from_corners(self.rect_anchor.x, self.rect_anchor.y, pt.x, pt.y);
            SpawnAction::Wall(w)
        } else {
            let vel = release_velocity(self.anchor, pt);
            SpawnAction::Ball(BallSpawn { pos: self.anchor, vel, radius: self.radius })
        }
    }

    /// Secondary button pressed at `pt`: always anchors a wall rectangle,
    /// whatever the mode. A press while the button is already held changes
    /// nothing.
    pub fn right_press(&mut self, pt: Vec2)
        requires
            vec_ok(pt),
            input_wf(*old(self)),
        ensures
            input_wf(*final(self)),
            old(self).right_down ==> *final(self) == *old(self),
            !old(self).right_down ==> *final(self) == (InputState {
                right_down: true,
                rect_anchor: pt,
                ..*old(self)
            }),
    {
        if !self.right_down {
            self.right_down = true;
            self.rect_anchor = pt;
        }
    }

    /// Secondary button released at `pt`: spawns the wall spanned by the
    /// rectangle anchor and `pt`, whatever the mode.
    pub fn right_release(&mut self, pt: Vec2) -> (a: SpawnAction)
        requires
            vec_ok(pt),
            input_wf(*old(self)),
        ensures
            input_wf(*final(self)),
            !old(self).right_down ==> *final(self) == *old(self) && a is Nothing,
            old(self).right_down ==> (*final(self) == (InputState {
                right_down: false,
                ..*old(self)
            }) && (a matches SpawnAction::Wall(w) && wall_rect_post(
                old(self).rect_anchor.x,
                old(self).rect_anchor.y,
                pt.x,
                pt.y,
                w,
            ))),
    {
        if !self.right_down {
            return SpawnAction::Nothing;
        }
        self.right_down = false;
        let w = wall_from_corners(self.rect_anchor.x, self.rect_anchor.y, pt.x, pt.y);
        SpawnAction::Wall(w)
    }
}

} // verus!
