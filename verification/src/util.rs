//! Angle and direction-vector helpers.
//!
//! The crate fixes one angle convention: an angle is measured clockwise and
//! held as a whole number of 15-degree steps, where step 0 points straight
//! down the slope (towards increasing y on the screen), step 6 (90 degrees)
//! points right, step 12 (180 degrees) points up the slope, and step 18
//! (270 degrees) points left. A direction vector is a unit vector scaled by
//! 1000, so its components are exact integers (milliunits).

use vstd::prelude::*;

verus! {

/// Number of 15-degree steps in a full turn.
pub const STEPS_PER_TURN: i64 = 24;

/// Fixed-point scale: one world unit is 1000 milliunits, and a unit vector
/// has length (about) 1000 milliunits.
pub const SCALE: i64 = 1000;

/// Bound on the components of a vector handed to `angle_from_vec2`, so that
/// the dot products it computes fit in an `i64`.
pub const VEC_LIMIT: i64 = 1_000_000_000;

/// An angle: `steps` times 15 degrees, clockwise, step 0 pointing down the
/// slope. Any step count is allowed; whole turns are equivalent.
#[derive(Clone, Copy, PartialEq, Eq, Structural, Debug)]
pub struct Angle {
    pub steps: i64,
}

/// A two-dimensional vector or position, in milliunits.
#[derive(Clone, Copy, PartialEq, Eq, Structural, Debug)]
pub struct Vec2 {
    pub x: i64,
    pub y: i64,
}

/// The step count reduced to one turn: always in `0..24`.
pub open spec fn norm_steps(steps: int) -> int {
    steps % (STEPS_PER_TURN as int)
}

/// The direction vector of a reduced step count, scaled by 1000: the x
/// component is 1000 sin(15 degrees * step) rounded, the y component is
/// 1000 cos(15 degrees * step) rounded.
pub open spec fn spec_unit_vec(step: int) -> Vec2 {
    if step == 0 {
        Vec2 { x: 0, y: 1000 }
    } else if step == 1 {
        Vec2 { x: 259, y: 966 }
    } else if step == 2 {
        Vec2 { x: 500, y: 866 }
    } else if step == 3 {
        Vec2 { x: 707, y: 707 }
    } else if step == 4 {
        Vec2 { x: 866, y: 500 }
    } else if step == 5 {
        Vec2 { x: 966, y: 259 }
    } else if step == 6 {
        Vec2 { x: 1000, y: 0 }
    } else if step == 7 {
        Vec2 { x: 966, y: -259i64 }
    } else if step == 8 {
        Vec2 { x: 866, y: -500i64 }
    } else if step == 9 {
        Vec2 { x: 707, y: -707i64 }
    } else if step == 10 {
        Vec2 { x: 500, y: -866i64 }
    } else if step == 11 {
        Vec2 { x: 259, y: -966i64 }
    } else if step == 12 {
        Vec2 { x: 0, y: -1000i64 }
    } else if step == 13 {
        Vec2 { x: -259i64, y: -966i64 }
    } else if step == 14 {
        Vec2 { x: -500i64, y: -866i64 }
    } else if step == 15 {
        Vec2 { x: -707i64, y: -707i64 }
    } else if step == 16 {
        Vec2 { x: -866i64, y: -500i64 }
    } else if step == 17 {
        Vec2 { x: -966i64, y: -259i64 }
    } else if step == 18 {
        Vec2 { x: -1000i64, y: 0 }
    } else if step == 19 {
        Vec2 { x: -966i64, y: 259 }
    } else if step == 20 {
        Vec2 { x: -866i64, y: 500 }
    } else if step == 21 {
        Vec2 { x: -707i64, y: 707 }
    } else if step == 22 {
        Vec2 { x: -500i64, y: 866 }
    } else if step == 23 {
        Vec2 { x: -259i64, y: 966 }
    } else {
        Vec2 { x: 0, y: 0 }
    }
}

/// What `vec2_from_angle` returns: the unit vector of the angle reduced to
/// one turn.
pub open spec fn spec_vec2_from_angle(angle: Angle) -> Vec2 {
    spec_unit_vec(norm_steps(angle.steps as int))
}

pub open spec fn spec_dot(a: Vec2, b: Vec2) -> int {
    a.x * b.x + a.y * b.y
}

/// The step in `0..n` whose unit vector has the greatest dot product with
/// `v`; the smallest such step on a tie.
pub open spec fn spec_best_step(v: Vec2, n: int) -> int
    decreases n,
{
    if n <= 1 {
        0
    } else {
        let b = spec_best_step(v, n - 1);
        if spec_dot(spec_unit_vec(n - 1), v) > spec_dot(spec_unit_vec(b), v) {
            n - 1
        } else {
            b
        }
    }
}

/// What `angle_from_vec2` returns: the reduced step whose direction vector
/// points nearest to `v`.
pub open spec fn spec_angle_from_vec2(v: Vec2) -> Angle {
    Angle { steps: spec_best_step(v, STEPS_PER_TURN as int) as i64 }
}

/// Reduce a step count to `0..24`.
fn normalize_steps(steps: i64) -> (r: i64)
    ensures
        r == norm_steps(steps as int),
{
    let m: i64 = steps % 24;
    if m < 0 {
        m + 24
    } else {
        m
    }
}

/// The table of the 24 direction vectors.
fn unit_vec(step: i64) -> (v: Vec2)
    requires
        0 <= step < 24,
    ensures
        v == spec_unit_vec(step as int),
{
    if step == 0 {
        Vec2 { x: 0, y: 1000 }
    } else if step == 1 {
        Vec2 { x: 259, y: 966 }
    } else if step == 2 {
        Vec2 { x: 500, y: 866 }
    } else if step == 3 {
        Vec2 { x: 707, y: 707 }
    } else if step == 4 {
        Vec2 { x: 866, y: 500 }
    } else if step == 5 {
        Vec2 { x: 966, y: 259 }
    } else if step == 6 {
        Vec2 { x: 1000, y: 0 }
    } else if step == 7 {
        Vec2 { x: 966, y: -259 }
    } else if step == 8 {
        Vec2 { x: 866, y: -500 }
    } else if step == 9 {
        Vec2 { x: 707, y: -707 }
    } else if step == 10 {
        Vec2 { x: 500, y: -866 }
    } else if step == 11 {
        Vec2 { x: 259, y: -966 }
    } else if step == 12 {
        Vec2 { x: 0, y: -1000 }
    } else if step == 13 {
        Vec2 { x: -259, y: -966 }
    } else if step == 14 {
        Vec2 { x: -500, y: -866 }
    } else if step == 15 {
        Vec2 { x: -707, y: -707 }
    } else if step == 16 {
        Vec2 { x: -866, y: -500 }
    } else if step == 17 {
        Vec2 { x: -966, y: -259 }
    } else if step == 18 {
        Vec2 { x: -1000, y: 0 }
    } else if step == 19 {
        Vec2 { x: -966, y: 259 }
    } else if step == 20 {
        Vec2 { x: -866, y: 500 }
    } else if step == 21 {
        Vec2 { x: -707, y: 707 }
    } else if step == 22 {
        Vec2 { x: -500, y: 866 }
    } else {
        Vec2 { x: -259, y: 966 }
    }
}

/// The direction vector of the given angle, scaled by 1000.
pub fn vec2_from_angle(angle: Angle) -> (v: Vec2)
    ensures
        v == spec_vec2_from_angle(angle),
        -1000 <= v.x <= 1000,
        -1000 <= v.y <= 1000,
{
    let s: i64 = normalize_steps(angle.steps);
    unit_vec(s)
}

fn dot(a: Vec2, b: Vec2) -> (r: i64)
    requires
        -1000 <= a.x <= 1000,
        -1000 <= a.y <= 1000,
        -VEC_LIMIT <= b.x <= VEC_LIMIT,
        -VEC_LIMIT <= b.y <= VEC_LIMIT,
    ensures
        r == spec_dot(a, b),
{
    proof {
        assert(-1000 * VEC_LIMIT <= a.x * b.x <= 1000 * VEC_LIMIT) by (nonlinear_arith)
            requires
                -1000 <= a.x <= 1000,
                -VEC_LIMIT <= b.x <= VEC_LIMIT,
        ;
        assert(-1000 * VEC_LIMIT <= a.y * b.y <= 1000 * VEC_LIMIT) by (nonlinear_arith)
            requires
                -1000 <= a.y <= 1000,
                -VEC_LIMIT <= b.y <= VEC_LIMIT,
        ;
    }
    a.x * b.x + a.y * b.y
}

/// The angle whose direction vector points nearest to `v` (by greatest dot
/// product; the smallest step on a tie). Inverse of `vec2_from_angle` up to
/// whole turns.
pub fn angle_from_vec2(v: Vec2) -> (a: Angle)
    requires
        -VEC_LIMIT <= v.x <= VEC_LIMIT,
        -VEC_LIMIT <= v.y <= VEC_LIMIT,
    ensures
        a == spec_angle_from_vec2(v),
        0 <= a.steps < 24,
{
    let mut best: i64 = 0;
    let mut best_dot: i64 = dot(unit_vec(0), v);
    let mut s: i64 = 1;
    while s < 24
        invariant
            1 <= s <= 24,
            0 <= best < s,
            best == spec_best_step(v, s as int),
            best_dot == spec_dot(spec_unit_vec(best as int), v),
            -VEC_LIMIT <= v.x <= VEC_LIMIT,
            -VEC_LIMIT <= v.y <= VEC_LIMIT,
        decreases 24 - s,
    {
        let d: i64 = dot(unit_vec(s), v);
        if d > best_dot {
            best = s;
            best_dot = d;
        }
        s = s + 1;
    }
    Angle { steps: best }
}

/// Bound on well-formed world coordinates, in milliunits. Large enough for
/// any session, small enough that the fixed-point arithmetic cannot overflow.
pub const COORD_LIMIT: i64 = 2_000_000_000_000;

/// An axis-aligned rectangle: corner at `(x, y)`, extending `w` milliunits
/// rightwards and `h` milliunits downwards.
#[derive(Clone, Copy, PartialEq, Eq, Structural, Debug)]
pub struct Rect {
    pub x: i64,
    pub y: i64,
    pub w: i64,
    pub h: i64,
}

/// Whether two rectangles overlap, boundaries included.
pub open spec fn spec_overlaps(a: Rect, b: Rect) -> bool {
    &&& a.x <= b.x + b.w
    &&& b.x <= a.x + a.w
    &&& a.y <= b.y + b.h
    &&& b.y <= a.y + a.h
}

impl Rect {
    pub open spec fn bounded(&self) -> bool {
        &&& -COORD_LIMIT <= self.x <= COORD_LIMIT
        &&& -COORD_LIMIT <= self.y <= COORD_LIMIT
        &&& -COORD_LIMIT <= self.w <= COORD_LIMIT
        &&& -COORD_LIMIT <= self.h <= COORD_LIMIT
    }

    /// Whether two rectangles overlap, boundaries included.
    pub fn overlaps(&self, other: &Rect) -> (r: bool)
        requires
            self.bounded(),
            other.bounded(),
        ensures
            r == spec_overlaps(*self, *other),
    {
        self.x <= other.x + other.w && other.x <= self.x + self.w && self.y <= other.y + other.h
            && other.y <= self.y + self.h
    }
}

/// Round trip: converting any angle to its direction vector and back yields
/// the same angle, up to whole turns.
#[verifier::rlimit(100)]
pub proof fn lemma_angle_round_trip(a: Angle)
    ensures
        spec_angle_from_vec2(spec_vec2_from_angle(a)).steps == norm_steps(a.steps as int),
{
    let n = norm_steps(a.steps as int);
    assert(0 <= n < 24);
    assert(spec_best_step(spec_unit_vec(0), 24) == 0) by {
        reveal_with_fuel(spec_best_step, 25);
    }
    assert(spec_best_step(spec_unit_vec(1), 24) == 1) by {
        reveal_with_fuel(spec_best_step, 25);
    }
    assert(spec_best_step(spec_unit_vec(2), 24) == 2) by {
        reveal_with_fuel(spec_best_step, 25);
    }
    assert(spec_best_step(spec_unit_vec(3), 24) == 3) by {
        reveal_with_fuel(spec_best_step, 25);
    }
    assert(spec_best_step(spec_unit_vec(4), 24) == 4) by {
        reveal_with_fuel(spec_best_step, 25);
    }
    assert(spec_best_step(spec_unit_vec(5), 24) == 5) by {
        reveal_with_fuel(spec_best_step, 25);
    }
    assert(spec_best_step(spec_unit_vec(6), 24) == 6) by {
        reveal_with_fuel(spec_best_step, 25);
    }
    assert(spec_best_step(spec_unit_vec(7), 24) == 7) by {
        reveal_with_fuel(spec_best_step, 25);
    }
    assert(spec_best_step(spec_unit_vec(8), 24) == 8) by {
        reveal_with_fuel(spec_best_step, 25);
    }
    assert(spec_best_step(spec_unit_vec(9), 24) == 9) by {
        reveal_with_fuel(spec_best_step, 25);
    }
    assert(spec_best_step(spec_unit_vec(10), 24) == 10) by {
        reveal_with_fuel(spec_best_step, 25);
    }
    assert(spec_best_step(spec_unit_vec(11), 24) == 11) by {
        reveal_with_fuel(spec_best_step, 25);
    }
    assert(spec_best_step(spec_unit_vec(12), 24) == 12) by {
        reveal_with_fuel(spec_best_step, 25);
    }
    assert(spec_best_step(spec_unit_vec(13), 24) == 13) by {
        reveal_with_fuel(spec_best_step, 25);
    }
    assert(spec_best_step(spec_unit_vec(14), 24) == 14) by {
        reveal_with_fuel(spec_best_step, 25);
    }
    assert(spec_best_step(spec_unit_vec(15), 24) == 15) by {
        reveal_with_fuel(spec_best_step, 25);
    }
    assert(spec_best_step(spec_unit_vec(16), 24) == 16) by {
        reveal_with_fuel(spec_best_step, 25);
    }
    assert(spec_best_step(spec_unit_vec(17), 24) == 17) by {
        reveal_with_fuel(spec_best_step, 25);
    }
    assert(spec_best_step(spec_unit_vec(18), 24) == 18) by {
        reveal_with_fuel(spec_best_step, 25);
    }
    assert(spec_best_step(spec_unit_vec(19), 24) == 19) by {
        reveal_with_fuel(spec_best_step, 25);
    }
    assert(spec_best_step(spec_unit_vec(20), 24) == 20) by {
        reveal_with_fuel(spec_best_step, 25);
    }
    assert(spec_best_step(spec_unit_vec(21), 24) == 21) by {
        reveal_with_fuel(spec_best_step, 25);
    }
    assert(spec_best_step(spec_unit_vec(22), 24) == 22) by {
        reveal_with_fuel(spec_best_step, 25);
    }
    assert(spec_best_step(spec_unit_vec(23), 24) == 23) by {
        reveal_with_fuel(spec_best_step, 25);
    }
    assert(spec_best_step(spec_unit_vec(n), 24) == n);
}

/// A direction vector's components are at most one scaled unit.
pub proof fn lemma_unit_vec_bounds(step: int)
    ensures
        -1000 <= spec_unit_vec(step).x <= 1000,
        -1000 <= spec_unit_vec(step).y <= 1000,
{
}

} // verus!
