//! Integer screen-space geometry: positions, clamping, and the
//! axis-aligned bounding-box (AABB) overlap test with side
//! classification used by collision resolution.

use vstd::prelude::*;

verus! {

/// Coordinates are bounded so that every sum and difference that the
/// simulation forms stays well inside `i64`.
pub const MAX_COORD: i64 = 10_000_000_000_000;

/// Half-extents of collision boxes are bounded by the largest screen
/// dimension the configuration admits.
pub const MAX_EXTENT: i64 = 1_000_000;

/// A position or a displacement on the play field, in integer units.
/// The origin sits at the field centre, `x` grows to the right and
/// `y` grows upward.
#[derive(Clone, Copy, PartialEq, Eq, Structural, Debug)]
pub struct Vec2i {
    pub x: i64,
    pub y: i64,
}

/// The side of the second box that the first box penetrated, chosen by
/// the axis of least overlap. `Left` means the first box sits to the
/// left of the second, and so on; `Inside` means the centres coincide
/// on the deciding axis, so no side can be named.
#[derive(Clone, Copy, PartialEq, Eq, Structural, Debug)]
pub enum Collision {
    Left,
    Right,
    Top,
    Bottom,
    Inside,
}

pub open spec fn spec_clamp(v: int, lo: int, hi: int) -> int {
    if v < lo {
        lo
    } else if v > hi {
        hi
    } else {
        v
    }
}

/// Restrict `v` to the closed interval `[lo, hi]`.
pub fn clamp_i64(v: i64, lo: i64, hi: i64) -> (r: i64)
    requires
        lo <= hi,
    ensures
        r == spec_clamp(v as int, lo as int, hi as int),
        lo <= r <= hi,
{
    if v < lo {
        lo
    } else if v > hi {
        hi
    } else {
        v
    }
}

/// Two boxes, given by centre and half-extents, overlap when they
/// intersect with positive area on both axes (touching edges do not
/// collide).
pub open spec fn spec_boxes_overlap(
    a: Vec2i,
    a_hw: int,
    a_hh: int,
    b: Vec2i,
    b_hw: int,
    b_hh: int,
) -> bool {
    &&& vstd::math::abs(a.x - b.x) < a_hw + b_hw
    &&& vstd::math::abs(a.y - b.y) < a_hh + b_hh
}

/// Side classification by the minimum-translation axis: the axis with
/// the smaller penetration depth decides, ties go to the horizontal
/// axis, and on the deciding axis the relative order of the two
/// centres names the side.
pub open spec fn spec_collide(
    a: Vec2i,
    a_hw: int,
    a_hh: int,
    b: Vec2i,
    b_hw: int,
    b_hh: int,
) -> Option<Collision> {
    if !spec_boxes_overlap(a, a_hw, a_hh, b, b_hw, b_hh) {
        None
    } else {
        let x_depth = a_hw + b_hw - vstd::math::abs(a.x - b.x);
        let y_depth = a_hh + b_hh - vstd::math::abs(a.y - b.y);
        if x_depth <= y_depth {
            if a.x < b.x {
                Some(Collision::Left)
            } else if a.x > b.x {
                Some(Collision::Right)
            } else {
                Some(Collision::Inside)
            }
        } else {
            if a.y < b.y {
                Some(Collision::Bottom)
            } else if a.y > b.y {
                Some(Collision::Top)
            } else {
                Some(Collision::Inside)
            }
        }
    }
}

/// AABB test between the box centred at `a` with half-extents
/// `(a_hw, a_hh)` and the box centred at `b` with half-extents
/// `(b_hw, b_hh)`. Returns the side of `b` that `a` penetrated, or
/// `None` when the boxes do not overlap.
pub fn collide(a: Vec2i, a_hw: i64, a_hh: i64, b: Vec2i, b_hw: i64, b_hh: i64) -> (r: Option<
    Collision,
>)
    requires
        0 <= a_hw <= MAX_EXTENT,
        0 <= a_hh <= MAX_EXTENT,
        0 <= b_hw <= MAX_EXTENT,
        0 <= b_hh <= MAX_EXTENT,
        -MAX_COORD <= a.x <= MAX_COORD,
        -MAX_COORD <= a.y <= MAX_COORD,
        -MAX_COORD <= b.x <= MAX_COORD,
        -MAX_COORD <= b.y <= MAX_COORD,
    ensures
        r == spec_collide(a, a_hw as int, a_hh as int, b, b_hw as int, b_hh as int),
        r is Some <==> spec_boxes_overlap(a, a_hw as int, a_hh as int, b, b_hw as int, b_hh as int),
{
    let dx: i64 = if a.x >= b.x {
        a.x - b.x
    } else {
        b.x - a.x
    };
    let dy: i64 = if a.y >= b.y {
        a.y - b.y
    } else {
        b.y - a.y
    };
    if dx >= a_hw + b_hw || dy >= a_hh + b_hh {
        return None;
    }
    let x_depth: i64 = a_hw + b_hw - dx;
    let y_depth: i64 = a_hh + b_hh - dy;
    if x_depth <= y_depth {
        if a.x < b.x {
            Some(Collision::Left)
        } else if a.x > b.x {
            Some(Collision::Right)
        } else {
            Some(Collision::Inside)
        }
    } else {
        if a.y < b.y {
            Some(Collision::Bottom)
        } else if a.y > b.y {
            Some(Collision::Top)
        } else {
            Some(Collision::Inside)
        }
    }
}

} // verus!
