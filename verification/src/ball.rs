//! The ball: position, diagonal unit direction, scalar speed and
//! radius, with per-tick integration. Collisions only ever negate a
//! direction component, so the direction is stored as the two axis
//! signs; the speed is a separate scalar that other systems adjust.

use vstd::prelude::*;
use crate::config::{GameConfig, MAX_DT_MS, MS_PER_SECOND, MAX_SPEED};
use crate::geom::{Vec2i, MAX_EXTENT};

verus! {

/// Farthest the ball can travel on one axis in a single tick:
/// `MAX_SPEED` units per second for `MAX_DT_MS` milliseconds.
pub const MAX_TRAVEL: i64 = 3_600_000_000_000;

/// The ball. `dir_x` and `dir_y` are the signs of a diagonal unit
/// direction; `speed` is the scalar the signs are applied to.
#[derive(Clone, Copy, PartialEq, Eq, Structural, Debug)]
pub struct Ball {
    pub pos: Vec2i,
    /// Horizontal direction sign, `1` (right) or `-1` (left).
    pub dir_x: i64,
    /// Vertical direction sign, `1` (up) or `-1` (down).
    pub dir_y: i64,
    /// Current scalar speed, in units per second.
    pub speed: i64,
    pub radius: i64,
}

/// Distance covered on each axis in one tick, truncated to whole
/// units.
pub open spec fn spec_travel(speed: int, dt_ms: int) -> int {
    speed * dt_ms / MS_PER_SECOND as int
}

/// A speed increase clamped to the ceiling `cap`.
pub open spec fn spec_speed_up(speed: int, inc: int, cap: int) -> int {
    if speed + inc <= cap {
        speed + inc
    } else {
        cap
    }
}

/// A speed decrease clamped to the floor `floor`.
pub open spec fn spec_slow_down(speed: int, dec: int, floor: int) -> int {
    if speed - dec >= floor {
        speed - dec
    } else {
        floor
    }
}

/// The ball `Ball::new` returns.
pub open spec fn spec_new_ball(dir_roll: u64, cfg: GameConfig) -> Ball {
    Ball {
        pos: Vec2i { x: 0, y: 0 },
        dir_x: if dir_roll > 50 {
            1i64
        } else {
            (-1) as i64
        },
        dir_y: 1,
        speed: cfg.ball_base_speed,
        radius: cfg.ball_radius,
    }
}

/// The ball after one tick of integration.
pub open spec fn spec_integrate(b: Ball, dt_ms: int) -> Ball {
    Ball {
        pos: Vec2i {
            x: (b.pos.x + b.dir_x * spec_travel(b.speed as int, dt_ms)) as i64,
            y: (b.pos.y + b.dir_y * spec_travel(b.speed as int, dt_ms)) as i64,
        },
        ..b
    }
}

impl Ball {
    /// Direction signs are signs, the speed sits between the
    /// configured floor and ceiling, and the radius is the configured
    /// one.
    pub open spec fn wf(self, cfg: GameConfig) -> bool {
        &&& self.dir_x == 1 || self.dir_x == -1
        &&& self.dir_y == 1 || self.dir_y == -1
        &&& cfg.ball_min_speed <= self.speed <= cfg.ball_max_speed
        &&& self.radius == cfg.ball_radius
    }

    /// Between ticks the ball's leading edge sits inside the field on
    /// both axes.
    pub open spec fn settled(self, cfg: GameConfig) -> bool {
        &&& -cfg.spec_ball_x_max() <= self.pos.x <= cfg.spec_ball_x_max()
        &&& -cfg.spec_ball_y_max() <= self.pos.y <= cfg.spec_ball_y_max()
    }

    /// Within a tick, after integration and before boundary
    /// resolution, the ball sits at most one tick's travel beyond the
    /// field.
    pub open spec fn in_flight(self) -> bool {
        &&& -(MAX_EXTENT + MAX_TRAVEL) <= self.pos.x <= MAX_EXTENT + MAX_TRAVEL
        &&& -(MAX_EXTENT + MAX_TRAVEL) <= self.pos.y <= MAX_EXTENT + MAX_TRAVEL
    }

    /// A ball entering a round: at the field centre, at base speed,
    /// climbing, sent toward the right side when `dir_roll` exceeds
    /// half the roll range and toward the left side otherwise.
    pub fn new(dir_roll: u64, cfg: &GameConfig) -> (b: Ball)
        requires
            cfg.valid(),
            dir_roll < 100,
        ensures
            b == spec_new_ball(dir_roll, *cfg),
            b.wf(*cfg),
            b.settled(*cfg),
    {
        let dir_x: i64 = if dir_roll > 50 { 1 } else { -1 };
        Ball {
            pos: Vec2i { x: 0, y: 0 },
            dir_x,
            dir_y: 1,
            speed: cfg.ball_base_speed,
            radius: cfg.ball_radius,
        }
    }
}

/// Advance the ball one tick:
/// `position' = position + direction * speed * dt`. Direction, speed
/// and radius are left untouched; the speed is only ever changed by
/// collision, power-up and round-end resolution.
pub fn integrate(b: &mut Ball, dt_ms: u64, cfg: &GameConfig)
    requires
        cfg.valid(),
        old(b).wf(*cfg),
        old(b).settled(*cfg),
        1 <= dt_ms <= MAX_DT_MS,
    ensures
        *final(b) == spec_integrate(*old(b), dt_ms as int),
        final(b).wf(*cfg),
        final(b).in_flight(),
        final(b).pos.x == old(b).pos.x + old(b).dir_x * spec_travel(
            old(b).speed as int,
            dt_ms as int,
        ),
        final(b).pos.y == old(b).pos.y + old(b).dir_y * spec_travel(
            old(b).speed as int,
            dt_ms as int,
        ),
        final(b).dir_x == old(b).dir_x,
        final(b).dir_y == old(b).dir_y,
        final(b).speed == old(b).speed,
        final(b).radius == old(b).radius,
{
    proof {
        assert((b.speed as u64) * dt_ms <= (MAX_SPEED as u64) * MAX_DT_MS) by (nonlinear_arith)
            requires
                0 <= b.speed <= MAX_SPEED,
                dt_ms <= MAX_DT_MS,
        ;
    }
    let travel: i64 = ((b.speed as u64) * dt_ms / MS_PER_SECOND) as i64;
    let x: i64 = if b.dir_x == 1 {
        b.pos.x + travel
    } else {
        b.pos.x - travel
    };
    let y: i64 = if b.dir_y == 1 {
        b.pos.y + travel
    } else {
        b.pos.y - travel
    };
    b.pos = Vec2i { x, y };
}

} // verus!
