//! Paddles: per-side state, directional intent, and vertical movement
//! clamped to the track the screen leaves for a paddle.

use vstd::prelude::*;
use crate::config::{GameConfig, MAX_DT_MS, MS_PER_SECOND, MULTIPLIER_ONE};
use crate::geom::{clamp_i64, spec_clamp};

verus! {

/// The side of the field a paddle defends.
#[derive(Clone, Copy, PartialEq, Eq, Structural, Debug)]
pub enum Side {
    Left,
    Right,
}

/// Per-tick directional intent for one paddle, pre-resolved by the
/// input layer. An input layer that sees both keys down reports the
/// one pressed last; the core never receives both.
#[derive(Clone, Copy, PartialEq, Eq, Structural, Debug)]
pub enum MoveIntent {
    Up,
    Down,
    /// No key held this tick.
    Idle,
}

/// A paddle: fixed horizontal position, mutable vertical position, a
/// speed multiplier that power-ups perturb, and an informational score
/// mirror.
#[derive(Clone, Copy, PartialEq, Eq, Structural, Debug)]
pub struct Player {
    pub side: Side,
    /// Fixed horizontal centre of the paddle.
    pub x: i64,
    /// Vertical centre of the paddle, clamped to the track.
    pub y: i64,
    /// Speed multiplier in thousandths; `MULTIPLIER_ONE` is full speed.
    pub speed_milli: u64,
    pub score: u64,
}

/// The direction a move intent pushes the paddle: up is positive `y`.
pub open spec fn intent_sign(intent: MoveIntent) -> int {
    match intent {
        MoveIntent::Up => 1,
        MoveIntent::Down => -1,
        MoveIntent::Idle => 0,
    }
}

/// Distance a paddle covers in one tick: rate scaled by the
/// multiplier, integrated over `dt` and truncated to whole units.
pub open spec fn spec_paddle_delta(rate: int, mult: int, dt_ms: int) -> int {
    rate * mult * dt_ms / (MS_PER_SECOND * MULTIPLIER_ONE) as int
}

/// Where the horizontal centre of a paddle of `side` stands.
pub open spec fn spec_paddle_x(side: Side, cfg: GameConfig) -> int {
    match side {
        Side::Left => -(cfg.paddle_x_offset as int),
        Side::Right => cfg.paddle_x_offset as int,
    }
}

/// The paddle `Player::new` returns.
pub open spec fn spec_new_player(side: Side, cfg: GameConfig) -> Player {
    Player {
        side,
        x: spec_paddle_x(side, cfg) as i64,
        y: 0,
        speed_milli: MULTIPLIER_ONE,
        score: 0,
    }
}

/// Where one intent moves a paddle in one tick: the clamped target of
/// `y + sign * rate * multiplier * dt`.
pub open spec fn spec_move_y(p: Player, intent: MoveIntent, dt_ms: int, cfg: GameConfig) -> int {
    spec_clamp(
        p.y + intent_sign(intent) * spec_paddle_delta(
            cfg.paddle_rate as int,
            p.speed_milli as int,
            dt_ms,
        ),
        -cfg.spec_paddle_y_max(),
        cfg.spec_paddle_y_max(),
    )
}

/// The paddle after one tick of movement.
pub open spec fn spec_moved_player(p: Player, intent: MoveIntent, dt_ms: int, cfg: GameConfig) -> Player {
    Player { y: spec_move_y(p, intent, dt_ms, cfg) as i64, ..p }
}

impl Player {
    /// Well-formed against `cfg`: on its track, on its station, with a
    /// multiplier between a thousandth and one.
    pub open spec fn wf(self, cfg: GameConfig) -> bool {
        &&& -cfg.spec_paddle_y_max() <= self.y <= cfg.spec_paddle_y_max()
        &&& self.x == spec_paddle_x(self.side, cfg)
        &&& 1 <= self.speed_milli <= MULTIPLIER_ONE
    }

    /// A paddle entering the match: centred vertically, at its side's
    /// station, at full speed, with no score.
    pub fn new(side: Side, cfg: &GameConfig) -> (p: Player)
        requires
            cfg.valid(),
        ensures
            p == spec_new_player(side, *cfg),
            p.wf(*cfg),
            p.side == side,
            p.y == 0,
            p.speed_milli == MULTIPLIER_ONE,
            p.score == 0,
    {
        let x: i64 = match side {
            Side::Left => -cfg.paddle_x_offset,
            Side::Right => cfg.paddle_x_offset,
        };
        Player { side, x, y: 0, speed_milli: MULTIPLIER_ONE, score: 0 }
    }
}

/// Move one paddle by its intent:
/// `y' = clamp(y + sign * rate * multiplier * dt, y_min, y_max)`.
/// Whatever the intent, the multiplier and the tick length, the new
/// position stays within `[-paddle_y_max, paddle_y_max]`.
pub fn move_paddle(p: &mut Player, intent: MoveIntent, dt_ms: u64, cfg: &GameConfig)
    requires
        cfg.valid(),
        old(p).wf(*cfg),
        1 <= dt_ms <= MAX_DT_MS,
    ensures
        *final(p) == spec_moved_player(*old(p), intent, dt_ms as int, *cfg),
        final(p).wf(*cfg),
        final(p).y == spec_move_y(*old(p), intent, dt_ms as int, *cfg),
        -cfg.spec_paddle_y_max() <= final(p).y <= cfg.spec_paddle_y_max(),
        final(p).side == old(p).side,
        final(p).x == old(p).x,
        final(p).speed_milli == old(p).speed_milli,
        final(p).score == old(p).score,
{
    let rate: u64 = cfg.paddle_rate as u64;
    proof {
        assert(rate * p.speed_milli <= 1_000_000 * MULTIPLIER_ONE && rate * p.speed_milli * dt_ms
            <= 1_000_000 * MULTIPLIER_ONE * MAX_DT_MS) by (nonlinear_arith)
            requires
                rate <= 1_000_000,
                p.speed_milli <= MULTIPLIER_ONE,
                dt_ms <= MAX_DT_MS,
        ;
    }
    let scaled: u64 = rate * p.speed_milli * dt_ms;
    let delta: i64 = (scaled / (MS_PER_SECOND * MULTIPLIER_ONE)) as i64;
    let moved: i64 = match intent {
        MoveIntent::Up => p.y + delta,
        MoveIntent::Down => p.y - delta,
        MoveIntent::Idle => p.y,
    };
    let y_max: i64 = cfg.paddle_y_max();
    p.y = clamp_i64(moved, -y_max, y_max);
}

} // verus!
