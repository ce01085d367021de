//! Power-ups: the repeating spawn timer, the spawned entities, and the
//! effect each type has on the ball and the paddles. Spawning is
//! driven by injected random rolls so a match can be replayed exactly.

use vstd::prelude::*;
use crate::ball::Ball;
use crate::config::{GameConfig, MAX_DT_MS, MAX_TIME_MS, MULTIPLIER_ONE};
use crate::geom::{spec_boxes_overlap, Vec2i, MAX_EXTENT};
use vstd::arithmetic::div_mod::{
    lemma_fundamental_div_mod,
    lemma_fundamental_div_mod_converse,
    lemma_small_mod,
};

verus! {

/// What a power-up does to whoever picks it up.
#[derive(Clone, Copy, PartialEq, Eq, Structural, Debug)]
pub enum PowerUpType {
    /// Raises the ball speed by the configured delta.
    Speedup,
    /// Lowers the ball speed by the configured delta (never below the
    /// configured floor) and halves every paddle's speed multiplier.
    Slowdown,
}

/// A live power-up on the field.
#[derive(Clone, Copy, PartialEq, Eq, Structural, Debug)]
pub struct PowerUp {
    pub id: u64,
    pub pos: Vec2i,
    pub powerup_type: PowerUpType,
}

/// The repeating spawn timer: fires whenever the accumulated time
/// reaches the period, keeping the remainder.
#[derive(Clone, Copy, PartialEq, Eq, Structural, Debug)]
pub struct PowerUpTimer {
    pub period_ms: u64,
    pub acc_ms: u64,
}

/// The random draws one spawn consumes: a type roll out of 100 and a
/// position inside the spawn region.
#[derive(Clone, Copy, PartialEq, Eq, Structural, Debug)]
pub struct SpawnRolls {
    pub type_roll: u64,
    pub x: i64,
    pub y: i64,
}

impl SpawnRolls {
    /// Rolls as the random source hands them out: the type roll out of
    /// 100, the position uniformly inside the spawn region.
    pub open spec fn valid(self, cfg: GameConfig) -> bool {
        &&& self.type_roll < 100
        &&& -cfg.spawn_half_extent <= self.x < cfg.spawn_half_extent
        &&& -cfg.spawn_half_extent <= self.y < cfg.spawn_half_extent
    }
}

/// The upper half of the roll range spawns a Speedup, the lower half a
/// Slowdown.
pub open spec fn spec_roll_type(type_roll: u64) -> PowerUpType {
    if type_roll >= 50 {
        PowerUpType::Speedup
    } else {
        PowerUpType::Slowdown
    }
}

/// The power-up one spawn creates from its rolls.
pub open spec fn spec_make_powerup(id: u64, rolls: SpawnRolls) -> PowerUp {
    PowerUp {
        id,
        pos: Vec2i { x: rolls.x, y: rolls.y },
        powerup_type: spec_roll_type(rolls.type_roll),
    }
}

/// Build the power-up a spawn creates: type from the upper or lower
/// half of the roll range, position straight from the rolls.
pub fn make_powerup(id: u64, rolls: &SpawnRolls, cfg: &GameConfig) -> (p: PowerUp)
    requires
        cfg.valid(),
        rolls.valid(*cfg),
    ensures
        p == spec_make_powerup(id, *rolls),
        p.wf(*cfg),
{
    let powerup_type = if rolls.type_roll >= 50 {
        PowerUpType::Speedup
    } else {
        PowerUpType::Slowdown
    };
    PowerUp { id, pos: Vec2i { x: rolls.x, y: rolls.y }, powerup_type }
}

impl PowerUp {
    /// Spawned inside the spawn region, which the configuration keeps
    /// inside the coordinate bounds.
    pub open spec fn wf(self, cfg: GameConfig) -> bool {
        &&& -MAX_EXTENT <= self.pos.x <= MAX_EXTENT
        &&& -MAX_EXTENT <= self.pos.y <= MAX_EXTENT
    }
}

/// Whether the ball covers a power-up: AABB overlap of the ball's
/// bounding box (half-extent one radius) with the power-up's box.
pub open spec fn spec_hit(ball: Ball, p: PowerUp, cfg: GameConfig) -> bool {
    spec_boxes_overlap(
        ball.pos,
        cfg.ball_radius as int,
        cfg.ball_radius as int,
        p.pos,
        cfg.powerup_half_size as int,
        cfg.powerup_half_size as int,
    )
}

/// What picking up one power-up does to the ball speed: a Speedup
/// raises it by the configured delta up to the ceiling, a Slowdown
/// lowers it by the configured delta down to the configured floor.
pub open spec fn spec_apply_effect(speed: int, t: PowerUpType, cfg: GameConfig) -> int {
    match t {
        PowerUpType::Speedup => crate::ball::spec_speed_up(
            speed,
            cfg.powerup_speedup as int,
            cfg.ball_max_speed as int,
        ),
        PowerUpType::Slowdown => crate::ball::spec_slow_down(
            speed,
            cfg.powerup_slowdown as int,
            cfg.ball_min_speed as int,
        ),
    }
}

/// The ball speed after walking the live power-ups in order and
/// applying each one the ball covers.
pub open spec fn spec_speed_after(
    speed: int,
    b: Ball,
    ps: Seq<PowerUp>,
    cfg: GameConfig,
) -> int
    decreases ps.len(),
{
    if ps.len() == 0 {
        speed
    } else {
        let prev = spec_speed_after(speed, b, ps.drop_last(), cfg);
        if spec_hit(b, ps.last(), cfg) {
            spec_apply_effect(prev, ps.last().powerup_type, cfg)
        } else {
            prev
        }
    }
}

/// The power-ups that remain after the pass: the ones the ball does
/// not cover, in their original order.
pub open spec fn spec_survivors(b: Ball, ps: Seq<PowerUp>, cfg: GameConfig) -> Seq<PowerUp>
    decreases ps.len(),
{
    if ps.len() == 0 {
        Seq::empty()
    } else {
        let prev = spec_survivors(b, ps.drop_last(), cfg);
        if spec_hit(b, ps.last(), cfg) {
            prev
        } else {
            prev.push(ps.last())
        }
    }
}

/// The ball speed never leaves the configured band, so it is never
/// negative: whatever power-ups one pass applies, every Slowdown is
/// clamped to the configured floor and every Speedup to the ceiling.
pub proof fn lemma_speed_stays_in_band(speed: int, b: Ball, ps: Seq<PowerUp>, cfg: GameConfig)
    requires
        cfg.valid(),
        cfg.ball_min_speed <= speed <= cfg.ball_max_speed,
    ensures
        cfg.ball_min_speed <= spec_speed_after(speed, b, ps, cfg) <= cfg.ball_max_speed,
        spec_speed_after(speed, b, ps, cfg) > 0,
    decreases ps.len(),
{
    if ps.len() > 0 {
        lemma_speed_stays_in_band(speed, b, ps.drop_last(), cfg);
    }
}

/// Whether the pass picks up at least one Slowdown, which is what
/// drops every paddle's speed multiplier.
pub open spec fn spec_any_slowdown_hit(b: Ball, ps: Seq<PowerUp>, cfg: GameConfig) -> bool {
    exists|i: int|
        0 <= i < ps.len() && spec_hit(b, #[trigger] ps[i], cfg) && ps[i].powerup_type
            == PowerUpType::Slowdown
}

impl PowerUpTimer {
    pub open spec fn wf(self) -> bool {
        &&& 1 <= self.period_ms <= MAX_TIME_MS
        &&& self.acc_ms < self.period_ms
    }

    /// A fresh timer with nothing accumulated.
    pub fn new(period_ms: u64) -> (t: PowerUpTimer)
        requires
            1 <= period_ms <= MAX_TIME_MS,
        ensures
            t.wf(),
            t.period_ms == period_ms,
            t.acc_ms == 0,
    {
        PowerUpTimer { period_ms, acc_ms: 0 }
    }

    /// Whether accumulating `dt` more milliseconds reaches the period.
    pub open spec fn spec_fires(self, dt_ms: int) -> bool {
        self.acc_ms + dt_ms >= self.period_ms
    }

    /// Advance the repeating timer by one tick. It fires exactly when
    /// the accumulated time reaches the period, and keeps the overshoot
    /// modulo the period.
    pub fn tick(&mut self, dt_ms: u64) -> (fired: bool)
        requires
            old(self).wf(),
            dt_ms <= MAX_DT_MS,
        ensures
            final(self).wf(),
            final(self).period_ms == old(self).period_ms,
            fired == old(self).spec_fires(dt_ms as int),
            final(self).acc_ms == (old(self).acc_ms + dt_ms) % (old(self).period_ms as int),
    {
        let sum: u64 = self.acc_ms + dt_ms;
        if sum >= self.period_ms {
            self.acc_ms = sum % self.period_ms;
            true
        } else {
            proof {
                lemma_small_mod(sum as nat, self.period_ms as nat);
            }
            self.acc_ms = sum;
            false
        }
    }
}

/// Accumulator of a repeating timer with period `period`, starting
/// from `acc`, after `n` ticks of `dt` each.
pub open spec fn spec_acc_after(acc: int, period: int, dt: int, n: nat) -> int
    decreases n,
{
    if n == 0 {
        acc
    } else {
        (spec_acc_after(acc, period, dt, (n - 1) as nat) + dt) % period
    }
}

/// How many of the first `n` ticks of `dt` each fired, starting from
/// accumulator `acc`.
pub open spec fn spec_fire_count(acc: int, period: int, dt: int, n: nat) -> int
    decreases n,
{
    if n == 0 {
        0
    } else {
        spec_fire_count(acc, period, dt, (n - 1) as nat) + if spec_acc_after(
            acc,
            period,
            dt,
            (n - 1) as nat,
        ) + dt >= period {
            1int
        } else {
            0int
        }
    }
}

/// Spawning is periodic: stepping a fresh repeating timer `n` times
/// with a fixed `dt` no longer than the period leaves `(n * dt) % period`
/// accumulated and fires exactly `(n * dt) / period` times — one spawn
/// per interval boundary crossed, none in between.
pub proof fn lemma_spawn_periodic(period: int, dt: int, n: nat)
    requires
        1 <= dt <= period,
    ensures
        spec_acc_after(0, period, dt, n) == (n * dt) % period,
        spec_fire_count(0, period, dt, n) == (n * dt) / period,
    decreases n,
{
    if n == 0 {
        assert(n * dt == 0) by (nonlinear_arith)
            requires
                n == 0,
        ;
        lemma_small_mod(0nat, period as nat);
        vstd::arithmetic::div_mod::lemma_div_of0(period);
    } else {
        let m = (n - 1) as nat;
        lemma_spawn_periodic(period, dt, m);
        let a = m * dt;
        let b = n * dt;
        assert(b == a + dt) by (nonlinear_arith)
            requires
                a == m * dt,
                b == n * dt,
                n == m + 1,
        ;
        lemma_fundamental_div_mod(a, period);
        assert(a >= 0) by (nonlinear_arith)
            requires
                a == m * dt,
                m >= 0,
                dt >= 1,
        ;
        let q = a / period;
        let r = a % period;
        if r + dt >= period {
            assert((q + 1) * period == q * period + period) by (nonlinear_arith);
            lemma_fundamental_div_mod_converse(b, period, q + 1, r + dt - period);
            lemma_fundamental_div_mod_converse(r + dt, period, 1, r + dt - period);
        } else {
            lemma_fundamental_div_mod_converse(b, period, q, r + dt);
            lemma_small_mod((r + dt) as nat, period as nat);
        }
    }
}

} // verus!
