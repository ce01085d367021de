//! Match configuration: screen geometry, paddle and ball kinematics,
//! power-up timing, and the win rule. A configuration is validated once,
//! before a match starts; every simulation step then relies on the
//! bounds it establishes.

use vstd::prelude::*;
use crate::geom::MAX_EXTENT;

verus! {

/// Upper bound on every speed the configuration admits, in field units
/// per second. Together with `MAX_DT_MS` it keeps one tick's
/// displacement far inside `i64`.
pub const MAX_SPEED: i64 = 1_000_000_000;

/// Upper bound on scores and round counts the configuration admits.
pub const MAX_COUNT: u64 = 1_000_000_000;

/// Upper bound on the timer periods the configuration admits
/// (one day, in milliseconds).
pub const MAX_TIME_MS: u64 = 86_400_000;

/// Upper bound on a single tick's time delta (one hour, in
/// milliseconds).
pub const MAX_DT_MS: u64 = 3_600_000;

/// Milliseconds in a second; speeds are stated per second, ticks in
/// milliseconds.
pub const MS_PER_SECOND: u64 = 1000;

/// Fixed-point scale of the paddle speed multiplier: a multiplier of
/// `MULTIPLIER_ONE` means full base speed.
pub const MULTIPLIER_ONE: u64 = 1000;

/// Win rule of a match. Only `winning_score` ends a match; the round
/// counter is informational.
#[derive(Clone, Copy, PartialEq, Eq, Structural, Debug)]
pub struct GameRules {
    pub max_rounds: u64,
    pub winning_score: u64,
}

/// The reason a configuration was rejected before a match could start.
#[derive(Clone, Copy, PartialEq, Eq, Structural, Debug)]
pub enum ConfigError {
    /// A screen dimension is zero, negative or beyond `MAX_EXTENT`.
    ScreenDimensions,
    /// Paddle half-extents, offset or move rate do not fit the screen.
    PaddleGeometry,
    /// The ball radius is zero, negative or larger than the screen.
    BallGeometry,
    /// Ball speeds are not ordered `1 <= min <= base <= max <= MAX_SPEED`,
    /// or an increment is out of `(0, MAX_EXTENT]`.
    SpeedRange,
    /// Power-up deltas, size, spawn region or slow multiplier are out of
    /// range.
    PowerUpSettings,
    /// The power-up interval is zero or a timer exceeds `MAX_TIME_MS`.
    TimerSettings,
    /// The winning score is zero or beyond `MAX_COUNT`.
    WinRule,
}

/// Immutable configuration of a match. Distances are field units with
/// the origin at the screen centre; times are milliseconds; speeds are
/// units per second.
#[derive(Clone, Copy, PartialEq, Eq, Structural, Debug)]
pub struct GameConfig {
    pub screen_width: i64,
    pub screen_height: i64,
    pub paddle_half_width: i64,
    pub paddle_half_height: i64,
    /// Horizontal distance of each paddle centre from the field centre.
    pub paddle_x_offset: i64,
    /// Paddle base move rate, in units per second.
    pub paddle_rate: i64,
    pub ball_radius: i64,
    pub ball_base_speed: i64,
    /// Floor kept under the ball speed by every slowdown effect.
    pub ball_min_speed: i64,
    /// Ceiling kept over the ball speed by every speed increase.
    pub ball_max_speed: i64,
    /// Speed gained by each paddle reflection.
    pub speed_increment: i64,
    /// Padding added to the ball diameter for the paddle collision box.
    pub collision_margin: i64,
    /// Ball speed gained on a Speedup pickup.
    pub powerup_speedup: i64,
    /// Ball speed lost on a Slowdown pickup.
    pub powerup_slowdown: i64,
    /// Paddle speed multiplier set by a Slowdown pickup, in thousandths.
    pub slow_multiplier_milli: u64,
    /// Period of the repeating power-up spawn timer.
    pub powerup_interval_ms: u64,
    /// Inert pause after a goal before the ball moves again.
    pub goal_cooldown_ms: u64,
    /// Power-ups spawn with both coordinates in
    /// `[-spawn_half_extent, spawn_half_extent)`.
    pub spawn_half_extent: i64,
    /// Half side length of a power-up's collision box.
    pub powerup_half_size: i64,
    pub rules: GameRules,
}

impl GameConfig {
    pub open spec fn screen_ok(self) -> bool {
        &&& 0 < self.screen_width <= MAX_EXTENT
        &&& 0 < self.screen_height <= MAX_EXTENT
    }

    pub open spec fn paddle_ok(self) -> bool {
        &&& 0 < self.paddle_half_width <= MAX_EXTENT
        &&& 0 < self.paddle_half_height <= MAX_EXTENT
        &&& 2 * self.paddle_half_height <= self.screen_height
        &&& 0 <= self.paddle_x_offset <= self.screen_width / 2
        &&& 0 < self.paddle_rate <= MAX_EXTENT
    }

    pub open spec fn ball_ok(self) -> bool {
        &&& 0 < self.ball_radius
        &&& self.ball_radius <= self.screen_width
        &&& self.ball_radius <= self.screen_height
    }

    pub open spec fn speeds_ok(self) -> bool {
        &&& 1 <= self.ball_min_speed <= self.ball_base_speed
        &&& self.ball_base_speed <= self.ball_max_speed <= MAX_SPEED
        &&& 0 < self.speed_increment <= MAX_EXTENT
        &&& 0 <= self.collision_margin <= MAX_EXTENT
    }

    pub open spec fn powerups_ok(self) -> bool {
        &&& 0 < self.powerup_speedup <= MAX_EXTENT
        &&& 0 < self.powerup_slowdown <= MAX_EXTENT
        &&& 1 <= self.slow_multiplier_milli <= MULTIPLIER_ONE
        &&& 1 <= self.spawn_half_extent <= MAX_EXTENT
        &&& 1 <= self.powerup_half_size <= MAX_EXTENT
    }

    pub open spec fn timers_ok(self) -> bool {
        &&& 1 <= self.powerup_interval_ms <= MAX_TIME_MS
        &&& self.goal_cooldown_ms <= MAX_TIME_MS
    }

    pub open spec fn rules_ok(self) -> bool {
        &&& 1 <= self.rules.winning_score <= MAX_COUNT
        &&& self.rules.max_rounds <= MAX_COUNT
    }

    /// A configuration a match may start from.
    pub open spec fn valid(self) -> bool {
        &&& self.screen_ok()
        &&& self.paddle_ok()
        &&& self.ball_ok()
        &&& self.speeds_ok()
        &&& self.powerups_ok()
        &&& self.timers_ok()
        &&& self.rules_ok()
    }

    /// The verdict `validate` returns: the first group of settings that
    /// breaks its bounds, in a fixed order of checks.
    pub open spec fn spec_validate(self) -> Result<(), ConfigError> {
        if !self.screen_ok() {
            Err(ConfigError::ScreenDimensions)
        } else if !self.paddle_ok() {
            Err(ConfigError::PaddleGeometry)
        } else if !self.ball_ok() {
            Err(ConfigError::BallGeometry)
        } else if !self.speeds_ok() {
            Err(ConfigError::SpeedRange)
        } else if !self.powerups_ok() {
            Err(ConfigError::PowerUpSettings)
        } else if !self.timers_ok() {
            Err(ConfigError::TimerSettings)
        } else if !self.rules_ok() {
            Err(ConfigError::WinRule)
        } else {
            Ok(())
        }
    }

    /// Reject a configuration that could not support a match: zero or
    /// negative dimensions, an empty paddle track, unordered speeds, a
    /// zero winning score, and every bound the simulation's arithmetic
    /// relies on.
    pub fn validate(&self) -> (r: Result<(), ConfigError>)
        ensures
            r == self.spec_validate(),
            r is Ok <==> self.valid(),
    {
        if !(0 < self.screen_width && self.screen_width <= MAX_EXTENT && 0 < self.screen_height
            && self.screen_height <= MAX_EXTENT) {
            Err(ConfigError::ScreenDimensions)
        } else if !(0 < self.paddle_half_width && self.paddle_half_width <= MAX_EXTENT
            && 0 < self.paddle_half_height && self.paddle_half_height <= MAX_EXTENT
            && 2 * self.paddle_half_height <= self.screen_height
            && 0 <= self.paddle_x_offset && self.paddle_x_offset <= self.screen_width / 2
            && 0 < self.paddle_rate && self.paddle_rate <= MAX_EXTENT) {
            Err(ConfigError::PaddleGeometry)
        } else if !(0 < self.ball_radius && self.ball_radius <= self.screen_width
            && self.ball_radius <= self.screen_height) {
            Err(ConfigError::BallGeometry)
        } else if !(1 <= self.ball_min_speed && self.ball_min_speed <= self.ball_base_speed
            && self.ball_base_speed <= self.ball_max_speed && self.ball_max_speed <= MAX_SPEED
            && 0 < self.speed_increment && self.speed_increment <= MAX_EXTENT
            && 0 <= self.collision_margin && self.collision_margin <= MAX_EXTENT) {
            Err(ConfigError::SpeedRange)
        } else if !(0 < self.powerup_speedup && self.powerup_speedup <= MAX_EXTENT
            && 0 < self.powerup_slowdown && self.powerup_slowdown <= MAX_EXTENT
            && 1 <= self.slow_multiplier_milli && self.slow_multiplier_milli <= MULTIPLIER_ONE
            && 1 <= self.spawn_half_extent && self.spawn_half_extent <= MAX_EXTENT
            && 1 <= self.powerup_half_size && self.powerup_half_size <= MAX_EXTENT) {
            Err(ConfigError::PowerUpSettings)
        } else if !(1 <= self.powerup_interval_ms && self.powerup_interval_ms <= MAX_TIME_MS
            && self.goal_cooldown_ms <= MAX_TIME_MS) {
            Err(ConfigError::TimerSettings)
        } else if !(1 <= self.rules.winning_score && self.rules.winning_score <= MAX_COUNT
            && self.rules.max_rounds <= MAX_COUNT) {
            Err(ConfigError::WinRule)
        } else {
            Ok(())
        }
    }

    /// The track a paddle centre may travel:
    /// `[-(h/2 - half_height), h/2 - half_height]`.
    pub open spec fn spec_paddle_y_max(self) -> int {
        self.screen_height / 2 - self.paddle_half_height
    }

    pub fn paddle_y_max(&self) -> (r: i64)
        requires
            self.valid(),
        ensures
            r == self.spec_paddle_y_max(),
            r >= 0,
    {
        self.screen_height / 2 - self.paddle_half_height
    }

    /// Bounds for the ball's leading edge, taken as centre plus or minus
    /// half the radius on each axis.
    pub open spec fn spec_ball_x_max(self) -> int {
        self.screen_width / 2 - self.ball_radius / 2
    }

    pub open spec fn spec_ball_y_max(self) -> int {
        self.screen_height / 2 - self.ball_radius / 2
    }

    pub fn ball_x_max(&self) -> (r: i64)
        requires
            self.valid(),
        ensures
            r == self.spec_ball_x_max(),
            r >= 0,
    {
        self.screen_width / 2 - self.ball_radius / 2
    }

    pub fn ball_y_max(&self) -> (r: i64)
        requires
            self.valid(),
        ensures
            r == self.spec_ball_y_max(),
            r >= 0,
    {
        self.screen_height / 2 - self.ball_radius / 2
    }

    /// The defaults of the reference match: an 800 by 600 field, 10 by
    /// 100 paddles offset 370 units from the centre, a ball of radius
    /// 10 starting at 300 units per second, 100-unit speed changes, a
    /// 5-second power-up timer and a winning score of 5.
    pub fn standard() -> (c: GameConfig)
        ensures
            c.valid(),
            c.spec_validate() is Ok,
    {
        GameConfig {
            screen_width: 800,
            screen_height: 600,
            paddle_half_width: 5,
            paddle_half_height: 50,
            paddle_x_offset: 370,
            paddle_rate: 500,
            ball_radius: 10,
            ball_base_speed: 300,
            ball_min_speed: 100,
            ball_max_speed: 1_000_000,
            speed_increment: 100,
            collision_margin: 5,
            powerup_speedup: 100,
            powerup_slowdown: 100,
            slow_multiplier_milli: 500,
            powerup_interval_ms: 5000,
            goal_cooldown_ms: 2000,
            spawn_half_extent: 300,
            powerup_half_size: 25,
            rules: GameRules { max_rounds: 3, winning_score: 5 },
        }
    }
}

} // verus!
