//! The simulation context and the per-tick systems, run in a fixed
//! order: paddle movement, ball integration, paddle collision, wall
//! bounce, goal and score resolution, power-up spawning, power-up
//! pickup, and the win check. Nothing here blocks: the pause after a
//! goal is a counted-down freeze, not a sleep.

use vstd::prelude::*;
use crate::ball::{integrate, spec_integrate, spec_new_ball, Ball};
use crate::collision::{resolve_paddle_hit, spec_resolve_hit};
use crate::config::{ConfigError, GameConfig, MAX_DT_MS, MULTIPLIER_ONE};
use crate::geom::{clamp_i64, collide, spec_clamp, Vec2i};
use crate::paddle::{move_paddle, spec_moved_player, MoveIntent, Player, Side};
use crate::powerup::{
    make_powerup,
    spec_any_slowdown_hit,
    spec_hit,
    spec_make_powerup,
    spec_speed_after,
    spec_survivors,
    PowerUp,
    PowerUpTimer,
    PowerUpType,
    SpawnRolls,
};
use crate::rng::rand_range_i64;
use crate::state::{AppState, ButtonCommands, GameState, ScoreBoard};
use crate::text::{score_text, spec_score_text, winner_text};

verus! {

/// The ball after a goal: back at the field centre at base speed, with
/// its direction kept.
pub open spec fn spec_reset_ball(b: Ball, cfg: GameConfig) -> Ball {
    Ball { pos: Vec2i { x: 0, y: 0 }, speed: cfg.ball_base_speed, ..b }
}

/// The goal-freeze countdown after one tick.
pub open spec fn spec_freeze_after(freeze_ms: u64, dt_ms: u64) -> u64 {
    if freeze_ms > dt_ms {
        (freeze_ms - dt_ms) as u64
    } else {
        0u64
    }
}

/// One tick of ball integration under the goal freeze: while frozen,
/// only the freeze counts down; otherwise the ball integrates and the
/// freeze stays spent. Returns the ball and the remaining freeze.
pub open spec fn spec_ball_move(b: Ball, freeze_ms: u64, dt_ms: u64) -> (Ball, u64) {
    if freeze_ms > 0 {
        (b, spec_freeze_after(freeze_ms, dt_ms))
    } else {
        (spec_integrate(b, dt_ms as int), freeze_ms)
    }
}

/// The wall-bounce rule: a ball whose leading edge has left the
/// vertical range comes back with its vertical direction negated and
/// its position clamped inside; any other ball is untouched.
pub open spec fn spec_wall_bounce(b: Ball, cfg: GameConfig) -> Ball {
    let y_lim = cfg.spec_ball_y_max();
    if b.pos.y < -y_lim || b.pos.y > y_lim {
        Ball {
            pos: Vec2i { x: b.pos.x, y: spec_clamp(b.pos.y as int, -y_lim, y_lim) as i64 },
            dir_y: (0 - b.dir_y) as i64,
            ..b
        }
    } else {
        b
    }
}

/// The goal rule: a ball whose leading edge crossed a goal line raises
/// the opposing score by one, returns to the centre at base speed and
/// starts the goal freeze; otherwise ball, scores and freeze pass
/// through. Returns the ball, the score board and the freeze.
pub open spec fn spec_goal_result(b: Ball, sb: ScoreBoard, freeze_ms: u64, cfg: GameConfig) -> (
    Ball,
    ScoreBoard,
    u64,
) {
    let x_lim = cfg.spec_ball_x_max();
    if b.pos.x < -x_lim {
        (
            spec_reset_ball(b, cfg),
            ScoreBoard { score_right: (sb.score_right + 1) as u64, ..sb },
            cfg.goal_cooldown_ms,
        )
    } else if b.pos.x > x_lim {
        (
            spec_reset_ball(b, cfg),
            ScoreBoard { score_left: (sb.score_left + 1) as u64, ..sb },
            cfg.goal_cooldown_ms,
        )
    } else {
        (b, sb, freeze_ms)
    }
}

/// The win rule applied to a running match: the match ends exactly
/// when a score has reached the winning score, the left side winning
/// ties. Returns the phase and the match record.
pub open spec fn spec_win_result(sb: ScoreBoard, gs: GameState, cfg: GameConfig) -> (
    AppState,
    GameState,
) {
    if sb.score_left >= cfg.rules.winning_score {
        (
            AppState::GameOver,
            GameState {
                current_round: gs.current_round,
                current_winning_player: Some(Side::Left),
            },
        )
    } else if sb.score_right >= cfg.rules.winning_score {
        (
            AppState::GameOver,
            GameState {
                current_round: gs.current_round,
                current_winning_player: Some(Side::Right),
            },
        )
    } else {
        (AppState::InGame, gs)
    }
}

/// The identifier the spawner hands the next power-up after one spawn.
pub open spec fn spec_next_id(id: u64) -> u64 {
    if id == u64::MAX {
        0u64
    } else {
        (id + 1) as u64
    }
}

/// The full transition of one tick: `t` is exactly the state that one
/// call of `step` leaves from `s`, every field pinned. Outside
/// `InGame` nothing changes. Inside it, the paddles move by their
/// intents; the ball — when present — integrates under the freeze, is
/// resolved against the left paddle then the right, bounces off the
/// walls and settles any goal; the spawn timer advances and, on
/// firing, resets both multipliers and adds the rolled power-up; the
/// ball then picks up what it covers; last, the win rule runs. A match
/// that has lost its ball skips every ball-dependent system and still
/// runs paddles, spawner and win check.
pub open spec fn spec_step(
    s: GameSim,
    left_intent: MoveIntent,
    right_intent: MoveIntent,
    dt_ms: u64,
    rolls: SpawnRolls,
    t: GameSim,
) -> bool {
    if s.phase != AppState::InGame {
        t == s
    } else {
        let cfg = s.config;
        let left1 = spec_moved_player(s.left, left_intent, dt_ms as int, cfg);
        let right1 = spec_moved_player(s.right, right_intent, dt_ms as int, cfg);
        let fired = s.timer.spec_fires(dt_ms as int);
        let timer1 = PowerUpTimer {
            period_ms: s.timer.period_ms,
            acc_ms: (((s.timer.acc_ms + dt_ms) as u64) % s.timer.period_ms) as u64,
        };
        let left2 = if fired {
            Player { speed_milli: MULTIPLIER_ONE, ..left1 }
        } else {
            left1
        };
        let right2 = if fired {
            Player { speed_milli: MULTIPLIER_ONE, ..right1 }
        } else {
            right1
        };
        let ps1 = if fired {
            s.powerups@.push(spec_make_powerup(s.next_powerup_id, rolls))
        } else {
            s.powerups@
        };
        let id1 = if fired {
            spec_next_id(s.next_powerup_id)
        } else {
            s.next_powerup_id
        };
        match s.ball {
            None => {
                let win = spec_win_result(s.score_board, s.game_state, cfg);
                &&& t.config == cfg
                &&& t.phase == win.0
                &&& t.left == left2
                &&& t.right == right2
                &&& t.ball is None
                &&& t.score_board == s.score_board
                &&& t.game_state == win.1
                &&& t.timer == timer1
                &&& t.powerups@ == ps1
                &&& t.next_powerup_id == id1
                &&& t.freeze_ms == s.freeze_ms
            },
            Some(b0) => {
                let moved = spec_ball_move(b0, s.freeze_ms, dt_ms);
                let b1 = moved.0;
                let freeze1 = moved.1;
                let b2 = spec_resolve_hit(spec_resolve_hit(b1, left1, cfg), right1, cfg);
                let b3 = spec_wall_bounce(b2, cfg);
                let goal = spec_goal_result(b3, s.score_board, freeze1, cfg);
                let b4 = goal.0;
                let sb1 = goal.1;
                let freeze2 = goal.2;
                let ps2 = spec_survivors(b4, ps1, cfg);
                let b5 = Ball { speed: spec_speed_after(b4.speed as int, b4, ps1, cfg) as i64, ..b4 };
                let slow = spec_any_slowdown_hit(b4, ps1, cfg);
                let left3 = if slow {
                    Player { speed_milli: cfg.slow_multiplier_milli, ..left2 }
                } else {
                    left2
                };
                let right3 = if slow {
                    Player { speed_milli: cfg.slow_multiplier_milli, ..right2 }
                } else {
                    right2
                };
                let win = spec_win_result(sb1, s.game_state, cfg);
                &&& t.config == cfg
                &&& t.phase == win.0
                &&& t.left == left3
                &&& t.right == right3
                &&& t.ball == Some(b5)
                &&& t.score_board == sb1
                &&& t.game_state == win.1
                &&& t.timer == timer1
                &&& t.powerups@ == ps2
                &&& t.next_powerup_id == id1
                &&& t.freeze_ms == freeze2
            },
        }
    }
}

/// The whole simulation: every mutable record the systems read or
/// write, owned exclusively and advanced once per tick.
pub struct GameSim {
    pub config: GameConfig,
    pub phase: AppState,
    pub left: Player,
    pub right: Player,
    /// Present exactly while a match is running; absent in the menu.
    pub ball: Option<Ball>,
    pub score_board: ScoreBoard,
    pub game_state: GameState,
    pub timer: PowerUpTimer,
    pub powerups: Vec<PowerUp>,
    pub next_powerup_id: u64,
    /// Remaining goal cooldown; the ball does not move while positive.
    pub freeze_ms: u64,
}

impl GameSim {
    /// The structural invariant every system preserves, stated without
    /// demanding the ball's presence: a match state that has lost its
    /// ball is degraded, not ill-formed, and every tick system accepts
    /// it and skips what depends on the ball.
    pub open spec fn wf_core(self) -> bool {
        &&& self.config.valid()
        &&& self.left.wf(self.config) && self.left.side == Side::Left
        &&& self.right.wf(self.config) && self.right.side == Side::Right
        &&& match self.ball {
            Some(b) => b.wf(self.config) && b.in_flight(),
            None => true,
        }
        &&& self.phase == AppState::GameOver ==> self.game_state.current_winning_player is Some
        &&& self.score_board.wf()
        &&& self.timer.wf() && self.timer.period_ms == self.config.powerup_interval_ms
        &&& forall|i: int|
            0 <= i < self.powerups@.len() ==> (#[trigger] self.powerups@[i]).wf(self.config)
        &&& self.freeze_ms <= crate::config::MAX_TIME_MS
    }

    /// The full structural invariant: additionally, a running or
    /// paused match has its ball.
    pub open spec fn wf(self) -> bool {
        &&& self.wf_core()
        &&& (self.phase == AppState::InGame || self.phase == AppState::Paused) ==> self.ball
            is Some
    }

    /// Between ticks the ball rests inside the field.
    pub open spec fn ball_settled(self) -> bool {
        match self.ball {
            Some(b) => b.settled(self.config),
            None => true,
        }
    }

    /// While the match runs, neither score has reached the winning
    /// score yet; the win check ends the match in the same tick a
    /// score reaches it.
    pub open spec fn scores_ok(self) -> bool {
        self.phase == AppState::InGame ==> self.score_board.below_winning(self.config)
    }

    /// What a tick relies on, ball or no ball: core invariant, any
    /// present ball at rest inside the field, scores below the winning
    /// score.
    pub open spec fn ready_core(self) -> bool {
        &&& self.wf_core()
        &&& self.ball_settled()
        &&& self.scores_ok()
    }

    /// The between-ticks invariant of a healthy simulation:
    /// structurally well-formed with its ball present, ball at rest
    /// inside the field, scores below the winning score.
    pub open spec fn ready(self) -> bool {
        &&& self.wf()
        &&& self.ball_settled()
        &&& self.scores_ok()
    }

    /// Start a fresh simulation in the menu, rejecting a configuration
    /// that could not support a match.
    pub fn new(config: GameConfig) -> (r: Result<GameSim, ConfigError>)
        ensures
            r is Ok <==> config.valid(),
            match r {
                Ok(sim) => {
                    &&& sim.ready()
                    &&& sim.config == config
                    &&& sim.phase == AppState::Menu
                    &&& sim.ball is None
                    &&& sim.score_board.score_left == 0 && sim.score_board.score_right == 0
                    &&& sim.game_state.current_round == 0
                    &&& sim.game_state.current_winning_player is None
                    &&& sim.timer.acc_ms == 0
                    &&& sim.powerups@ == Seq::<PowerUp>::empty()
                    &&& sim.next_powerup_id == 0
                    &&& sim.freeze_ms == 0
                },
                Err(e) => config.spec_validate() == Result::<(), ConfigError>::Err(e),
            },
    {
        match config.validate() {
            Err(e) => Err(e),
            Ok(()) => {
                let left = Player::new(Side::Left, &config);
                let right = Player::new(Side::Right, &config);
                let timer = PowerUpTimer::new(config.powerup_interval_ms);
                Ok(
                    GameSim {
                        config,
                        phase: AppState::Menu,
                        left,
                        right,
                        ball: None,
                        score_board: ScoreBoard::new(),
                        game_state: GameState::new(),
                        timer,
                        powerups: Vec::new(),
                        next_powerup_id: 0,
                        freeze_ms: 0,
                    },
                )
            },
        }
    }

    /// Reset the power-up machinery for a new match: a fresh timer, no
    /// live power-ups, no goal freeze.
    pub fn spawn_game_items(&mut self)
        requires
            old(self).wf_core(),
        ensures
            final(self).wf_core(),
            final(self).timer == (PowerUpTimer {
                period_ms: old(self).config.powerup_interval_ms,
                acc_ms: 0,
            }),
            final(self).powerups@ == Seq::<PowerUp>::empty(),
            final(self).next_powerup_id == 0,
            final(self).freeze_ms == 0,
            final(self).config == old(self).config,
            final(self).phase == old(self).phase,
            final(self).left == old(self).left,
            final(self).right == old(self).right,
            final(self).ball == old(self).ball,
            final(self).score_board == old(self).score_board,
            final(self).game_state == old(self).game_state,
    {
        self.timer = PowerUpTimer::new(self.config.powerup_interval_ms);
        self.powerups = Vec::new();
        self.next_powerup_id = 0;
        self.freeze_ms = 0;
    }

    /// Put both paddles on station: centred vertically, full speed, no
    /// score.
    pub fn spawn_paddels(&mut self)
        requires
            old(self).wf_core(),
        ensures
            final(self).wf_core(),
            *final(self) == (GameSim {
                left: crate::paddle::spec_new_player(Side::Left, old(self).config),
                right: crate::paddle::spec_new_player(Side::Right, old(self).config),
                ..*old(self)
            }),
    {
        self.left = Player::new(Side::Left, &self.config);
        self.right = Player::new(Side::Right, &self.config);
    }

    /// Put a fresh ball at the field centre, sent to the side the roll
    /// picks.
    pub fn spawn_ball(&mut self, dir_roll: u64)
        requires
            old(self).wf_core(),
            dir_roll < 100,
        ensures
            final(self).wf_core(),
            final(self).ball_settled(),
            *final(self) == (GameSim {
                ball: Some(spec_new_ball(dir_roll, old(self).config)),
                ..*old(self)
            }),
    {
        self.ball = Some(Ball::new(dir_roll, &self.config));
    }

    /// Reset the per-match records: both scores to zero, no round
    /// played, no winner.
    pub fn spawn_recources(&mut self)
        requires
            old(self).wf_core(),
        ensures
            final(self).wf_core(),
            old(self).phase != AppState::GameOver ==> *final(self) == (GameSim {
                score_board: (ScoreBoard { score_left: 0, score_right: 0 }),
                game_state: (GameState { current_round: 0, current_winning_player: None }),
                ..*old(self)
            }),
            final(self).score_board.score_left == 0 && final(self).score_board.score_right == 0,
            final(self).game_state.current_round == 0,
            old(self).phase == AppState::GameOver ==> final(self).game_state == (GameState {
                current_round: 0,
                current_winning_player: old(self).game_state.current_winning_player,
            }),
            final(self).phase == old(self).phase,
            final(self).config == old(self).config,
            final(self).left == old(self).left,
            final(self).right == old(self).right,
            final(self).ball == old(self).ball,
            final(self).timer == old(self).timer,
            final(self).powerups@ == old(self).powerups@,
            final(self).next_powerup_id == old(self).next_powerup_id,
            final(self).freeze_ms == old(self).freeze_ms,
    {
        self.score_board = ScoreBoard::new();
        if self.phase != AppState::GameOver {
            self.game_state = GameState::new();
        } else {
            self.game_state = GameState {
                current_round: 0,
                current_winning_player: self.game_state.current_winning_player,
            };
        }
    }

    /// React to a menu button. `Play` starts a match from the menu:
    /// paddles, ball, scores and power-up machinery are spawned fresh
    /// and the phase becomes `InGame`. `Quit` asks the caller to end
    /// the process.
    pub fn menu_action(&mut self, cmd: ButtonCommands, dir_roll: u64) -> (exit: bool)
        requires
            old(self).ready(),
            dir_roll < 100,
        ensures
            final(self).ready(),
            exit == (cmd == ButtonCommands::Quit),
            cmd == ButtonCommands::Quit ==> *final(self) == *old(self),
            cmd == ButtonCommands::Play && old(self).phase != AppState::Menu ==> *final(self)
                == *old(self),
            cmd == ButtonCommands::Play && old(self).phase == AppState::Menu ==> {
                &&& final(self).phase == AppState::InGame
                &&& final(self).config == old(self).config
                &&& final(self).left == crate::paddle::spec_new_player(
                    Side::Left,
                    old(self).config,
                )
                &&& final(self).right == crate::paddle::spec_new_player(
                    Side::Right,
                    old(self).config,
                )
                &&& final(self).ball == Some(spec_new_ball(dir_roll, old(self).config))
                &&& final(self).score_board.score_left == 0
                &&& final(self).score_board.score_right == 0
                &&& final(self).game_state.current_round == 0
                &&& final(self).game_state.current_winning_player is None
                &&& final(self).timer.acc_ms == 0
                &&& final(self).powerups@ == Seq::<PowerUp>::empty()
                &&& final(self).next_powerup_id == 0
                &&& final(self).freeze_ms == 0
            },
    {
        match cmd {
            ButtonCommands::Quit => true,
            ButtonCommands::Play => {
                if self.phase == AppState::Menu {
                    self.spawn_paddels();
                    self.spawn_ball(dir_roll);
                    self.spawn_recources();
                    self.spawn_game_items();
                    self.phase = AppState::InGame;
                }
                false
            },
        }
    }

    /// Suspend or resume the match; any other phase is left alone.
    pub fn toggle_pause(&mut self)
        requires
            old(self).wf(),
        ensures
            final(self).wf(),
            old(self).phase == AppState::InGame ==> *final(self) == (GameSim {
                phase: AppState::Paused,
                ..*old(self)
            }),
            old(self).phase == AppState::Paused ==> *final(self) == (GameSim {
                phase: AppState::InGame,
                ..*old(self)
            }),
            old(self).phase != AppState::InGame && old(self).phase != AppState::Paused ==> *final(self) == *old(self),
    {
        if self.phase == AppState::InGame {
            self.phase = AppState::Paused;
        } else if self.phase == AppState::Paused {
            self.phase = AppState::InGame;
        }
    }

    /// Move both paddles by this tick's intents. Whatever the inputs,
    /// both paddles stay on their track.
    pub fn player_movment(&mut self, left_intent: MoveIntent, right_intent: MoveIntent, dt_ms: u64)
        requires
            old(self).wf_core(),
            1 <= dt_ms <= MAX_DT_MS,
        ensures
            final(self).wf_core(),
            old(self).phase != AppState::InGame ==> *final(self) == *old(self),
            old(self).phase == AppState::InGame ==> *final(self) == (GameSim {
                left: spec_moved_player(old(self).left, left_intent, dt_ms as int, old(self).config),
                right: spec_moved_player(
                    old(self).right,
                    right_intent,
                    dt_ms as int,
                    old(self).config,
                ),
                ..*old(self)
            }),
            -old(self).config.spec_paddle_y_max() <= final(self).left.y
                <= old(self).config.spec_paddle_y_max(),
            -old(self).config.spec_paddle_y_max() <= final(self).right.y
                <= old(self).config.spec_paddle_y_max(),
    {
        if self.phase != AppState::InGame {
            return ;
        }
        let cfg = self.config;
        move_paddle(&mut self.left, left_intent, dt_ms, &cfg);
        move_paddle(&mut self.right, right_intent, dt_ms, &cfg);
    }

    /// Integrate the ball, unless the goal freeze still runs, in which
    /// case only the freeze counts down. A running match without its
    /// ball is left exactly as it stands: the system skips, it never
    /// aborts.
    pub fn ballmovment(&mut self, dt_ms: u64)
        requires
            old(self).wf_core(),
            old(self).ball_settled(),
            1 <= dt_ms <= MAX_DT_MS,
        ensures
            final(self).wf_core(),
            old(self).phase != AppState::InGame ==> *final(self) == *old(self),
            old(self).phase == AppState::InGame && old(self).ball is None ==> *final(self) == *old(
                self,
            ),
            old(self).phase == AppState::InGame && old(self).ball is Some ==> {
                let moved = spec_ball_move(old(self).ball.unwrap(), old(self).freeze_ms, dt_ms);
                *final(self) == (GameSim { ball: Some(moved.0), freeze_ms: moved.1, ..*old(self) })
            },
    {
        if self.phase != AppState::InGame {
            return ;
        }
        let cfg = self.config;
        match self.ball {
            Some(b) => {
                if self.freeze_ms > 0 {
                    if self.freeze_ms > dt_ms {
                        self.freeze_ms = self.freeze_ms - dt_ms;
                    } else {
                        self.freeze_ms = 0;
                    }
                } else {
                    let mut moved = b;
                    integrate(&mut moved, dt_ms, &cfg);
                    self.ball = Some(moved);
                }
            },
            None => {},
        }
    }

    /// Resolve the ball against both paddles, the left one first. Each
    /// hit reflects at most one direction component, and only when the
    /// ball moves toward the paddle on that axis, raising the speed by
    /// the configured increment.
    pub fn collision_detection(&mut self)
        requires
            old(self).wf_core(),
        ensures
            final(self).wf_core(),
            old(self).phase != AppState::InGame ==> *final(self) == *old(self),
            old(self).phase == AppState::InGame && old(self).ball is None ==> *final(self) == *old(
                self,
            ),
            old(self).phase == AppState::InGame && old(self).ball is Some ==> *final(self)
                == (GameSim {
                ball: Some(
                    spec_resolve_hit(
                        spec_resolve_hit(old(self).ball.unwrap(), old(self).left, old(self).config),
                        old(self).right,
                        old(self).config,
                    ),
                ),
                ..*old(self)
            }),
            old(self).ball is Some ==> final(self).ball is Some && final(self).ball.unwrap().pos
                == old(self).ball.unwrap().pos,
    {
        if self.phase != AppState::InGame {
            return ;
        }
        let cfg = self.config;
        match self.ball {
            Some(b) => {
                let mut resolved = b;
                resolve_paddle_hit(&mut resolved, &self.left, &cfg);
                resolve_paddle_hit(&mut resolved, &self.right, &cfg);
                self.ball = Some(resolved);
            },
            None => {},
        }
    }

    /// Bounce the ball off the top and bottom walls: when its leading
    /// edge has left the vertical range, the vertical direction is
    /// negated and the position clamped back inside, so the bounce
    /// cannot re-trigger next tick. A running match without its ball
    /// is left exactly as it stands.
    pub fn update_ball_direction(&mut self)
        requires
            old(self).wf_core(),
        ensures
            final(self).wf_core(),
            old(self).phase != AppState::InGame ==> *final(self) == *old(self),
            old(self).phase == AppState::InGame && old(self).ball is None ==> *final(self) == *old(
                self,
            ),
            old(self).phase == AppState::InGame && old(self).ball is Some ==> *final(self)
                == (GameSim {
                ball: Some(spec_wall_bounce(old(self).ball.unwrap(), old(self).config)),
                ..*old(self)
            }),
            old(self).phase == AppState::InGame && old(self).ball is Some ==> -old(
                self,
            ).config.spec_ball_y_max() <= final(self).ball.unwrap().pos.y <= old(
                self,
            ).config.spec_ball_y_max(),
    {
        if self.phase != AppState::InGame {
            return ;
        }
        let y_lim = self.config.ball_y_max();
        match self.ball {
            Some(b) => {
                if b.pos.y < -y_lim || b.pos.y > y_lim {
                    let clamped = clamp_i64(b.pos.y, -y_lim, y_lim);
                    self.ball = Some(
                        Ball { pos: Vec2i { x: b.pos.x, y: clamped }, dir_y: -b.dir_y, ..b },
                    );
                }
            },
            None => {},
        }
    }

    /// Detect a goal by the ball's leading edge and resolve the round
    /// end: the opposing score rises by exactly one, the ball returns
    /// to the centre at base speed, and the goal freeze starts. With
    /// the ball inside both goal lines, nothing changes.
    pub fn check_for_goal(&mut self)
        requires
            old(self).wf_core(),
            old(self).scores_ok(),
        ensures
            final(self).wf_core(),
            old(self).phase != AppState::InGame ==> *final(self) == *old(self),
            old(self).phase == AppState::InGame && old(self).ball is None ==> *final(self) == *old(
                self,
            ),
            old(self).phase == AppState::InGame && old(self).ball is Some ==> {
                let goal = spec_goal_result(
                    old(self).ball.unwrap(),
                    old(self).score_board,
                    old(self).freeze_ms,
                    old(self).config,
                );
                *final(self) == (GameSim {
                    ball: Some(goal.0),
                    score_board: goal.1,
                    freeze_ms: goal.2,
                    ..*old(self)
                })
            },
            final(self).score_board.score_left >= old(self).score_board.score_left,
            final(self).score_board.score_right >= old(self).score_board.score_right,
            final(self).score_board.score_left + final(self).score_board.score_right <= old(self).score_board.score_left + old(self).score_board.score_right + 1,
            old(self).phase == AppState::InGame && old(self).ball is Some ==> -old(self).config.spec_ball_x_max() <= final(self).ball.unwrap().pos.x <= old(self).config.spec_ball_x_max(),
            old(self).phase == AppState::InGame && old(self).ball is Some ==> (final(self).ball.unwrap().pos.y == old(self).ball.unwrap().pos.y || final(self).ball.unwrap().pos.y == 0),
    {
        if self.phase != AppState::InGame {
            return ;
        }
        let x_lim = self.config.ball_x_max();
        match self.ball {
            Some(b) => {
                if b.pos.x < -x_lim {
                    self.score_board = ScoreBoard {
                        score_left: self.score_board.score_left,
                        score_right: self.score_board.score_right + 1,
                    };
                    self.ball = Some(
                        Ball { pos: Vec2i { x: 0, y: 0 }, speed: self.config.ball_base_speed, ..b },
                    );
                    self.freeze_ms = self.config.goal_cooldown_ms;
                } else if b.pos.x > x_lim {
                    self.score_board = ScoreBoard {
                        score_left: self.score_board.score_left + 1,
                        score_right: self.score_board.score_right,
                    };
                    self.ball = Some(
                        Ball { pos: Vec2i { x: 0, y: 0 }, speed: self.config.ball_base_speed, ..b },
                    );
                    self.freeze_ms = self.config.goal_cooldown_ms;
                }
            },
            None => {},
        }
    }

    /// The scoreboard line for the presentation layer.
    pub fn update_scoreboard(&self) -> (s: String)
        ensures
            s@ == spec_score_text(
                self.score_board.score_left as int,
                self.score_board.score_right as int,
            ),
    {
        score_text(self.score_board.score_left, self.score_board.score_right)
    }

    /// Advance the spawn timer; when it fires, every paddle's speed
    /// multiplier returns to one and a single power-up appears where
    /// the rolls put it.
    pub fn spawn_powerups(&mut self, dt_ms: u64, rolls: &SpawnRolls)
        requires
            old(self).wf_core(),
            1 <= dt_ms <= MAX_DT_MS,
            rolls.valid(old(self).config),
        ensures
            final(self).wf_core(),
            old(self).phase != AppState::InGame ==> *final(self) == *old(self),
            old(self).phase == AppState::InGame ==> {
                let fired = old(self).timer.spec_fires(dt_ms as int);
                &&& final(self).timer.period_ms == old(self).timer.period_ms
                &&& final(self).timer.acc_ms == (old(self).timer.acc_ms + dt_ms) % (
                old(self).timer.period_ms as int)
                &&& !fired ==> (final(self).powerups@ == old(self).powerups@ && final(self).left
                    == old(self).left && final(self).right == old(self).right && final(self).next_powerup_id == old(self).next_powerup_id)
                &&& fired ==> (final(self).powerups@ == old(self).powerups@.push(
                    spec_make_powerup(old(self).next_powerup_id, *rolls),
                ) && final(self).left == (Player {
                    speed_milli: MULTIPLIER_ONE,
                    ..old(self).left
                }) && final(self).right == (Player {
                    speed_milli: MULTIPLIER_ONE,
                    ..old(self).right
                }) && final(self).next_powerup_id == spec_next_id(old(self).next_powerup_id))
                &&& final(self).phase == old(self).phase
                &&& final(self).config == old(self).config
                &&& final(self).ball == old(self).ball
                &&& final(self).score_board == old(self).score_board
                &&& final(self).game_state == old(self).game_state
                &&& final(self).freeze_ms == old(self).freeze_ms
            },
    {
        if self.phase != AppState::InGame {
            return ;
        }
        let fired = self.timer.tick(dt_ms);
        if fired {
            self.left.speed_milli = MULTIPLIER_ONE;
            self.right.speed_milli = MULTIPLIER_ONE;
            let cfg = self.config;
            let p = make_powerup(self.next_powerup_id, rolls, &cfg);
            self.powerups.push(p);
            self.next_powerup_id = if self.next_powerup_id == u64::MAX {
                0
            } else {
                self.next_powerup_id + 1
            };
        }
    }

    /// Let the ball pick up every power-up it covers, front to back: a
    /// Speedup raises the ball speed, a Slowdown lowers it down to the
    /// configured floor and drops both paddles' multipliers; each
    /// picked-up power-up disappears, the rest keep their order.
    pub fn powerup_collisions(&mut self)
        requires
            old(self).wf_core(),
            old(self).ball_settled(),
        ensures
            final(self).wf_core(),
            final(self).ball_settled(),
            old(self).phase != AppState::InGame ==> *final(self) == *old(self),
            old(self).phase == AppState::InGame && old(self).ball is None ==> *final(self) == *old(
                self,
            ),
            old(self).phase == AppState::InGame && old(self).ball is Some ==> {
                let b0 = old(self).ball.unwrap();
                let cfg = old(self).config;
                let ps0 = old(self).powerups@;
                &&& final(self).powerups@ == spec_survivors(b0, ps0, cfg)
                &&& final(self).ball == Some(
                    Ball { speed: spec_speed_after(b0.speed as int, b0, ps0, cfg) as i64, ..b0 },
                )
                &&& (spec_any_slowdown_hit(b0, ps0, cfg) ==> final(self).left == (Player {
                    speed_milli: cfg.slow_multiplier_milli,
                    ..old(self).left
                }) && final(self).right == (Player {
                    speed_milli: cfg.slow_multiplier_milli,
                    ..old(self).right
                }))
                &&& (!spec_any_slowdown_hit(b0, ps0, cfg) ==> final(self).left == old(self).left
                    && final(self).right == old(self).right)
                &&& final(self).phase == old(self).phase
                &&& final(self).config == old(self).config
                &&& final(self).score_board == old(self).score_board
                &&& final(self).game_state == old(self).game_state
                &&& final(self).timer == old(self).timer
                &&& final(self).next_powerup_id == old(self).next_powerup_id
                &&& final(self).freeze_ms == old(self).freeze_ms
            },
    {
        if self.phase != AppState::InGame {
            return ;
        }
        let b0 = match self.ball {
            Some(b) => b,
            None => {
                return ;
            },
        };
        let cfg = self.config;
        let ghost ps0 = self.powerups@;
        let mut survivors: Vec<PowerUp> = Vec::new();
        let mut speed: i64 = b0.speed;
        let mut slowed: bool = false;
        let mut i: usize = 0;
        let n = self.powerups.len();
        while i < n
            invariant
                cfg.valid(),
                cfg == self.config,
                b0.wf(cfg),
                b0.settled(cfg),
                self.powerups@ == ps0,
                n == ps0.len(),
                forall|j: int| 0 <= j < ps0.len() ==> (#[trigger] ps0[j]).wf(cfg),
                i <= n,
                survivors@ == spec_survivors(b0, ps0.take(i as int), cfg),
                forall|j: int|
                    0 <= j < survivors@.len() ==> (#[trigger] survivors@[j]).wf(cfg),
                speed == spec_speed_after(b0.speed as int, b0, ps0.take(i as int), cfg),
                slowed == spec_any_slowdown_hit(b0, ps0.take(i as int), cfg),
                cfg.ball_min_speed <= speed <= cfg.ball_max_speed,
            decreases n - i,
        {
            let p = self.powerups[i];
            let hit = collide(
                b0.pos,
                cfg.ball_radius,
                cfg.ball_radius,
                p.pos,
                cfg.powerup_half_size,
                cfg.powerup_half_size,
            );
            proof {
                assert(ps0.take(i as int + 1).drop_last() =~= ps0.take(i as int));
                assert(ps0.take(i as int + 1).last() == ps0[i as int]);
            }
            if hit.is_some() {
                match p.powerup_type {
                    PowerUpType::Speedup => {
                        speed = if speed + cfg.powerup_speedup <= cfg.ball_max_speed {
                            speed + cfg.powerup_speedup
                        } else {
                            cfg.ball_max_speed
                        };
                    },
                    PowerUpType::Slowdown => {
                        speed = if speed - cfg.powerup_slowdown >= cfg.ball_min_speed {
                            speed - cfg.powerup_slowdown
                        } else {
                            cfg.ball_min_speed
                        };
                        slowed = true;
                    },
                }
                proof {
                    if !spec_any_slowdown_hit(b0, ps0.take(i as int), cfg) && p.powerup_type
                        == PowerUpType::Slowdown {
                        assert(spec_hit(b0, ps0.take(i as int + 1)[i as int], cfg));
                    }
                }
            } else {
                survivors.push(p);
            }
            i = i + 1;
        }
        proof {
            assert(ps0.take(n as int) =~= ps0);
        }
        self.powerups = survivors;
        self.ball = Some(Ball { speed, ..b0 });
        if slowed {
            self.left.speed_milli = cfg.slow_multiplier_milli;
            self.right.speed_milli = cfg.slow_multiplier_milli;
        }
    }

    /// End the match exactly when a score has reached the winning
    /// score, recording the winning side; the left side wins ties.
    pub fn end_game_checker(&mut self)
        requires
            old(self).wf_core(),
        ensures
            final(self).wf_core(),
            final(self).scores_ok(),
            old(self).phase != AppState::InGame ==> *final(self) == *old(self),
            old(self).phase == AppState::InGame ==> {
                let win = spec_win_result(
                    old(self).score_board,
                    old(self).game_state,
                    old(self).config,
                );
                *final(self) == (GameSim { phase: win.0, game_state: win.1, ..*old(self) })
            },
            final(self).phase == AppState::GameOver <==> (old(self).phase == AppState::GameOver
                || (old(self).phase == AppState::InGame && (old(self).score_board.score_left
                >= old(self).config.rules.winning_score || old(self).score_board.score_right >= old(self).config.rules.winning_score))),
    {
        if self.phase != AppState::InGame {
            return ;
        }
        if self.score_board.score_left >= self.config.rules.winning_score {
            self.phase = AppState::GameOver;
            self.game_state = GameState {
                current_round: self.game_state.current_round,
                current_winning_player: Some(Side::Left),
            };
        } else if self.score_board.score_right >= self.config.rules.winning_score {
            self.phase = AppState::GameOver;
            self.game_state = GameState {
                current_round: self.game_state.current_round,
                current_winning_player: Some(Side::Right),
            };
        }
    }

    /// The game-over banner, present exactly once the match has ended.
    pub fn end_game(&self) -> (r: Option<String>)
        requires
            self.wf(),
        ensures
            r is Some <==> self.phase == AppState::GameOver,
            self.phase == AppState::GameOver && self.game_state.current_winning_player == Some(
                Side::Left,
            ) ==> r.unwrap()@ == "Left player won!"@,
            self.phase == AppState::GameOver && self.game_state.current_winning_player == Some(
                Side::Right,
            ) ==> r.unwrap()@ == "Right player won!"@,
    {
        if self.phase == AppState::GameOver {
            match self.game_state.current_winning_player {
                Some(side) => Some(winner_text(side)),
                None => {
                    proof {
                        assert(false);
                    }
                    None
                },
            }
        } else {
            None
        }
    }

    /// One full tick in the fixed system order: paddles, ball
    /// integration, paddle collision, wall bounce, goal resolution,
    /// power-up spawn, power-up pickup, win check. The whole new state
    /// is pinned by `spec_step`. Outside `InGame` nothing moves.
    /// Scores never decrease, at most one goal falls per tick, and the
    /// match ends exactly when a score reaches the winning score.
    pub fn step(
        &mut self,
        left_intent: MoveIntent,
        right_intent: MoveIntent,
        dt_ms: u64,
        rolls: &SpawnRolls,
    )
        requires
            old(self).ready_core(),
            1 <= dt_ms <= MAX_DT_MS,
            rolls.valid(old(self).config),
        ensures
            spec_step(*old(self), left_intent, right_intent, dt_ms, *rolls, *final(self)),
            final(self).ready_core(),
            old(self).ready() ==> final(self).ready(),
            final(self).ball is Some <==> old(self).ball is Some,
            final(self).config == old(self).config,
            old(self).phase != AppState::InGame ==> *final(self) == *old(self),
            final(self).score_board.score_left >= old(self).score_board.score_left,
            final(self).score_board.score_right >= old(self).score_board.score_right,
            final(self).score_board.score_left + final(self).score_board.score_right <= old(self).score_board.score_left + old(self).score_board.score_right + 1,
            old(self).phase == AppState::InGame ==> (final(self).phase == AppState::InGame
                || final(self).phase == AppState::GameOver),
            old(self).phase == AppState::InGame ==> (final(self).phase == AppState::GameOver <==> (
            final(self).score_board.score_left >= old(self).config.rules.winning_score || final(self).score_board.score_right >= old(self).config.rules.winning_score)),
            final(self).phase == AppState::GameOver ==> final(self).game_state.current_winning_player is Some,
    {
        if self.phase != AppState::InGame {
            return ;
        }
        self.player_movment(left_intent, right_intent, dt_ms);
        self.ballmovment(dt_ms);
        self.collision_detection();
        self.update_ball_direction();
        self.check_for_goal();
        self.spawn_powerups(dt_ms, rolls);
        self.powerup_collisions();
        self.end_game_checker();
    }

    /// One full tick with the spawn rolls drawn from a caller-owned
    /// seedable generator, as the running game does. The draws happen
    /// only on the tick the spawn timer fires, and of them the library
    /// assumes only their ranges: the new state is exactly what `step`
    /// leaves for some in-range rolls.
    pub fn step_with_rng(
        &mut self,
        left_intent: MoveIntent,
        right_intent: MoveIntent,
        dt_ms: u64,
        rng: &mut rand::rngs::StdRng,
    )
        requires
            old(self).ready_core(),
            1 <= dt_ms <= MAX_DT_MS,
        ensures
            exists|rolls: SpawnRolls|
                rolls.valid(old(self).config) && spec_step(
                    *old(self),
                    left_intent,
                    right_intent,
                    dt_ms,
                    rolls,
                    *final(self),
                ),
            final(self).ready_core(),
            old(self).ready() ==> final(self).ready(),
            final(self).ball is Some <==> old(self).ball is Some,
            final(self).config == old(self).config,
            old(self).phase != AppState::InGame ==> *final(self) == *old(self),
            final(self).score_board.score_left >= old(self).score_board.score_left,
            final(self).score_board.score_right >= old(self).score_board.score_right,
            final(self).score_board.score_left + final(self).score_board.score_right <= old(self).score_board.score_left + old(self).score_board.score_right + 1,
            old(self).phase == AppState::InGame ==> (final(self).phase == AppState::InGame
                || final(self).phase == AppState::GameOver),
            old(self).phase == AppState::InGame ==> (final(self).phase == AppState::GameOver <==> (
            final(self).score_board.score_left >= old(self).config.rules.winning_score || final(self).score_board.score_right >= old(self).config.rules.winning_score)),
    {
        let will_fire = self.phase == AppState::InGame && self.timer.acc_ms + dt_ms
            >= self.timer.period_ms;
        let rolls = if will_fire {
            let t = rand_range_i64(rng, 0, 100);
            let x = rand_range_i64(rng, -self.config.spawn_half_extent, self.config.spawn_half_extent);
            let y = rand_range_i64(rng, -self.config.spawn_half_extent, self.config.spawn_half_extent);
            SpawnRolls { type_roll: t as u64, x, y }
        } else {
            SpawnRolls { type_roll: 0, x: 0, y: 0 }
        };
        let ghost pre = *self;
        self.step(left_intent, right_intent, dt_ms, &rolls);
        proof {
            assert(rolls.valid(pre.config) && spec_step(
                pre,
                left_intent,
                right_intent,
                dt_ms,
                rolls,
                *self,
            ));
        }
    }
}

} // verus!
