//! Scenario tests for the tick systems: paddle clamping, wall bounce,
//! paddle reflection, goals, the goal freeze and the win check.

use pong_core::ball::Ball;
use pong_core::config::GameConfig;
use pong_core::engine::GameSim;
use pong_core::geom::{collide, Collision, Vec2i};
use pong_core::paddle::MoveIntent;
use pong_core::powerup::SpawnRolls;
use pong_core::state::{AppState, ButtonCommands};

fn fresh_game(dir_roll: u64) -> GameSim {
    let mut sim = GameSim::new(GameConfig::standard()).unwrap();
    let exit = sim.menu_action(ButtonCommands::Play, dir_roll);
    assert!(!exit);
    sim
}

fn idle_rolls() -> SpawnRolls {
    // A spawn position the ball's path in these scenarios never covers.
    SpawnRolls { type_roll: 99, x: 150, y: 150 }
}

#[test]
fn quit_asks_for_exit_and_changes_nothing() {
    let mut sim = GameSim::new(GameConfig::standard()).unwrap();
    assert!(sim.menu_action(ButtonCommands::Quit, 0));
    assert_eq!(sim.phase, AppState::Menu);
    assert!(sim.ball.is_none());
}

#[test]
fn play_starts_a_match() {
    let sim = fresh_game(60);
    assert_eq!(sim.phase, AppState::InGame);
    let ball = sim.ball.unwrap();
    assert_eq!((ball.pos.x, ball.pos.y), (0, 0));
    assert_eq!(ball.dir_x, 1); // roll 60 sends the ball right
    assert_eq!(ball.dir_y, 1);
    assert_eq!(ball.speed, 300);
    assert_eq!(sim.left.y, 0);
    assert_eq!(sim.right.y, 0);
    assert_eq!(sim.score_board.score_left, 0);
    assert_eq!(sim.score_board.score_right, 0);
    let low = fresh_game(10);
    assert_eq!(low.ball.unwrap().dir_x, -1);
}

#[test]
fn pause_suspends_and_resumes() {
    let mut sim = fresh_game(60);
    sim.toggle_pause();
    assert_eq!(sim.phase, AppState::Paused);
    let before = sim.ball.unwrap();
    sim.step(MoveIntent::Up, MoveIntent::Down, 1000, &idle_rolls());
    assert_eq!(sim.ball.unwrap(), before); // a paused match does not move
    assert_eq!(sim.left.y, 0);
    sim.toggle_pause();
    assert_eq!(sim.phase, AppState::InGame);
}

#[test]
fn paddle_moves_and_stays_clamped() {
    let mut sim = fresh_game(60);
    // 500 units/s for 100 ms moves 50 units.
    sim.player_movment(MoveIntent::Up, MoveIntent::Down, 100);
    assert_eq!(sim.left.y, 50);
    assert_eq!(sim.right.y, -50);
    // An hour-long tick pins both paddles to the track ends:
    // paddle_y_max = 600/2 - 50 = 250.
    sim.player_movment(MoveIntent::Up, MoveIntent::Down, 3_600_000);
    assert_eq!(sim.left.y, 250);
    assert_eq!(sim.right.y, -250);
    // No intent leaves a paddle where it stands.
    sim.player_movment(MoveIntent::Idle, MoveIntent::Idle, 1000);
    assert_eq!(sim.left.y, 250);
    assert_eq!(sim.right.y, -250);
}

#[test]
fn halved_multiplier_halves_the_paddle_step() {
    let mut sim = fresh_game(60);
    sim.left.speed_milli = 500;
    sim.player_movment(MoveIntent::Up, MoveIntent::Up, 100);
    assert_eq!(sim.left.y, 25);
    assert_eq!(sim.right.y, 50);
}

#[test]
fn ball_integrates_direction_times_speed() {
    let mut sim = fresh_game(60);
    sim.ballmovment(100); // 300 units/s for 100 ms
    let ball = sim.ball.unwrap();
    assert_eq!((ball.pos.x, ball.pos.y), (30, 30));
    assert_eq!(ball.speed, 300);
}

#[test]
fn wall_bounce_flips_and_clamps() {
    // Ball one unit above the top bound (y_max = 300 - 5 = 295),
    // still climbing.
    let mut sim = fresh_game(60);
    let mut ball = sim.ball.unwrap();
    ball.pos = Vec2i { x: 0, y: 296 };
    ball.dir_y = 1;
    sim.ball = Some(ball);
    sim.update_ball_direction();
    let bounced = sim.ball.unwrap();
    assert_eq!(bounced.dir_y, -1);
    assert_eq!(bounced.pos.y, 295);
    assert_eq!(bounced.dir_x, ball.dir_x);
    // A second pass leaves the now-inside ball alone.
    sim.update_ball_direction();
    assert_eq!(sim.ball.unwrap(), bounced);
}

#[test]
fn bottom_wall_bounce() {
    let mut sim = fresh_game(60);
    let mut ball = sim.ball.unwrap();
    ball.pos = Vec2i { x: 10, y: -500 };
    ball.dir_y = -1;
    sim.ball = Some(ball);
    sim.update_ball_direction();
    let bounced = sim.ball.unwrap();
    assert_eq!(bounced.dir_y, 1);
    assert_eq!(bounced.pos.y, -295);
    assert_eq!(bounced.pos.x, 10);
}

#[test]
fn goal_on_the_right_scores_left_and_resets() {
    // Field width 800 and radius 20 put the goal line at
    // x_max = 400 - 10 = 390; a ball at 395 has crossed it.
    let mut cfg = GameConfig::standard();
    cfg.ball_radius = 20;
    let mut sim = GameSim::new(cfg).unwrap();
    sim.menu_action(ButtonCommands::Play, 60);
    let mut ball = sim.ball.unwrap();
    ball.pos = Vec2i { x: 395, y: 17 };
    ball.speed = 700;
    sim.ball = Some(ball);
    sim.check_for_goal();
    assert_eq!(sim.score_board.score_left, 1);
    assert_eq!(sim.score_board.score_right, 0);
    let reset = sim.ball.unwrap();
    assert_eq!((reset.pos.x, reset.pos.y), (0, 0));
    assert_eq!(reset.speed, 300);
    assert_eq!(sim.freeze_ms, 2000);
    // The recentred ball triggers no second goal.
    sim.check_for_goal();
    assert_eq!(sim.score_board.score_left, 1);
}

#[test]
fn goal_on_the_left_scores_right() {
    let mut sim = fresh_game(60);
    let mut ball = sim.ball.unwrap();
    ball.pos = Vec2i { x: -396, y: 0 };
    sim.ball = Some(ball);
    sim.check_for_goal();
    assert_eq!(sim.score_board.score_right, 1);
    assert_eq!(sim.score_board.score_left, 0);
}

#[test]
fn ball_inside_both_goal_lines_scores_nobody() {
    let mut sim = fresh_game(60);
    let mut ball = sim.ball.unwrap();
    ball.pos = Vec2i { x: 395, y: 0 }; // x_max is 395 for radius 10
    sim.ball = Some(ball);
    sim.check_for_goal();
    assert_eq!(sim.score_board.score_left, 0);
    assert_eq!(sim.score_board.score_right, 0);
}

#[test]
fn goal_freeze_holds_the_ball_then_releases_it() {
    let mut sim = fresh_game(60);
    let mut ball = sim.ball.unwrap();
    ball.pos = Vec2i { x: 398, y: 0 };
    sim.ball = Some(ball);
    sim.check_for_goal();
    assert_eq!(sim.freeze_ms, 2000);
    sim.ballmovment(500);
    assert_eq!(sim.ball.unwrap().pos, Vec2i { x: 0, y: 0 });
    assert_eq!(sim.freeze_ms, 1500);
    sim.ballmovment(1500);
    assert_eq!(sim.freeze_ms, 0);
    assert_eq!(sim.ball.unwrap().pos, Vec2i { x: 0, y: 0 });
    sim.ballmovment(100);
    assert_eq!(sim.ball.unwrap().pos, Vec2i { x: 30, y: 30 });
}

#[test]
fn right_edge_reflection_obeys_the_sign_rule() {
    // Ball just right of the right paddle (x = 370), overlapping with a
    // Right classification, moving toward it.
    let mut sim = fresh_game(60);
    let mut ball = sim.ball.unwrap();
    ball.pos = Vec2i { x: 378, y: 0 };
    ball.dir_x = -1;
    sim.ball = Some(ball);
    sim.collision_detection();
    let after = sim.ball.unwrap();
    assert_eq!(after.dir_x, 1); // reflected away from the paddle
    assert_eq!(after.speed, 400); // 300 + the configured increment
    // The same overlap with the ball already moving away: no reflection,
    // no speed change.
    let mut moving_away = after;
    moving_away.pos = Vec2i { x: 378, y: 0 };
    moving_away.speed = 300;
    moving_away.dir_x = 1;
    sim.ball = Some(moving_away);
    sim.collision_detection();
    let untouched = sim.ball.unwrap();
    assert_eq!(untouched.dir_x, 1);
    assert_eq!(untouched.speed, 300);
}

#[test]
fn left_edge_reflection_on_the_left_paddle() {
    let mut sim = fresh_game(60);
    let mut ball = sim.ball.unwrap();
    ball.pos = Vec2i { x: -378, y: 0 };
    ball.dir_x = 1;
    sim.ball = Some(ball);
    sim.collision_detection();
    // Hit classified Left (ball left of the paddle centre at -370),
    // ball moving right toward it: reflected.
    let after = sim.ball.unwrap();
    assert_eq!(after.dir_x, -1);
    assert_eq!(after.speed, 400);
}

#[test]
fn top_edge_reflection_needs_a_falling_ball() {
    // Ball just above the right paddle, well within its horizontal
    // span, falling onto it: vertical reflection.
    let mut sim = fresh_game(60);
    let mut ball = sim.ball.unwrap();
    ball.pos = Vec2i { x: 370, y: 53 };
    ball.dir_y = -1;
    sim.ball = Some(ball);
    sim.collision_detection();
    let after = sim.ball.unwrap();
    assert_eq!(after.dir_y, 1);
    assert_eq!(after.speed, 400);
}

#[test]
fn collide_classifies_sides() {
    let a = Vec2i { x: 0, y: 0 };
    assert_eq!(collide(a, 5, 5, Vec2i { x: 8, y: 0 }, 5, 5), Some(Collision::Left));
    assert_eq!(collide(a, 5, 5, Vec2i { x: -8, y: 0 }, 5, 5), Some(Collision::Right));
    assert_eq!(collide(a, 5, 5, Vec2i { x: 0, y: -8 }, 5, 5), Some(Collision::Top));
    assert_eq!(collide(a, 5, 5, Vec2i { x: 0, y: 8 }, 5, 5), Some(Collision::Bottom));
    assert_eq!(collide(a, 5, 5, Vec2i { x: 0, y: 0 }, 5, 5), Some(Collision::Inside));
    assert_eq!(collide(a, 5, 5, Vec2i { x: 10, y: 0 }, 5, 5), None); // touching edges
    assert_eq!(collide(a, 5, 5, Vec2i { x: 20, y: 20 }, 5, 5), None);
}

#[test]
fn game_over_exactly_at_winning_score() {
    // score_left = 4; one more left-side goal ends the match with
    // winner Left.
    let mut sim = fresh_game(60);
    sim.score_board.score_left = 4;
    sim.score_board.score_right = 3;
    let mut ball = sim.ball.unwrap();
    ball.pos = Vec2i { x: 398, y: 0 };
    ball.dir_x = 1;
    sim.ball = Some(ball);
    sim.step(MoveIntent::Idle, MoveIntent::Idle, 1, &idle_rolls());
    assert_eq!(sim.score_board.score_left, 5);
    assert_eq!(sim.phase, AppState::GameOver);
    assert_eq!(sim.end_game().unwrap(), "Left player won!");
    // GameOver is terminal: further ticks change nothing.
    let frozen_scores = (sim.score_board.score_left, sim.score_board.score_right);
    sim.step(MoveIntent::Up, MoveIntent::Up, 1000, &idle_rolls());
    assert_eq!(sim.phase, AppState::GameOver);
    assert_eq!((sim.score_board.score_left, sim.score_board.score_right), frozen_scores);
}

#[test]
fn no_game_over_below_winning_score() {
    let mut sim = fresh_game(60);
    sim.score_board.score_left = 4;
    sim.score_board.score_right = 4;
    sim.end_game_checker();
    assert_eq!(sim.phase, AppState::InGame);
    assert_eq!(sim.game_state.current_winning_player, None);
}

#[test]
fn right_side_can_win_too() {
    let mut sim = fresh_game(60);
    sim.score_board.score_right = 5;
    sim.end_game_checker();
    assert_eq!(sim.phase, AppState::GameOver);
    assert_eq!(sim.end_game().unwrap(), "Right player won!");
}

#[test]
fn full_rally_raises_speed_and_scores() {
    // Drive a whole rally through `step` only: the ball leaves the
    // centre rightward, bounces somewhere, and eventually a goal falls;
    // scores only ever grow and the phase stays InGame below the
    // winning score.
    let mut sim = fresh_game(60);
    let mut ticks = 0u32;
    while sim.score_board.score_left + sim.score_board.score_right == 0 && ticks < 1000 {
        sim.step(MoveIntent::Idle, MoveIntent::Idle, 16, &idle_rolls());
        ticks += 1;
    }
    assert_eq!(sim.score_board.score_left + sim.score_board.score_right, 1);
    assert_eq!(sim.phase, AppState::InGame);
    let ball = sim.ball.unwrap();
    assert_eq!((ball.pos.x, ball.pos.y), (0, 0));
    assert_eq!(ball.speed, 300);
}

#[test]
fn ball_reset_keeps_radius_and_direction() {
    let mut sim = fresh_game(60);
    let mut ball = sim.ball.unwrap();
    ball.pos = Vec2i { x: -400, y: 100 };
    ball.dir_x = -1;
    ball.dir_y = -1;
    sim.ball = Some(ball);
    sim.check_for_goal();
    let reset = sim.ball.unwrap();
    assert_eq!(reset.radius, 10);
    assert_eq!(reset.dir_x, -1);
    assert_eq!(reset.dir_y, -1);
}

#[test]
fn missing_ball_tick_runs_the_ball_free_systems() {
    // A full tick on a match that lost its ball: the ball systems
    // skip, while paddles, spawn timer and win check still run.
    let mut sim = fresh_game(60);
    sim.ball = None;
    sim.step(MoveIntent::Up, MoveIntent::Down, 100, &idle_rolls());
    assert_eq!(sim.left.y, 50);
    assert_eq!(sim.right.y, -50);
    assert!(sim.ball.is_none());
    assert_eq!(sim.score_board.score_left, 0);
    assert_eq!(sim.phase, AppState::InGame);
    for _ in 0..49 {
        sim.step(MoveIntent::Idle, MoveIntent::Idle, 100, &idle_rolls());
    }
    assert_eq!(sim.powerups.len(), 1); // the spawner fired at 5 seconds
}

#[test]
fn missing_ball_is_skipped_not_fatal() {
    // A match state without its ball must not crash a tick; the
    // dependent systems simply skip.
    let mut sim = fresh_game(60);
    sim.ball = None;
    sim.ballmovment(16);
    sim.collision_detection();
    sim.update_ball_direction();
    sim.check_for_goal();
    assert_eq!(sim.score_board.score_left, 0);
    assert_eq!(sim.score_board.score_right, 0);
}
