//! Configuration validation and display-text behaviour.

use pong_core::config::{ConfigError, GameConfig, GameRules};
use pong_core::engine::GameSim;
use pong_core::paddle::Side;
use pong_core::state::AppState;
use pong_core::text::{decimal_string, score_text, winner_text};

fn standard() -> GameConfig {
    GameConfig::standard()
}

#[test]
fn standard_config_is_valid() {
    assert_eq!(standard().validate(), Ok(()));
    assert!(GameSim::new(standard()).is_ok());
}

#[test]
fn zero_screen_dimension_is_rejected() {
    let mut cfg = standard();
    cfg.screen_width = 0;
    assert_eq!(cfg.validate(), Err(ConfigError::ScreenDimensions));
    assert!(GameSim::new(cfg).is_err());
}

#[test]
fn negative_screen_dimension_is_rejected() {
    let mut cfg = standard();
    cfg.screen_height = -600;
    assert_eq!(cfg.validate(), Err(ConfigError::ScreenDimensions));
}

#[test]
fn zero_winning_score_is_rejected() {
    let mut cfg = standard();
    cfg.rules = GameRules { max_rounds: 3, winning_score: 0 };
    assert_eq!(cfg.validate(), Err(ConfigError::WinRule));
}

#[test]
fn paddle_taller_than_screen_is_rejected() {
    let mut cfg = standard();
    cfg.paddle_half_height = 301;
    assert_eq!(cfg.validate(), Err(ConfigError::PaddleGeometry));
}

#[test]
fn ball_larger_than_screen_is_rejected() {
    let mut cfg = standard();
    cfg.ball_radius = 601;
    assert_eq!(cfg.validate(), Err(ConfigError::BallGeometry));
}

#[test]
fn unordered_speeds_are_rejected() {
    let mut cfg = standard();
    cfg.ball_min_speed = 400;
    assert_eq!(cfg.validate(), Err(ConfigError::SpeedRange));
}

#[test]
fn zero_powerup_delta_is_rejected() {
    let mut cfg = standard();
    cfg.powerup_speedup = 0;
    assert_eq!(cfg.validate(), Err(ConfigError::PowerUpSettings));
}

#[test]
fn zero_powerup_interval_is_rejected() {
    let mut cfg = standard();
    cfg.powerup_interval_ms = 0;
    assert_eq!(cfg.validate(), Err(ConfigError::TimerSettings));
}

#[test]
fn decimal_rendering() {
    assert_eq!(decimal_string(0), "0");
    assert_eq!(decimal_string(7), "7");
    assert_eq!(decimal_string(10), "10");
    assert_eq!(decimal_string(105), "105");
    assert_eq!(decimal_string(12345), "12345");
}

#[test]
fn score_text_format() {
    assert_eq!(score_text(0, 0), "0 : 0");
    assert_eq!(score_text(3, 7), "3 : 7");
    assert_eq!(score_text(12, 105), "12 : 105");
}

#[test]
fn winner_text_format() {
    assert_eq!(winner_text(Side::Left), "Left player won!");
    assert_eq!(winner_text(Side::Right), "Right player won!");
}

#[test]
fn scoreboard_text_follows_scores() {
    let mut sim = GameSim::new(standard()).unwrap();
    assert_eq!(sim.update_scoreboard(), "0 : 0");
    sim.score_board.score_left = 3;
    sim.score_board.score_right = 7;
    assert_eq!(sim.update_scoreboard(), "3 : 7");
}

#[test]
fn game_over_banner_only_after_game_over() {
    let mut sim = GameSim::new(standard()).unwrap();
    assert_eq!(sim.end_game(), None);
    sim.menu_action(pong_core::state::ButtonCommands::Play, 60);
    sim.score_board.score_left = 5;
    sim.end_game_checker();
    assert_eq!(sim.phase, AppState::GameOver);
    assert_eq!(sim.end_game().unwrap(), "Left player won!");
}
