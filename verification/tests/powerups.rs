//! Power-up behaviour: periodic spawning, pickup effects, the speed
//! floor, and the multiplier reset at spawn time.

use pong_core::config::GameConfig;
use pong_core::engine::GameSim;
use pong_core::geom::Vec2i;
use pong_core::paddle::MoveIntent;
use pong_core::powerup::{PowerUp, PowerUpTimer, PowerUpType, SpawnRolls};
use pong_core::state::{AppState, ButtonCommands};
use rand::SeedableRng;

fn fresh_game() -> GameSim {
    let mut sim = GameSim::new(GameConfig::standard()).unwrap();
    sim.menu_action(ButtonCommands::Play, 60);
    sim
}

fn far_rolls() -> SpawnRolls {
    SpawnRolls { type_roll: 99, x: -250, y: -250 }
}

#[test]
fn timer_fires_exactly_at_the_period() {
    let mut t = PowerUpTimer::new(5000);
    assert!(!t.tick(4999));
    assert_eq!(t.acc_ms, 4999);
    assert!(t.tick(1));
    assert_eq!(t.acc_ms, 0);
    assert!(t.tick(10_001));
    assert_eq!(t.acc_ms, 1); // the overshoot is kept modulo the period
}

#[test]
fn spawning_is_periodic() {
    // A 5-second interval stepped in fixed 1-second ticks: no power-up
    // before the boundary, exactly one right after it, two after the
    // second boundary.
    let mut sim = fresh_game();
    for _ in 0..4 {
        sim.spawn_powerups(1000, &far_rolls());
        assert_eq!(sim.powerups.len(), 0);
    }
    sim.spawn_powerups(1000, &far_rolls());
    assert_eq!(sim.powerups.len(), 1);
    for _ in 0..4 {
        sim.spawn_powerups(1000, &far_rolls());
        assert_eq!(sim.powerups.len(), 1);
    }
    sim.spawn_powerups(1000, &far_rolls());
    assert_eq!(sim.powerups.len(), 2);
}

#[test]
fn spawn_uses_the_rolls() {
    let mut sim = fresh_game();
    let rolls = SpawnRolls { type_roll: 49, x: -120, y: 80 };
    sim.spawn_powerups(5000, &rolls);
    assert_eq!(sim.powerups.len(), 1);
    let p = sim.powerups[0];
    assert_eq!(p.id, 0);
    assert_eq!(p.pos, Vec2i { x: -120, y: 80 });
    assert_eq!(p.powerup_type, PowerUpType::Slowdown); // lower half of the roll range
    let mut again = fresh_game();
    again.spawn_powerups(5000, &SpawnRolls { type_roll: 50, x: 0, y: 0 });
    assert_eq!(again.powerups[0].powerup_type, PowerUpType::Speedup);
}

#[test]
fn spawn_resets_the_multipliers() {
    let mut sim = fresh_game();
    sim.left.speed_milli = 500;
    sim.right.speed_milli = 500;
    sim.spawn_powerups(4999, &far_rolls());
    assert_eq!(sim.left.speed_milli, 500); // not fired yet
    sim.spawn_powerups(1, &far_rolls());
    assert_eq!(sim.left.speed_milli, 1000);
    assert_eq!(sim.right.speed_milli, 1000);
}

#[test]
fn speedup_pickup_raises_speed_and_disappears() {
    let mut sim = fresh_game();
    sim.powerups.push(PowerUp {
        id: 7,
        pos: Vec2i { x: 10, y: 10 },
        powerup_type: PowerUpType::Speedup,
    });
    sim.powerup_collisions();
    assert_eq!(sim.ball.unwrap().speed, 400);
    assert!(sim.powerups.is_empty());
    assert_eq!(sim.left.speed_milli, 1000); // a Speedup leaves the paddles alone
}

#[test]
fn slowdown_pickup_lowers_speed_and_halves_paddles() {
    let mut sim = fresh_game();
    sim.powerups.push(PowerUp {
        id: 1,
        pos: Vec2i { x: 0, y: 0 },
        powerup_type: PowerUpType::Slowdown,
    });
    sim.powerup_collisions();
    assert_eq!(sim.ball.unwrap().speed, 200);
    assert_eq!(sim.left.speed_milli, 500);
    assert_eq!(sim.right.speed_milli, 500);
    assert!(sim.powerups.is_empty());
}

#[test]
fn repeated_slowdowns_stop_at_the_floor() {
    // Three Slowdowns in one pass: 300 -> 200 -> 100, then clamped to
    // the configured minimum of 100; the speed never goes lower.
    let mut sim = fresh_game();
    for id in 0..3 {
        sim.powerups.push(PowerUp {
            id,
            pos: Vec2i { x: 0, y: 0 },
            powerup_type: PowerUpType::Slowdown,
        });
    }
    sim.powerup_collisions();
    assert_eq!(sim.ball.unwrap().speed, 100);
    assert!(sim.powerups.is_empty());
}

#[test]
fn distant_powerup_survives_the_pass() {
    let mut sim = fresh_game();
    sim.powerups.push(PowerUp {
        id: 3,
        pos: Vec2i { x: 200, y: 200 },
        powerup_type: PowerUpType::Speedup,
    });
    sim.powerup_collisions();
    assert_eq!(sim.powerups.len(), 1);
    assert_eq!(sim.powerups[0].id, 3);
    assert_eq!(sim.ball.unwrap().speed, 300);
}

#[test]
fn mixed_pass_keeps_order_of_survivors() {
    let mut sim = fresh_game();
    sim.powerups.push(PowerUp {
        id: 0,
        pos: Vec2i { x: -200, y: 0 },
        powerup_type: PowerUpType::Speedup,
    });
    sim.powerups.push(PowerUp {
        id: 1,
        pos: Vec2i { x: 5, y: -5 },
        powerup_type: PowerUpType::Speedup,
    });
    sim.powerups.push(PowerUp {
        id: 2,
        pos: Vec2i { x: 250, y: 100 },
        powerup_type: PowerUpType::Slowdown,
    });
    sim.powerup_collisions();
    assert_eq!(sim.ball.unwrap().speed, 400); // only the covered one applies
    assert_eq!(sim.powerups.len(), 2);
    assert_eq!(sim.powerups[0].id, 0);
    assert_eq!(sim.powerups[1].id, 2);
    assert_eq!(sim.left.speed_milli, 1000); // the surviving Slowdown did nothing
}

#[test]
fn powerups_spawn_during_full_steps() {
    // Full ticks of one second: the first four spawn nothing, the
    // fifth spawns one power-up far from the ball's path.
    let mut sim = fresh_game();
    for _ in 0..4 {
        sim.step(MoveIntent::Idle, MoveIntent::Idle, 1000, &far_rolls());
        assert_eq!(sim.powerups.len(), 0);
    }
    sim.step(MoveIntent::Idle, MoveIntent::Idle, 1000, &far_rolls());
    assert_eq!(sim.powerups.len(), 1);
    assert_eq!(sim.phase, AppState::InGame);
}

#[test]
fn seeded_rng_drives_a_spawn_within_the_region() {
    let mut sim = fresh_game();
    let mut rng = rand::rngs::StdRng::seed_from_u64(42);
    // One 5-second tick fires the spawn timer immediately.
    sim.step_with_rng(MoveIntent::Idle, MoveIntent::Idle, 5000, &mut rng);
    assert_eq!(sim.timer.acc_ms, 0);
    assert!(sim.powerups.len() <= 1);
    if let Some(p) = sim.powerups.first() {
        assert!(-300 <= p.pos.x && p.pos.x < 300);
        assert!(-300 <= p.pos.y && p.pos.y < 300);
    }
    // The same seed replays the same match.
    let mut replay = fresh_game();
    let mut rng2 = rand::rngs::StdRng::seed_from_u64(42);
    replay.step_with_rng(MoveIntent::Idle, MoveIntent::Idle, 5000, &mut rng2);
    assert_eq!(replay.powerups.len(), sim.powerups.len());
    if !sim.powerups.is_empty() {
        assert_eq!(replay.powerups[0].pos, sim.powerups[0].pos);
        assert_eq!(replay.powerups[0].powerup_type, sim.powerups[0].powerup_type);
    }
}
