//! Collision resolution between the ball and a paddle: AABB overlap,
//! side classification, and sign-conditioned reflection with escalating
//! speed.

use vstd::prelude::*;
use crate::ball::{spec_speed_up, Ball};
use crate::config::GameConfig;
use crate::geom::{collide, spec_collide, Collision, Vec2i};
use crate::paddle::Player;

verus! {

/// Half-extent of the ball's collision box against a paddle: half of
/// the radius padded by the collision margin, truncated to whole
/// units.
pub open spec fn spec_ball_box_half(cfg: GameConfig) -> int {
    (cfg.ball_radius + cfg.collision_margin) / 2
}

/// Which side of the paddle the ball penetrated, if they overlap at
/// all.
pub open spec fn spec_ball_paddle_hit(b: Ball, p: Player, cfg: GameConfig) -> Option<Collision> {
    spec_collide(
        b.pos,
        spec_ball_box_half(cfg),
        spec_ball_box_half(cfg),
        Vec2i { x: p.x, y: p.y },
        cfg.paddle_half_width as int,
        cfg.paddle_half_height as int,
    )
}

/// The reflection rule on the horizontal axis, conditioned on the
/// current direction so a ball already moving away is left alone: a
/// hit on the paddle's left side reflects only a rightward ball, a hit
/// on its right side only a leftward ball.
pub open spec fn spec_reflects_x(b: Ball, hit: Option<Collision>) -> bool {
    match hit {
        Some(Collision::Left) => b.dir_x == 1,
        Some(Collision::Right) => b.dir_x == -1,
        _ => false,
    }
}

/// The reflection rule on the vertical axis: a hit on the paddle's top
/// reflects only a falling ball, a hit on its bottom only a climbing
/// ball.
pub open spec fn spec_reflects_y(b: Ball, hit: Option<Collision>) -> bool {
    match hit {
        Some(Collision::Top) => b.dir_y == -1,
        Some(Collision::Bottom) => b.dir_y == 1,
        _ => false,
    }
}

/// The ball after resolving one paddle: each reflected axis negates
/// its direction sign and raises the speed by the configured
/// increment, up to the configured ceiling.
pub open spec fn spec_resolve_hit(b: Ball, p: Player, cfg: GameConfig) -> Ball {
    let hit = spec_ball_paddle_hit(b, p, cfg);
    let bumped = spec_speed_up(
        b.speed as int,
        cfg.speed_increment as int,
        cfg.ball_max_speed as int,
    ) as i64;
    if spec_reflects_x(b, hit) {
        Ball { dir_x: (0 - b.dir_x) as i64, speed: bumped, ..b }
    } else if spec_reflects_y(b, hit) {
        Ball { dir_y: (0 - b.dir_y) as i64, speed: bumped, ..b }
    } else {
        b
    }
}

/// Resolve the ball against one paddle: classify the overlap side,
/// reflect the matching direction component only when the ball moves
/// toward the paddle on that axis, and raise the speed by the
/// configured increment for the reflected axis.
pub fn resolve_paddle_hit(b: &mut Ball, p: &Player, cfg: &GameConfig)
    requires
        cfg.valid(),
        old(b).wf(*cfg),
        old(b).in_flight(),
        p.wf(*cfg),
    ensures
        *final(b) == spec_resolve_hit(*old(b), *p, *cfg),
        final(b).wf(*cfg),
        final(b).pos == old(b).pos,
        final(b).radius == old(b).radius,
        final(b).speed >= old(b).speed,
{
    let half: i64 = (cfg.ball_radius + cfg.collision_margin) / 2;
    let hit = collide(
        b.pos,
        half,
        half,
        Vec2i { x: p.x, y: p.y },
        cfg.paddle_half_width,
        cfg.paddle_half_height,
    );
    let reflect_x: bool;
    let reflect_y: bool;
    match hit {
        Some(Collision::Left) => {
            reflect_x = b.dir_x == 1;
            reflect_y = false;
        },
        Some(Collision::Right) => {
            reflect_x = b.dir_x == -1;
            reflect_y = false;
        },
        Some(Collision::Top) => {
            reflect_x = false;
            reflect_y = b.dir_y == -1;
        },
        Some(Collision::Bottom) => {
            reflect_x = false;
            reflect_y = b.dir_y == 1;
        },
        _ => {
            reflect_x = false;
            reflect_y = false;
        },
    }
    let bumped: i64 = if b.speed + cfg.speed_increment <= cfg.ball_max_speed {
        b.speed + cfg.speed_increment
    } else {
        cfg.ball_max_speed
    };
    if reflect_x {
        b.dir_x = -b.dir_x;
        b.speed = bumped;
    } else if reflect_y {
        b.dir_y = -b.dir_y;
        b.speed = bumped;
    }
}

/// The sign rule at a paddle's right edge: a ball overlapping with a
/// `Right` classification reflects to the positive direction and gains
/// the configured speed increment exactly when it was moving toward
/// the paddle; a ball already moving away is left untouched.
pub proof fn lemma_right_hit_sign_rule(b: Ball, p: Player, cfg: GameConfig)
    requires
        cfg.valid(),
        b.wf(cfg),
        spec_ball_paddle_hit(b, p, cfg) == Some(Collision::Right),
    ensures
        b.dir_x == -1 ==> spec_resolve_hit(b, p, cfg).dir_x == 1,
        b.dir_x == -1 && b.speed + cfg.speed_increment <= cfg.ball_max_speed ==> spec_resolve_hit(
            b,
            p,
            cfg,
        ).speed == b.speed + cfg.speed_increment,
        b.dir_x == 1 ==> spec_resolve_hit(b, p, cfg) == b,
{
}

} // verus!
