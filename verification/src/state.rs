//! Match bookkeeping: the state machine's phases, menu commands, the
//! score board, and the per-match state record.

use vstd::prelude::*;
use crate::config::{GameConfig, MAX_COUNT};
use crate::paddle::Side;

verus! {

/// The phases of the state machine. `Menu` is initial; `GameOver` is
/// terminal until an external reset.
#[derive(Clone, Copy, PartialEq, Eq, Structural, Debug)]
pub enum AppState {
    Menu,
    InGame,
    Paused,
    GameOver,
}

/// What a menu button asks for.
#[derive(Clone, Copy, PartialEq, Eq, Structural, Debug)]
pub enum ButtonCommands {
    Play,
    Quit,
}

/// Left and right goal counters; within a match they never decrease.
#[derive(Clone, Copy, PartialEq, Eq, Structural, Debug)]
pub struct ScoreBoard {
    pub score_left: u64,
    pub score_right: u64,
}

impl ScoreBoard {
    pub open spec fn wf(self) -> bool {
        &&& self.score_left <= MAX_COUNT
        &&& self.score_right <= MAX_COUNT
    }

    /// Both counters below the winning score, as they are whenever a
    /// tick begins.
    pub open spec fn below_winning(self, cfg: GameConfig) -> bool {
        &&& self.score_left < cfg.rules.winning_score
        &&& self.score_right < cfg.rules.winning_score
    }

    /// The score of `side`.
    pub open spec fn spec_of(self, side: Side) -> u64 {
        match side {
            Side::Left => self.score_left,
            Side::Right => self.score_right,
        }
    }

    pub fn new() -> (s: ScoreBoard)
        ensures
            s == (ScoreBoard { score_left: 0, score_right: 0 }),
            s.wf(),
    {
        ScoreBoard { score_left: 0, score_right: 0 }
    }
}

/// Per-match record: a round counter kept for information (the win
/// rule never consults it) and the winning side once the match ends.
#[derive(Clone, Copy, PartialEq, Eq, Structural, Debug)]
pub struct GameState {
    pub current_round: u64,
    pub current_winning_player: Option<Side>,
}

impl GameState {
    pub fn new() -> (g: GameState)
        ensures
            g == (GameState { current_round: 0, current_winning_player: None }),
            g.current_round == 0,
            g.current_winning_player is None,
    {
        GameState { current_round: 0, current_winning_player: None }
    }
}

} // verus!
