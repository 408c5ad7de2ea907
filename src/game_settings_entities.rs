use vstd::prelude::*;

use crate::assets::Assets;
pub use crate::game_workflow_state_reducer::GameWorkflowState;

verus! {

/// The held-key state: the input axis, -1 (left), 0 or 1 (right).
#[derive(Debug, Clone, Copy, PartialEq, Eq, Structural)]
pub struct InputState {
    pub movement: i64,
}

impl Default for InputState {
    fn default() -> (r: Self)
        ensures
            r.movement == 0,
    {
        InputState { movement: 0 }
    }
}

/// The size of the screen, in thousandths of a unit.
#[derive(Debug, Clone, Copy, PartialEq, Eq, Structural)]
pub struct ScreenSize {
    pub screen_width: u32,
    pub screen_height: u32,
}

impl Default for ScreenSize {
    fn default() -> (r: Self)
        ensures
            r.screen_width == 0 && r.screen_height == 0,
    {
        ScreenSize { screen_width: 0, screen_height: 0 }
    }
}

/// What the game knows besides the simulation of a level.
#[derive(Debug, Clone, Copy, PartialEq, Eq, Structural)]
pub struct GameSettingsState {
    pub assets: Assets,
    pub input: InputState,
    pub screen_size: ScreenSize,
    pub score_details: ScoreDetails,
}

/// The workflow state and the score.
#[derive(Debug, Clone, Copy, PartialEq, Eq, Structural)]
pub struct ScoreDetails {
    pub game_workflow_state: GameWorkflowState,
    pub score: Score,
}

/// The bricks broken in the current attempt, the level, and the best result
/// so far.
#[derive(Debug, Clone, Copy, PartialEq, Eq, Structural)]
pub struct Score {
    pub score_result: usize,
    pub level: i32,
    pub max_score_result: usize,
}

impl ScoreDetails {
    /// A game at `level`, with `max_score` as the best result so far, about
    /// to play with nothing broken yet.
    pub fn new(level: i32, max_score: usize) -> (r: Self)
        ensures
            r.game_workflow_state == GameWorkflowState::Play,
            r.score == (Score { score_result: 0, level, max_score_result: max_score }),
    {
        let score = Score { score_result: 0, level, max_score_result: max_score };
        ScoreDetails { game_workflow_state: GameWorkflowState::Play, score }
    }
}

} // verus!
