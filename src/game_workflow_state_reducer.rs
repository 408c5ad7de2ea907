use vstd::prelude::*;

verus! {

/// The screen that the game shows: the home page before a level, a level
/// being played, or the end of a lost game.
#[derive(Debug, Clone, Copy, PartialEq, Eq, Structural)]
pub enum GameWorkflowState {
    NextLevel,
    Play,
    GameOver,
}

/// What the player or the game asks the workflow to do.
#[derive(Debug, Clone, Copy, PartialEq, Eq, Structural)]
pub enum GameWorkflowIntent {
    StartGame,
    Lose,
    Win,
    GoToHomePage,
}

/// A rejected transition: `intent` is not allowed in `state`.
#[derive(Debug, Clone, Copy, PartialEq, Eq, Structural)]
pub enum WorkflowError {
    InvalidTransition { state: GameWorkflowState, intent: GameWorkflowIntent },
}

/// The transition table: the state that `intent` leads to from `state`, or
/// `None` where the pair is not allowed.
pub open spec fn transition(
    state: GameWorkflowState,
    intent: GameWorkflowIntent,
) -> Option<GameWorkflowState> {
    match (state, intent) {
        (GameWorkflowState::NextLevel, GameWorkflowIntent::StartGame) => Some(
            GameWorkflowState::Play,
        ),
        (GameWorkflowState::Play, GameWorkflowIntent::Lose) => Some(GameWorkflowState::GameOver),
        (GameWorkflowState::Play, GameWorkflowIntent::Win) => Some(GameWorkflowState::NextLevel),
        (GameWorkflowState::GameOver, GameWorkflowIntent::GoToHomePage) => Some(
            GameWorkflowState::NextLevel,
        ),
        _ => None,
    }
}

/// The result that the reducer owes for `(state, intent)`: the next state,
/// or the error that names the rejected pair.
pub open spec fn reduced(
    state: GameWorkflowState,
    intent: GameWorkflowIntent,
) -> Result<GameWorkflowState, WorkflowError> {
    match transition(state, intent) {
        Some(next) => Ok(next),
        None => Err(WorkflowError::InvalidTransition { state, intent }),
    }
}

/// The state held after asking `intent` of `state`: the next state where
/// the table allows the pair, else `state` itself.
pub open spec fn applied(state: GameWorkflowState, intent: GameWorkflowIntent) -> GameWorkflowState {
    match transition(state, intent) {
        Some(next) => next,
        None => state,
    }
}

/// Applies `intent` to `state`.
pub fn reduce(state: GameWorkflowState, intent: GameWorkflowIntent) -> (r: Result<
    GameWorkflowState,
    WorkflowError,
>)
    ensures
        r == reduced(state, intent),
{
    match intent {
        GameWorkflowIntent::StartGame => reduce_start_game_intent(state),
        GameWorkflowIntent::Lose => reduce_lose_intent(state),
        GameWorkflowIntent::Win => reduce_win_intent(state),
        GameWorkflowIntent::GoToHomePage => reduce_go_to_home_page_intent(state),
    }
}

/// Leaves the home page for a new level.
pub fn reduce_start_game_intent(state: GameWorkflowState) -> (r: Result<
    GameWorkflowState,
    WorkflowError,
>)
    ensures
        r == reduced(state, GameWorkflowIntent::StartGame),
{
    match state {
        GameWorkflowState::NextLevel => Ok(GameWorkflowState::Play),
        _ => Err(WorkflowError::InvalidTransition { state, intent: GameWorkflowIntent::StartGame }),
    }
}

/// Ends the level being played with a loss.
pub fn reduce_lose_intent(state: GameWorkflowState) -> (r: Result<
    GameWorkflowState,
    WorkflowError,
>)
    ensures
        r == reduced(state, GameWorkflowIntent::Lose),
{
    match state {
        GameWorkflowState::Play => Ok(GameWorkflowState::GameOver),
        _ => Err(WorkflowError::InvalidTransition { state, intent: GameWorkflowIntent::Lose }),
    }
}

/// Ends the level being played with a win.
pub fn reduce_win_intent(state: GameWorkflowState) -> (r: Result<
    GameWorkflowState,
    WorkflowError,
>)
    ensures
        r == reduced(state, GameWorkflowIntent::Win),
{
    match state {
        GameWorkflowState::Play => Ok(GameWorkflowState::NextLevel),
        _ => Err(WorkflowError::InvalidTransition { state, intent: GameWorkflowIntent::Win }),
    }
}

/// Leaves the game-over screen for the home page.
pub fn reduce_go_to_home_page_intent(state: GameWorkflowState) -> (r: Result<
    GameWorkflowState,
    WorkflowError,
>)
    ensures
        r == reduced(state, GameWorkflowIntent::GoToHomePage),
{
    match state {
        GameWorkflowState::GameOver => Ok(GameWorkflowState::NextLevel),
        _ => Err(
            WorkflowError::InvalidTransition { state, intent: GameWorkflowIntent::GoToHomePage },
        ),
    }
}

/// Applies `intent` to the state held in `state`: on success the state
/// becomes the next one; on a rejected pair it is left as it was and the
/// error names the pair.
pub fn apply_intent(state: &mut GameWorkflowState, intent: GameWorkflowIntent) -> (r: Result<
    (),
    WorkflowError,
>)
    ensures
        *final(state) == applied(*old(state), intent),
        r == match transition(*old(state), intent) {
            Some(_) => Ok(()),
            None => Err(WorkflowError::InvalidTransition { state: *old(state), intent }),
        },
{
    match reduce(*state, intent) {
        Ok(next) => {
            *state = next;
            Ok(())
        },
        Err(e) => Err(e),
    }
}

/// A rejected intent never changes the workflow state, whatever the state
/// and the intent, and the error names the rejected pair.
pub proof fn lemma_rejected_intent_keeps_state(
    state: GameWorkflowState,
    intent: GameWorkflowIntent,
)
    requires
        transition(state, intent) is None,
    ensures
        applied(state, intent) == state,
        reduced(state, intent) == Err::<GameWorkflowState, WorkflowError>(
            WorkflowError::InvalidTransition { state, intent },
        ),
{
}

} // verus!
