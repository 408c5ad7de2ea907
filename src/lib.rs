//! Simulation core of a breakout-style arcade game: geometry, the game
//! workflow state machine, the brick wall, the ball, the paddle and the
//! per-tick orchestration that ties them together.
//!
//! Every length and coordinate is a fixed-point number stored as an integer
//! count of thousandths of a screen unit, and every time step is a count of
//! microseconds.

pub mod math;
pub mod game_workflow_state_reducer;
pub mod assets;
pub mod gameplay_entities;
pub mod game_settings_entities;
pub mod dialogs_handler;
pub mod event_handler_wrapper;
