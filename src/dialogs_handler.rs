use vstd::prelude::*;

verus! {

/// The dialogs shown between levels; they hold no state of their own.
#[derive(Debug, Clone, Copy, PartialEq, Eq, Structural)]
pub struct DialogsHandler {}

/// The two dialogs: before a new level and after a lost game.
#[derive(Debug, Clone, Copy, PartialEq, Eq, Structural)]
pub enum DialogType {
    NextLevelDialog,
    GameOverDialog,
}

impl DialogsHandler {
    /// The space kept between two lines of a dialog, in thousandths of a unit.
    pub const PADDING: i64 = 15_000;

    pub fn new() -> (r: Self)
        ensures
            r == (DialogsHandler {}),
    {
        DialogsHandler {}
    }
}

} // verus!
