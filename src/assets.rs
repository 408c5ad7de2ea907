use vstd::prelude::*;

use crate::gameplay_entities::Size;

verus! {

/// The footprints of the sprites that the game draws: the width and height
/// of each picture, which the simulation reads to build bounding boxes.
#[derive(Debug, Clone, Copy, PartialEq, Eq, Structural)]
pub struct Assets {
    pub brick_survived: Size,
    pub brick_touched: Size,
    pub skateboard_normal: Size,
    pub skateboard_rebound: Size,
    pub ball_flying: Size,
}

} // verus!
