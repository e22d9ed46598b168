//! Building blocks shared by the simulation: arithmetic, chance, input and
//! the tile map.

pub mod gamepad;
pub mod math;
pub mod preloader;
pub mod renderer;
pub mod rng;
pub mod tiled;

use crate::engine::gamepad::TwinStick;
use vstd::prelude::*;

verus! {

/// What the host hands to the world for one tick: the tick counter, the
/// size of the window in fixed-point units, and the two controllers.
#[derive(Clone, Copy, PartialEq, Eq, Structural, Debug)]
pub struct GameContext {
    pub tick: u64,
    pub window_width: i32,
    pub window_height: i32,
    pub gamepad_1: TwinStick,
    pub gamepad_2: TwinStick,
}

} // verus!
