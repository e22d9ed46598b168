//! The state of one twin-stick controller during a tick.

use vstd::prelude::*;

verus! {

/// Two sticks and a trigger. Each axis is a fixed-point deflection, one
/// thousand for a stick pushed all the way.
#[derive(Clone, Copy, PartialEq, Eq, Structural, Debug)]
pub struct TwinStick {
    pub move_x_axis: i32,
    pub move_y_axis: i32,
    pub aim_x_axis: i32,
    pub aim_y_axis: i32,
    pub shoot: bool,
}

impl TwinStick {
    /// A controller at rest: both sticks centred, the trigger released.
    pub fn new() -> (stick: Self)
        ensures
            stick == (TwinStick {
                move_x_axis: 0,
                move_y_axis: 0,
                aim_x_axis: 0,
                aim_y_axis: 0,
                shoot: false,
            }),
    {
        TwinStick { move_x_axis: 0, move_y_axis: 0, aim_x_axis: 0, aim_y_axis: 0, shoot: false }
    }
}

} // verus!
