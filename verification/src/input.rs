//! Continuous controller input: joystick axes and canvas touches.
//!
//! Every scalar of the wire protocol is a single-precision IEEE-754 number.
//! The values are only stored and handed on, never computed with, so each one
//! is carried by its 32-bit pattern (`f32::to_bits` / `f32::from_bits`).

use vstd::prelude::*;

verus! {

/// The latest position of both joysticks.
///
/// Each field is the bit pattern of a single-precision number. The all-zero
/// pattern is `0.0`, so the neutral command is all zeroes.
#[derive(Clone, Copy, Debug, PartialEq, Eq, Structural)]
pub struct GamepadCommand {
    pub left_x: u32,
    pub left_y: u32,
    pub right_x: u32,
    pub right_y: u32,
}

impl GamepadCommand {
    /// Both sticks centred.
    pub open spec fn neutral() -> GamepadCommand {
        GamepadCommand { left_x: 0, left_y: 0, right_x: 0, right_y: 0 }
    }

    /// A command from the bit patterns of its four axes.
    pub fn new(left_x: u32, left_y: u32, right_x: u32, right_y: u32) -> (command: GamepadCommand)
        ensures
            command == (GamepadCommand { left_x, left_y, right_x, right_y }),
    {
        GamepadCommand { left_x, left_y, right_x, right_y }
    }
}

impl Default for GamepadCommand {
    fn default() -> (command: GamepadCommand)
        ensures
            command == GamepadCommand::neutral(),
    {
        GamepadCommand { left_x: 0, left_y: 0, right_x: 0, right_y: 0 }
    }
}

/// One touch gesture on the client's canvas: where the finger went down and
/// where it came up, with the canvas dimensions at that moment.
///
/// Each field is the bit pattern of a single-precision number.
#[derive(Clone, Copy, Debug, PartialEq, Eq, Structural)]
pub struct CanvasTouch {
    pub width: u32,
    pub height: u32,
    pub down_x: u32,
    pub down_y: u32,
    pub up_x: u32,
    pub up_y: u32,
}

impl CanvasTouch {
    /// The touch whose six scalars are all `0.0`.
    pub open spec fn zero() -> CanvasTouch {
        CanvasTouch { width: 0, height: 0, down_x: 0, down_y: 0, up_x: 0, up_y: 0 }
    }
}

impl Default for CanvasTouch {
    fn default() -> (touch: CanvasTouch)
        ensures
            touch == CanvasTouch::zero(),
    {
        CanvasTouch { width: 0, height: 0, down_x: 0, down_y: 0, up_x: 0, up_y: 0 }
    }
}

} // verus!
