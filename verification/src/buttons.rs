//! The semantic event model: every physical input the controller can report,
//! the discrete zones of a joystick axis, and the decode error.

use vstd::prelude::*;

verus! {

/// A physical input on the controller. One raw report may yield zero, one, or
/// several of these simultaneously (a diagonal D-pad press yields two).
#[derive(Debug, Clone, Copy, PartialEq, Eq, Hash, Structural)]
pub enum ControllerButton {
    UpDpad,
    RightDpad,
    DownDpad,
    LeftDpad,
    Square,
    Cross,
    Circle,
    Triangle,
    L1,
    L2,
    R1,
    R2,
    LeftJoystickPress,
    RightJoystickPress,
    Share,
    Options,
}

/// The discrete zone a single joystick axis rests in. A vertical axis is
/// `Up`, `Center` or `Down`; a horizontal axis is `Left`, `Center` or `Right`.
#[derive(Debug, Clone, Copy, PartialEq, Eq, Hash, Structural)]
pub enum JoystickDirection {
    Up,
    Down,
    Center,
    Left,
    Right,
}

/// Rejection of a report whose D-pad nibble lies outside the documented
/// range 0–8. Such a value never comes from a well-behaved device, so it is
/// surfaced loudly instead of being coerced to some default direction.
#[derive(Debug, Clone, Copy, PartialEq, Eq, Structural)]
pub struct DecodeError {
    /// The offending low nibble of the action byte, in 9..=15.
    pub nibble: u8,
}

} // verus!
