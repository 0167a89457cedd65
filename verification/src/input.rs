//! Canonical, backend-agnostic input vocabulary.
//!
//! Capture backends translate whatever their hardware reports into these
//! shapes before the events reach the slot manager. Button values are
//! integers (zero means released, anything else pressed); axis values are
//! already scaled to the wire range `[-32767, 32767]`, so no floating-point
//! arithmetic happens inside the library.

use vstd::prelude::*;

verus! {

/// The buttons that every supported gamepad exposes.
#[derive(Clone, Copy, PartialEq, Eq, Structural, Debug)]
pub enum InputButton {
    North,
    South,
    East,
    West,
    LeftBumper,
    LeftTrigger,
    RightBumper,
    RightTrigger,
    Start,
    Select,
    DPadUp,
    DPadDown,
    DPadLeft,
    DPadRight,
}

/// The analog stick axes that every supported gamepad exposes.
#[derive(Clone, Copy, PartialEq, Eq, Structural, Debug)]
pub enum InputAxis {
    LeftX,
    LeftY,
    RightX,
    RightY,
}

/// One canonical event from a capture backend.
///
/// The first field is the backend-assigned source id of the physical device,
/// unique only within that backend's current session.
#[derive(Clone, Copy, PartialEq, Eq, Structural, Debug)]
pub enum InputEvent {
    /// A button changed: `(source id, button, value)`; value 0 means released.
    GamepadButton(usize, InputButton, i32),
    /// A stick axis moved: `(source id, axis, value in [-32767, 32767])`.
    GamepadAxis(usize, InputAxis, i32),
}

impl InputEvent {
    /// The source id carried by this event.
    pub open spec fn spec_gamepad_id(&self) -> usize {
        match *self {
            InputEvent::GamepadButton(id, _, _) => id,
            InputEvent::GamepadAxis(id, _, _) => id,
        }
    }

    /// Returns the source id of the physical device this event came from.
    pub fn get_gamepad_id(&self) -> (id: &usize)
        ensures
            *id == self.spec_gamepad_id(),
    {
        match self {
            InputEvent::GamepadButton(id, _, _) => id,
            InputEvent::GamepadAxis(id, _, _) => id,
        }
    }
}

} // verus!
