//! The logical state of the foot switch.

use vstd::prelude::*;

verus! {

/// One instantaneous reading of the switch.
///
/// The switch pin is a pull-up input wired active-low: the pin reads low
/// while the switch connects it to ground.
#[derive(Clone, Copy, Debug, PartialEq, Eq, Structural)]
pub enum SwitchState {
    /// The pin is pulled low.
    Pressed,
    /// The pin is not pulled low.
    Released,
}

impl SwitchState {
    /// The reading that a pin level stands for.
    pub open spec fn of_pin_low(is_low: bool) -> SwitchState {
        if is_low {
            SwitchState::Pressed
        } else {
            SwitchState::Released
        }
    }

    /// The other reading.
    pub open spec fn opposite(self) -> SwitchState {
        match self {
            SwitchState::Pressed => SwitchState::Released,
            SwitchState::Released => SwitchState::Pressed,
        }
    }

    /// Turns the answer to "is the pin low?" into a reading.
    pub fn from_pin_low(is_low: bool) -> (state: SwitchState)
        ensures
            state == SwitchState::of_pin_low(is_low),
            state == SwitchState::Pressed <==> is_low,
    {
        if is_low {
            SwitchState::Pressed
        } else {
            SwitchState::Released
        }
    }

    /// Whether the switch is held down.
    pub fn is_pressed(self) -> (pressed: bool)
        ensures
            pressed <==> self == SwitchState::Pressed,
            SwitchState::of_pin_low(pressed) == self,
    {
        match self {
            SwitchState::Pressed => true,
            SwitchState::Released => false,
        }
    }
}

} // verus!
