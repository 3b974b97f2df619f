//! The mode state machine: edge detection on consecutive switch readings.
//!
//! The machine trusts each reading as it comes. It applies no temporal
//! filtering, so every change between two consecutive readings is an edge.

use vstd::prelude::*;
use crate::switch::SwitchState;

verus! {

/// The editor mode that an edge of the switch selects.
#[derive(Clone, Copy, Debug, PartialEq, Eq, Structural)]
pub enum Mode {
    /// Command mode, entered when the switch is released.
    Normal,
    /// Insert mode, entered when the switch is pressed.
    Insert,
}

/// What a pair of consecutive readings amounts to.
#[derive(Clone, Copy, Debug, PartialEq, Eq, Structural)]
pub enum Transition {
    /// Both readings are the same.
    Unchanged,
    /// The switch went from pressed to released.
    EnteredNormal,
    /// The switch went from released to pressed.
    EnteredInsert,
}

/// The classification of a pair of consecutive readings.
pub open spec fn classify_spec(previous: SwitchState, current: SwitchState) -> Transition {
    match (previous, current) {
        (SwitchState::Pressed, SwitchState::Released) => Transition::EnteredNormal,
        (SwitchState::Released, SwitchState::Pressed) => Transition::EnteredInsert,
        _ => Transition::Unchanged,
    }
}

/// Classifies a pair of consecutive readings.
///
/// An edge is reported exactly when the two readings differ, and which edge
/// it is depends on the newer reading alone.
pub fn classify(previous: SwitchState, current: SwitchState) -> (transition: Transition)
    ensures
        transition == classify_spec(previous, current),
        transition == Transition::Unchanged <==> previous == current,
        transition == Transition::EnteredInsert <==> (previous == SwitchState::Released
            && current == SwitchState::Pressed),
        transition == Transition::EnteredNormal <==> (previous == SwitchState::Pressed
            && current == SwitchState::Released),
{
    match (previous, current) {
        (SwitchState::Pressed, SwitchState::Released) => Transition::EnteredNormal,
        (SwitchState::Released, SwitchState::Pressed) => Transition::EnteredInsert,
        _ => Transition::Unchanged,
    }
}

impl Transition {
    /// The mode that this transition enters, if it is an edge.
    pub open spec fn entered_spec(self) -> Option<Mode> {
        match self {
            Transition::Unchanged => None,
            Transition::EnteredNormal => Some(Mode::Normal),
            Transition::EnteredInsert => Some(Mode::Insert),
        }
    }

    /// Whether this transition is an edge.
    pub open spec fn fired(self) -> bool {
        self != Transition::Unchanged
    }

    /// The mode that this transition enters: `None` when nothing changed.
    pub fn entered(self) -> (mode: Option<Mode>)
        ensures
            mode == self.entered_spec(),
            mode.is_some() <==> self.fired(),
    {
        match self {
            Transition::Unchanged => None,
            Transition::EnteredNormal => Some(Mode::Normal),
            Transition::EnteredInsert => Some(Mode::Insert),
        }
    }
}

impl Mode {
    /// The transition that enters this mode.
    pub open spec fn entering(self) -> Transition {
        match self {
            Mode::Normal => Transition::EnteredNormal,
            Mode::Insert => Transition::EnteredInsert,
        }
    }

    /// The mode that a reading selects once the switch has moved to it.
    pub open spec fn of_switch(state: SwitchState) -> Mode {
        match state {
            SwitchState::Pressed => Mode::Insert,
            SwitchState::Released => Mode::Normal,
        }
    }
}

/// The mode state machine. Its whole state is the most recent reading.
#[derive(Clone, Copy, Debug, PartialEq, Eq)]
pub struct ModeStateMachine {
    previous: SwitchState,
}

impl View for ModeStateMachine {
    type V = SwitchState;

    /// The machine is modelled by the reading it holds.
    closed spec fn view(&self) -> SwitchState {
        self.previous
    }
}

impl ModeStateMachine {
    /// Starts the machine from the first reading taken at power-up.
    ///
    /// The first reading is the starting state: it is compared with nothing
    /// and raises no edge.
    pub fn new(first: SwitchState) -> (machine: ModeStateMachine)
        ensures
            machine@ == first,
    {
        ModeStateMachine { previous: first }
    }

    /// The reading that the next one will be compared with.
    pub fn previous(&self) -> (state: SwitchState)
        ensures
            state == self@,
    {
        self.previous
    }

    /// Takes in the next reading: classifies it against the stored one and
    /// stores it in its place.
    pub fn observe(&mut self, current: SwitchState) -> (transition: Transition)
        ensures
            transition == classify_spec(old(self)@, current),
            final(self)@ == current,
    {
        let transition = classify(self.previous, current);
        self.previous = current;
        transition
    }
}

} // verus!
