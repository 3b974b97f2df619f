//! The control loop: what one pass over a fresh reading decides.
//!
//! The driver owns the hardware. Each pass it services the USB stack, samples
//! the switch, and hands the reading to [`ControlLoop::iterate`]. On an edge
//! it gets back the actions to carry out before the next pass; while an
//! emission is under way the switch is not sampled.

use vstd::prelude::*;
use crate::action::Action;
use crate::emitter::{emit, emit_spec};
use crate::machine::{classify_spec, ModeStateMachine, Transition};
use crate::switch::SwitchState;

verus! {

/// The actions that answer `transition`, in order: none when nothing
/// changed; on an edge, the indicator first, then the key press.
pub open spec fn react_spec(transition: Transition) -> Seq<Action> {
    match transition.entered_spec() {
        None => Seq::empty(),
        Some(mode) => seq![Action::SetIndicator(mode.indicator_level_spec())] + emit_spec(
            mode.key_code_spec(),
        ),
    }
}

/// Plans the reaction to `transition`.
///
/// Nothing is done unless an edge fired. On an edge the indicator is driven
/// to the level of the mode entered, and the key of that mode is pressed and
/// released once.
pub fn react(transition: Transition) -> (actions: Option<[Action; 5]>)
    ensures
        actions.is_some() <==> transition.fired(),
        match actions {
            Some(planned) => planned@ == react_spec(transition),
            None => react_spec(transition) == Seq::<Action>::empty(),
        },
{
    match transition.entered() {
        None => None,
        Some(mode) => {
            let press = emit(mode.key_code());
            let planned = [
                Action::SetIndicator(mode.indicator_level()),
                press[0],
                press[1],
                press[2],
                press[3],
            ];
            assert(planned@ =~= react_spec(transition));
            Some(planned)
        },
    }
}

/// What one pass of the control loop decided.
#[derive(Clone, Copy, Debug, PartialEq, Eq)]
pub struct Iteration {
    /// How the fresh reading compares with the one before it.
    pub transition: Transition,
    /// The actions to carry out before the next pass, if an edge fired.
    pub actions: Option<[Action; 5]>,
}

/// The control loop's state between passes: the mode state machine, and
/// with it the single stored reading.
#[derive(Clone, Copy, Debug, PartialEq, Eq)]
pub struct ControlLoop {
    machine: ModeStateMachine,
}

impl View for ControlLoop {
    type V = SwitchState;

    /// The loop is modelled by the reading that the next one is compared
    /// with.
    closed spec fn view(&self) -> SwitchState {
        self.machine@
    }
}

impl ControlLoop {
    /// Starts the loop from the reading taken at power-up. Whatever the
    /// switch asserts then is the starting state, and no edge is raised
    /// for it.
    pub fn new(first: SwitchState) -> (control: ControlLoop)
        ensures
            control@ == first,
    {
        ControlLoop { machine: ModeStateMachine::new(first) }
    }

    /// The reading that the next one will be compared with.
    pub fn previous(&self) -> (state: SwitchState)
        ensures
            state == self@,
    {
        self.machine.previous()
    }

    /// Runs the deciding part of one pass: classifies `reading` against the
    /// stored one, plans the reaction if an edge fired, and stores `reading`
    /// for the next pass.
    pub fn iterate(&mut self, reading: SwitchState) -> (pass: Iteration)
        ensures
            final(self)@ == reading,
            pass.transition == classify_spec(old(self)@, reading),
            pass.actions.is_some() <==> old(self)@ != reading,
            match pass.actions {
                Some(planned) => planned@ == react_spec(pass.transition),
                None => react_spec(pass.transition) == Seq::<Action>::empty(),
            },
    {
        let transition = self.machine.observe(reading);
        let actions = react(transition);
        Iteration { transition, actions }
    }
}

} // verus!
