//! What the clutch asks its driver to do.

use vstd::prelude::*;
use crate::report::KeyboardReport;

verus! {

/// Level of the status indicator pin.
#[derive(Clone, Copy, Debug, PartialEq, Eq, Structural)]
pub enum Level {
    /// Indicator off.
    Low,
    /// Indicator on.
    High,
}

/// One outside operation for the driver to carry out.
///
/// The driver performs the actions it is given in order and runs each to
/// completion before it starts the next.
#[derive(Clone, Copy, Debug, PartialEq, Eq)]
pub enum Action {
    /// Drive the indicator pin to the level.
    SetIndicator(Level),
    /// Hand the report to the host as the next input report.
    SendReport(KeyboardReport),
    /// Block for the number of milliseconds.
    Wait(u8),
}

impl Action {
    /// The report that this action sends, if it sends one.
    pub open spec fn report(self) -> Option<KeyboardReport> {
        match self {
            Action::SendReport(report) => Some(report),
            _ => None,
        }
    }

    /// The level that this action drives the indicator to, if it drives it.
    pub open spec fn level(self) -> Option<Level> {
        match self {
            Action::SetIndicator(level) => Some(level),
            _ => None,
        }
    }
}

} // verus!
