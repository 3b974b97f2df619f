//! The status indicator: a light that mirrors the mode entered last.

use vstd::prelude::*;
use crate::action::Level;
use crate::machine::{Mode, Transition};

verus! {

impl Mode {
    /// The indicator level that shows this mode.
    pub open spec fn indicator_level_spec(self) -> Level {
        match self {
            Mode::Normal => Level::Low,
            Mode::Insert => Level::High,
        }
    }

    /// The indicator level that shows this mode: high in insert mode, low in
    /// normal mode.
    pub fn indicator_level(self) -> (level: Level)
        ensures
            level == self.indicator_level_spec(),
    {
        match self {
            Mode::Normal => Level::Low,
            Mode::Insert => Level::High,
        }
    }
}

impl Level {
    /// The indicator level once `transition` has been reacted to, given the
    /// level before it.
    pub open spec fn after(self, transition: Transition) -> Level {
        match transition {
            Transition::Unchanged => self,
            Transition::EnteredNormal => Level::Low,
            Transition::EnteredInsert => Level::High,
        }
    }
}

/// The level to drive the indicator to in reaction to `transition`: high on
/// entering insert mode, low on entering normal mode, and `None`, meaning
/// leave the pin alone, when nothing changed.
pub fn indicator_command(transition: Transition) -> (command: Option<Level>)
    ensures
        command == (match transition {
            Transition::Unchanged => None::<Level>,
            Transition::EnteredNormal => Some(Level::Low),
            Transition::EnteredInsert => Some(Level::High),
        }),
        command.is_some() <==> transition.fired(),
        forall|before: Level|
            before.after(transition) == (match command {
                Some(level) => level,
                None => before,
            }),
{
    match transition.entered() {
        Some(mode) => Some(mode.indicator_level()),
        None => None,
    }
}

} // verus!
