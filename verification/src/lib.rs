//! Decision core of a foot-operated clutch that switches a modal editor
//! between normal and insert mode by emulating key presses over USB HID.
//!
//! The crate holds no hardware access. A driver samples the switch pin,
//! hands each reading to [`control::ControlLoop`], and carries out the
//! [`action::Action`]s it gets back, in order.

pub mod action;
pub mod control;
pub mod emitter;
pub mod indicator;
pub mod machine;
pub mod report;
pub mod switch;
pub mod trace;
