//! The HID report emitter: one key press as the host must see it.
//!
//! A keyboard report is a snapshot, so a key press takes two reports: one
//! with the key held and one with it released. Each report has to stay in
//! place for a full polling interval of the host, or the host may miss it.

use vstd::prelude::*;
use crate::action::Action;
use crate::report::KeyboardReport;

verus! {

/// Polling interval of the host for the HID interface, in milliseconds.
pub const USB_HOST_POLL_MS: u8 = 10;

/// The actions that make up one press and release of `key_code`.
pub open spec fn emit_spec(key_code: u8) -> Seq<Action> {
    seq![
        Action::SendReport(KeyboardReport::key_down_spec(key_code)),
        Action::Wait(USB_HOST_POLL_MS),
        Action::SendReport(KeyboardReport::key_up_spec()),
        Action::Wait(USB_HOST_POLL_MS),
    ]
}

/// Plans one press and release of `key_code`: send the key-down report, wait
/// one polling interval, send the key-up report, wait one polling interval.
///
/// Both waits are part of the press: the driver blocks through them and
/// does nothing else until all four actions are done.
pub fn emit(key_code: u8) -> (actions: [Action; 4])
    ensures
        actions@ == emit_spec(key_code),
{
    let actions = [
        Action::SendReport(KeyboardReport::key_down(key_code)),
        Action::Wait(USB_HOST_POLL_MS),
        Action::SendReport(KeyboardReport::key_up()),
        Action::Wait(USB_HOST_POLL_MS),
    ];
    assert(actions@ =~= emit_spec(key_code));
    actions
}

} // verus!
