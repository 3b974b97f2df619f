//! The keyboard input report and the key codes that the clutch sends.

use vstd::prelude::*;
use crate::machine::Mode;

verus! {

/// HID usage code of the letter "i", which enters insert mode.
pub const KEY_I: u8 = 0x0c;

/// HID usage code of the Escape key, which returns to normal mode.
pub const KEY_ESC: u8 = 0x29;

/// Number of key-code slots in a boot-protocol keyboard report.
pub const KEY_SLOTS: usize = 6;

/// A boot-protocol keyboard report: the record that tells the host which
/// keys are held right now.
///
/// The host takes a code that is present in the latest report as a key held
/// down, and a code that is absent as a key released.
#[derive(Clone, Copy, Debug, PartialEq, Eq)]
pub struct KeyboardReport {
    /// Bit mask of the modifier keys held.
    pub modifier: u8,
    /// Padding byte of the report layout.
    pub reserved: u8,
    /// Keyboard LED state. The clutch never sets it.
    pub leds: u8,
    /// Codes of the keys held, one per slot; zero marks a free slot.
    pub keycodes: [u8; 6],
}

impl KeyboardReport {
    /// The report with `code` in the first slot and zero everywhere else.
    pub open spec fn key_down_spec(code: u8) -> KeyboardReport {
        KeyboardReport { modifier: 0, reserved: 0, leds: 0, keycodes: [code, 0, 0, 0, 0, 0] }
    }

    /// The report with every byte zero: no key is held.
    pub open spec fn key_up_spec() -> KeyboardReport {
        KeyboardReport::key_down_spec(0)
    }

    /// The key-code slots as a sequence of six codes.
    pub open spec fn slots(self) -> Seq<u8> {
        self.keycodes@
    }

    /// Number of populated slots.
    pub open spec fn populated(self) -> nat {
        self.slots().filter(|code: u8| code != 0).len()
    }

    /// Single-key emulation: no modifier, no LED, and no slot but the first
    /// is populated.
    pub open spec fn is_single_key(self) -> bool {
        &&& self.modifier == 0
        &&& self.reserved == 0
        &&& self.leds == 0
        &&& self.slots().len() == KEY_SLOTS
        &&& forall|i: int| 1 <= i < KEY_SLOTS ==> self.slots()[i] == 0
    }

    /// The report for `key_code` held down and nothing else.
    pub fn key_down(key_code: u8) -> (report: KeyboardReport)
        ensures
            report == KeyboardReport::key_down_spec(key_code),
            report.is_single_key(),
            report.slots()[0] == key_code,
    {
        let mut keycodes: [u8; 6] = [0; 6];
        keycodes[0] = key_code;
        let report = KeyboardReport { modifier: 0, reserved: 0, leds: 0, keycodes };
        assert(report.keycodes =~= KeyboardReport::key_down_spec(key_code).keycodes);
        report
    }

    /// The report for no key held: the release of whatever was down.
    pub fn key_up() -> (report: KeyboardReport)
        ensures
            report == KeyboardReport::key_up_spec(),
            report.is_single_key(),
            report.slots()[0] == 0,
    {
        let report = KeyboardReport { modifier: 0, reserved: 0, leds: 0, keycodes: [0; 6] };
        assert(report.keycodes =~= KeyboardReport::key_up_spec().keycodes);
        report
    }
}

impl Mode {
    /// The key that switches the editor into this mode.
    pub open spec fn key_code_spec(self) -> u8 {
        match self {
            Mode::Normal => KEY_ESC,
            Mode::Insert => KEY_I,
        }
    }

    /// The key that switches the editor into this mode: Escape for normal
    /// mode, "i" for insert mode.
    pub fn key_code(self) -> (code: u8)
        ensures
            code == self.key_code_spec(),
            code != 0,
    {
        match self {
            Mode::Normal => KEY_ESC,
            Mode::Insert => KEY_I,
        }
    }
}

/// Every report that the constructors build emulates a single key: the code
/// sits in the first slot, all other bytes are zero, and at most one slot is
/// populated (exactly one unless the code is zero, which marks a free slot).
pub proof fn lemma_key_down_single_key(code: u8)
    ensures
        KeyboardReport::key_down_spec(code).is_single_key(),
        KeyboardReport::key_down_spec(code).slots() =~= seq![code, 0u8, 0u8, 0u8, 0u8, 0u8],
        KeyboardReport::key_down_spec(code).populated() == (if code == 0 {
            0nat
        } else {
            1nat
        }),
        KeyboardReport::key_up_spec().populated() == 0,
{
    lemma_populated(code);
    lemma_populated(0);
}

proof fn lemma_populated(code: u8)
    ensures
        KeyboardReport::key_down_spec(code).populated() == (if code == 0 {
            0nat
        } else {
            1nat
        }),
{
    let s = KeyboardReport::key_down_spec(code).slots();
    assert(s =~= seq![code, 0u8, 0u8, 0u8, 0u8, 0u8]);
    reveal_with_fuel(Seq::filter, 7);
    assert(s.drop_last() =~= seq![code, 0u8, 0u8, 0u8, 0u8]);
    assert(s.drop_last().drop_last() =~= seq![code, 0u8, 0u8, 0u8]);
    assert(s.drop_last().drop_last().drop_last() =~= seq![code, 0u8, 0u8]);
    assert(s.drop_last().drop_last().drop_last().drop_last() =~= seq![code, 0u8]);
    assert(s.drop_last().drop_last().drop_last().drop_last().drop_last() =~= seq![code]);
    assert(s.drop_last().drop_last().drop_last().drop_last().drop_last().drop_last()
        =~= Seq::<u8>::empty());
}

} // verus!
