//! Keyboard reports: the press report that stands for one key, and the
//! all-zero report that releases it.

use crate::keycodes::{hid_values, lemma_hid_values_partition, KeyCode};
use vstd::prelude::*;

verus! {

/// What the keyboard tells the host about its keys.
#[derive(Copy, Clone, Debug, PartialEq, Eq)]
pub struct Report {
    /// One bit for each modifier that is held: bit `i` stands for the
    /// modifier at offset `i` from the first of them.
    pub modifier: u8,
    /// Always zero.
    pub reserved: u8,
    /// Not used: always zero.
    pub leds: u8,
    /// The usage codes of the keys that are held. Only the first slot is
    /// ever filled.
    pub keycodes: [u8; 6],
}

impl Report {
    /// The report holds `modifier` in its modifier byte and `key` in its
    /// first key slot; every other byte of it is zero.
    pub open spec fn is_key_report(self, modifier: u8, key: u8) -> bool {
        &&& self.modifier == modifier
        &&& self.reserved == 0
        &&& self.leds == 0
        &&& self.keycodes@ == seq![key, 0u8, 0u8, 0u8, 0u8, 0u8]
    }

    /// The report is the press report of the key with usage code `code`.
    pub open spec fn is_press_of(self, code: u8) -> bool {
        self.is_key_report(hid_values(code).0, hid_values(code).1)
    }

    /// The report is the release report: every byte of it is zero.
    pub open spec fn is_release(self) -> bool {
        self.is_key_report(0, 0)
    }
}

/// The report that presses `keycode`: a modifier sets its bit and leaves the
/// key slots empty, any other key fills the first slot. Only the press
/// report of "no key" is all-zero.
pub fn press_report(keycode: KeyCode) -> (report: Report)
    ensures
        report.is_press_of(keycode.usage_code()),
        report.is_release() <==> keycode is Extra,
{
    let (modifier_byte, normal_key) = keycode.to_hid_values();
    Report { keycodes: [normal_key, 0, 0, 0, 0, 0], leds: 0, modifier: modifier_byte, reserved: 0 }
}

/// The report that releases every key.
pub fn release_report() -> (report: Report)
    ensures
        report.is_release(),
{
    Report { keycodes: [0, 0, 0, 0, 0, 0], leds: 0, modifier: 0, reserved: 0 }
}

/// A press report is no release report, unless the key's usage code is
/// zero: either its modifier byte or its first key slot is set.
pub proof fn lemma_press_report_is_not_empty(report: Report, code: u8)
    requires
        report.is_press_of(code),
        code != 0,
    ensures
        !report.is_release(),
        report.modifier != 0 || report.keycodes@[0] != 0,
{
    lemma_hid_values_partition(code);
}

} // verus!
