//! Key codes: what a physical key means, and the report bytes that stand for it.

use usbd_hid::descriptor::KeyboardUsage;
use vstd::prelude::*;

verus! {

/// The usage table of `usbd_hid`, carried through the library as an opaque value.
#[verifier::external_type_specification]
#[verifier::external_body]
pub struct ExKeyboardUsage(KeyboardUsage);

/// The byte that a usage of the keyboard page has in the usage table: the
/// discriminant of the `KeyboardUsage` variant.
pub uninterp spec fn usage_value(usage: KeyboardUsage) -> u8;

/// First usage code of the modifier keys (left control).
pub const MODIFIER_BASE: u8 = 0xE0;

/// Last usage code of the modifier keys (right GUI).
pub const MODIFIER_LAST: u8 = 0xE7;

/// The byte that the table gives to codes it does not assign.
pub const RESERVED_USAGE: u8 = 0xE8;

/// Whether the usage table assigns `code` to a key of its own.
pub open spec fn is_assigned_usage(code: u8) -> bool {
    ||| 0x01 <= code <= 0xA4
    ||| 0xB0 <= code <= 0xDD
    ||| 0xE0 <= code <= 0xE7
}

/// Casts a `KeyboardUsage` to its discriminant. The table has no entry for
/// zero: it starts at 0x01 and ends with the reserved entry 0xE8.
#[verifier::external_body]
fn usage_to_byte(usage: KeyboardUsage) -> (code: u8)
    ensures
        code == usage_value(usage),
        0x01 <= code <= RESERVED_USAGE,
{
    usage as u8
}

/// `KeyboardUsage::from(u8)`: the variant whose discriminant is `code` where
/// the table assigns one, the reserved entry otherwise.
#[verifier::external_body]
fn usage_from_byte(code: u8) -> (usage: KeyboardUsage)
    ensures
        usage_value(usage) == (if is_assigned_usage(code) { code } else { RESERVED_USAGE }),
{
    KeyboardUsage::from(code)
}

/// Keys that stand for nothing.
#[allow(unused)]
#[non_exhaustive]
#[derive(Copy, Debug, Clone, Eq, PartialEq)]
pub enum Extra {
    /// No key at this position.
    NA,
}

/// Keys of Apple keyboards that the usage table lacks.
#[allow(unused)]
#[non_exhaustive]
#[derive(Copy, Debug, Clone, Eq, PartialEq)]
pub enum MacosKeys {
    /// The Fn key.
    Fn,
}

/// What a physical key means.
#[allow(unused)]
#[non_exhaustive]
#[derive(Copy, Debug, Clone, Eq, PartialEq)]
pub enum KeyCode {
    /// A key of the standard usage table.
    Base(KeyboardUsage),
    /// A platform-specific key.
    Macos(MacosKeys),
    /// No key.
    Extra(Extra),
}

/// The code reported for the Fn key.
pub const MACOS_FN_CODE: u8 = 0xA4;

/// The code that means "no key".
pub const NO_KEY_CODE: u8 = 0x00;

impl KeyCode {
    /// The one byte that this key code carries.
    pub open spec fn usage_code(self) -> u8 {
        match self {
            KeyCode::Base(usage) => usage_value(usage),
            KeyCode::Macos(MacosKeys::Fn) => MACOS_FN_CODE,
            KeyCode::Extra(Extra::NA) => NO_KEY_CODE,
        }
    }

    /// The key of the standard usage table with usage code `code`. A code
    /// that the table does not assign gives the table's reserved entry.
    pub fn from_usage_code(code: u8) -> (key: KeyCode)
        ensures
            key is Base,
            key.usage_code() == (if is_assigned_usage(code) {
                code
            } else {
                RESERVED_USAGE
            }),
    {
        KeyCode::Base(usage_from_byte(code))
    }

    /// The usage code of this key. Only "no key" has the code zero.
    pub fn to_usage_code(&self) -> (code: u8)
        ensures
            code == self.usage_code(),
            code == NO_KEY_CODE <==> self is Extra,
    {
        match self {
            KeyCode::Base(usage) => usage_to_byte(*usage),
            KeyCode::Macos(MacosKeys::Fn) => MACOS_FN_CODE,
            KeyCode::Extra(Extra::NA) => NO_KEY_CODE,
        }
    }
}

/// Whether `code` is one of the eight modifier usages.
pub open spec fn is_modifier_code(code: u8) -> bool {
    MODIFIER_BASE <= code <= MODIFIER_LAST
}

/// The modifier byte and the key slot byte that report `code`: a modifier
/// sets the bit at its offset from the first modifier and leaves the slot
/// empty; any other code fills the slot and leaves the modifier byte zero.
pub open spec fn hid_values(code: u8) -> (u8, u8) {
    if is_modifier_code(code) {
        (1u8 << ((code - MODIFIER_BASE) as u8), 0u8)
    } else {
        (0u8, code)
    }
}

/// The modifier byte and the key slot byte for a usage code.
pub fn hid_values_of_code(code: u8) -> (values: (u8, u8))
    ensures
        values == hid_values(code),
{
    if code >= MODIFIER_BASE && code <= MODIFIER_LAST {
        let offset: u8 = code - MODIFIER_BASE;
        (1u8 << offset, 0)
    } else {
        (0, code)
    }
}

impl KeyCode {
    /// The modifier byte and the key slot byte that report this key. Only
    /// "no key" gives two zero bytes.
    pub fn to_hid_values(&self) -> (values: (u8, u8))
        ensures
            values == hid_values(self.usage_code()),
            values == (0u8, 0u8) <==> self is Extra,
    {
        let code = self.to_usage_code();
        proof {
            lemma_hid_values_partition(code);
        }
        hid_values_of_code(code)
    }
}

/// A usage code goes either into the modifier byte or into the key slot,
/// never into both. The eight modifiers, left control to right GUI, take
/// the eight bits of the modifier byte from the lowest to the highest, one
/// bit each; any other code leaves the modifier byte zero and is itself the
/// key slot.
pub proof fn lemma_hid_values_partition(code: u8)
    ensures
        is_modifier_code(code) ==> hid_values(code).1 == 0 && hid_values(code).0 != 0,
        !is_modifier_code(code) ==> hid_values(code) == (0u8, code),
        code == 0xE0 ==> hid_values(code).0 == 0x01,
        code == 0xE1 ==> hid_values(code).0 == 0x02,
        code == 0xE2 ==> hid_values(code).0 == 0x04,
        code == 0xE3 ==> hid_values(code).0 == 0x08,
        code == 0xE4 ==> hid_values(code).0 == 0x10,
        code == 0xE5 ==> hid_values(code).0 == 0x20,
        code == 0xE6 ==> hid_values(code).0 == 0x40,
        code == 0xE7 ==> hid_values(code).0 == 0x80,
        hid_values(code) == (0u8, 0u8) <==> code == 0,
{
    assert(1u8 << 0u8 == 0x01) by (bit_vector);
    assert(1u8 << 1u8 == 0x02) by (bit_vector);
    assert(1u8 << 2u8 == 0x04) by (bit_vector);
    assert(1u8 << 3u8 == 0x08) by (bit_vector);
    assert(1u8 << 4u8 == 0x10) by (bit_vector);
    assert(1u8 << 5u8 == 0x20) by (bit_vector);
    assert(1u8 << 6u8 == 0x40) by (bit_vector);
    assert(1u8 << 7u8 == 0x80) by (bit_vector);
}

} // verus!
