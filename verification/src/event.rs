//! Key events: what the scanner hands to the rest of the firmware.

use crate::keycodes::KeyCode;
use vstd::prelude::*;

verus! {

/// A place in the key matrix.
#[derive(Copy, Clone, Debug, PartialEq, Eq)]
pub struct Coordinate {
    /// The row line.
    pub row: usize,
    /// The column line.
    pub col: usize,
}

/// A key went from released to pressed.
#[derive(Copy, Clone, Debug, PartialEq, Eq)]
pub struct KeyEvent {
    /// Where the key sits.
    pub coordinate: Coordinate,
    /// What the layout holds there.
    pub keycode: KeyCode,
}

} // verus!
