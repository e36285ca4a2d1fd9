//! The layout tables: which key sits at which row and column of each half.

use crate::event::{Coordinate, KeyEvent};
use crate::keycodes::{Extra, KeyCode};
use vstd::prelude::*;

verus! {

/// A table of key codes, indexed by row, then by column.
pub type Layout<const N_COLS: usize, const N_ROWS: usize> = [[KeyCode; N_COLS]; N_ROWS];

/// `key` is what a layout holds for `code`: no key for zero, else the key of
/// the standard usage table with that usage code.
pub open spec fn key_has_code(key: KeyCode, code: u8) -> bool {
    if code == 0 {
        key == KeyCode::Extra(Extra::NA)
    } else {
        key is Base && key.usage_code() == code
    }
}

/// Every cell of `layout` holds the key for the code at the same place in `codes`.
pub open spec fn layout_has_codes<const N_COLS: usize, const N_ROWS: usize>(
    layout: Layout<N_COLS, N_ROWS>,
    codes: Seq<Seq<u8>>,
) -> bool {
    forall|row: int, col: int|
        0 <= row < N_ROWS && 0 <= col < N_COLS ==> key_has_code(
            #[trigger] layout[row][col],
            codes[row][col],
        )
}

/// The event of a press at `(row, col)`: the key that `layout` holds there.
/// A coordinate outside the layout has none.
pub open spec fn event_in_layout<const N_COLS: usize, const N_ROWS: usize>(
    layout: Layout<N_COLS, N_ROWS>,
    row: int,
    col: int,
) -> Option<KeyEvent> {
    if 0 <= row < N_ROWS && 0 <= col < N_COLS {
        Some(
            KeyEvent {
                coordinate: Coordinate { row: row as usize, col: col as usize },
                keycode: layout[row][col],
            },
        )
    } else {
        None
    }
}

/// The event of a press at `(row, col)` of the half with this layout. This
/// is how the central half gives a key to a coordinate that the other half
/// has sent. A coordinate outside the layout gives nothing.
pub fn key_event_at<const N_COLS: usize, const N_ROWS: usize>(
    layout: &Layout<N_COLS, N_ROWS>,
    row: usize,
    col: usize,
) -> (event: Option<KeyEvent>)
    ensures
        event == event_in_layout(*layout, row as int, col as int),
{
    if row < N_ROWS && col < N_COLS {
        Some(KeyEvent { coordinate: Coordinate { row, col }, keycode: layout[row][col] })
    } else {
        None
    }
}

/// Usage codes of the left half, row by row; zero where there is no key.
pub open spec fn left_layout_codes() -> Seq<Seq<u8>> {
    seq![
        seq![0x00u8, 0x00, 0x00, 0x00, 0x00, 0x00, 0x00],
        seq![0x00u8, 0x14, 0x1A, 0x08, 0x15, 0x17, 0x00],
        seq![0x00u8, 0x04, 0x16, 0x07, 0x09, 0x0A, 0x00],
        seq![0x00u8, 0x1D, 0x1B, 0x06, 0x19, 0x05, 0x00],
        seq![0x00u8, 0x00, 0x00, 0x00, 0x00, 0x00, 0x00],
        seq![0x00u8, 0x00, 0x00, 0x00, 0x00, 0x00, 0x00],
    ]
}

/// Usage codes of the right half, row by row; zero where there is no key.
pub open spec fn right_layout_codes() -> Seq<Seq<u8>> {
    seq![
        seq![0x00u8, 0x00, 0x00, 0x00, 0x00, 0x00, 0x00],
        seq![0x00u8, 0x1C, 0x18, 0x0C, 0x12, 0x13, 0x00],
        seq![0x00u8, 0x0B, 0x0D, 0x0E, 0x0F, 0x00, 0x00],
        seq![0x00u8, 0x11, 0x10, 0x36, 0x37, 0x38, 0x00],
        seq![0x00u8, 0x00, 0x00, 0x00, 0x00, 0x00, 0x00],
        seq![0x00u8, 0x00, 0x00, 0x00, 0x00, 0x00, 0x00],
    ]
}

/// The key of the standard usage table with the given usage code.
fn k(code: u8) -> (key: KeyCode)
    requires
        0x01 <= code <= 0xA4,
    ensures
        key_has_code(key, code),
{
    KeyCode::from_usage_code(code)
}

/// No key.
fn na() -> (key: KeyCode)
    ensures
        key_has_code(key, 0),
{
    KeyCode::Extra(Extra::NA)
}

/// The layout of the left half: Q W E R T, A S D F G, Z X C V B.
pub fn get_left_layout() -> (layout: Layout<7, 6>)
    ensures
        layout_has_codes(layout, left_layout_codes()),
{
    [
        [na(), na(), na(), na(), na(), na(), na()],
        [na(), k(0x14), k(0x1A), k(0x08), k(0x15), k(0x17), na()],
        [na(), k(0x04), k(0x16), k(0x07), k(0x09), k(0x0A), na()],
        [na(), k(0x1D), k(0x1B), k(0x06), k(0x19), k(0x05), na()],
        [na(), na(), na(), na(), na(), na(), na()],
        [na(), na(), na(), na(), na(), na(), na()],
    ]
}

/// The layout of the right half: Y U I O P, H J K L, N M , . /
pub fn get_right_layout() -> (layout: Layout<7, 6>)
    ensures
        layout_has_codes(layout, right_layout_codes()),
{
    [
        [na(), na(), na(), na(), na(), na(), na()],
        [na(), k(0x1C), k(0x18), k(0x0C), k(0x12), k(0x13), na()],
        [na(), k(0x0B), k(0x0D), k(0x0E), k(0x0F), na(), na()],
        [na(), k(0x11), k(0x10), k(0x36), k(0x37), k(0x38), na()],
        [na(), na(), na(), na(), na(), na(), na()],
        [na(), na(), na(), na(), na(), na(), na()],
    ]
}

} // verus!
