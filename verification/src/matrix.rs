//! The matrix scanner: it remembers the level last sampled at every
//! coordinate and reports a key when a level goes from low to high.

use crate::event::{Coordinate, KeyEvent};
use crate::keycodes::KeyCode;
use crate::layout::Layout;
use vstd::prelude::*;

verus! {

/// Microseconds to wait after a column is driven high, before its rows are
/// read.
pub const COLUMN_SETTLE_MICROS: u64 = 10;

/// Milliseconds to wait between two sweeps.
pub const SCAN_INTERVAL_MS: u64 = 10;

/// A table of `N_ROWS` rows and `N_COLS` columns as a sequence of rows.
pub open spec fn grid_view<T, const N_COLS: usize, const N_ROWS: usize>(
    grid: [[T; N_COLS]; N_ROWS],
) -> Seq<Seq<T>> {
    Seq::new(N_ROWS as nat, |row: int| grid[row]@)
}

/// `grid` has `rows` rows of `cols` cells each.
pub open spec fn is_grid<T>(grid: Seq<Seq<T>>, rows: int, cols: int) -> bool {
    &&& grid.len() == rows
    &&& forall|row: int| 0 <= row < rows ==> (#[trigger] grid[row]).len() == cols
}

/// `(row, col)` is a cell of `grid`.
pub open spec fn in_grid<T>(grid: Seq<Seq<T>>, row: int, col: int) -> bool {
    0 <= row < grid.len() && 0 <= col < grid[row].len()
}

/// A sample of `level` at `(row, col)` is a press: the coordinate exists, the
/// level is high and the level before it was low.
pub open spec fn is_press(state: Seq<Seq<bool>>, row: int, col: int, level: bool) -> bool {
    in_grid(state, row, col) && level && !state[row][col]
}

/// The levels remembered after a sample of `level` at `(row, col)`: the
/// sample takes the place of the level before it. A coordinate outside the
/// matrix changes nothing.
pub open spec fn record(state: Seq<Seq<bool>>, row: int, col: int, level: bool) -> Seq<
    Seq<bool>,
> {
    if in_grid(state, row, col) {
        state.update(row, state[row].update(col, level))
    } else {
        state
    }
}

/// What a sample of `level` at `(row, col)` reports: on a press inside the
/// layout, the key that the layout holds there; else nothing.
pub open spec fn sample_event(
    state: Seq<Seq<bool>>,
    layout: Seq<Seq<KeyCode>>,
    row: int,
    col: int,
    level: bool,
) -> Option<KeyEvent> {
    if is_press(state, row, col, level) && in_grid(layout, row, col) {
        Some(
            KeyEvent {
                coordinate: Coordinate { row: row as usize, col: col as usize },
                keycode: layout[row][col],
            },
        )
    } else {
        None
    }
}

/// The events of the first `rows` rows of column `col`, top to bottom, when
/// `levels` is sampled against `state`.
pub open spec fn column_events(
    state: Seq<Seq<bool>>,
    layout: Seq<Seq<KeyCode>>,
    levels: Seq<Seq<bool>>,
    col: int,
    rows: int,
) -> Seq<KeyEvent>
    decreases rows,
{
    if rows <= 0 {
        Seq::empty()
    } else {
        let above = column_events(state, layout, levels, col, rows - 1);
        match sample_event(state, layout, rows - 1, col, levels[rows - 1][col]) {
            Some(event) => above.push(event),
            None => above,
        }
    }
}

/// The events of the first `cols` columns, column by column, when `levels`
/// is sampled against `state`.
pub open spec fn sweep_events(
    state: Seq<Seq<bool>>,
    layout: Seq<Seq<KeyCode>>,
    levels: Seq<Seq<bool>>,
    cols: int,
) -> Seq<KeyEvent>
    decreases cols,
{
    if cols <= 0 {
        Seq::empty()
    } else {
        sweep_events(state, layout, levels, cols - 1) + column_events(
            state,
            layout,
            levels,
            cols - 1,
            state.len() as int,
        )
    }
}

/// The levels remembered in the middle of a sweep: `levels` where the sweep
/// has been (the first `cols` columns, and the first `rows` rows of the next),
/// `state` elsewhere.
spec fn swept(
    state: Seq<Seq<bool>>,
    levels: Seq<Seq<bool>>,
    cols: int,
    rows: int,
) -> Seq<Seq<bool>> {
    Seq::new(
        state.len(),
        |row: int|
            Seq::new(
                state[row].len(),
                |col: int|
                    if col < cols || (col == cols && row < rows) {
                        levels[row][col]
                    } else {
                        state[row][col]
                    },
            ),
    )
}

/// A matrix of `rows` by `cols` keys, all released.
pub open spec fn all_released(rows: int, cols: int) -> Seq<Seq<bool>> {
    Seq::new(rows as nat, |row: int| Seq::new(cols as nat, |col: int| false))
}

/// The event that reports a press at `(row, col)`.
pub open spec fn press_event(layout: Seq<Seq<KeyCode>>, row: int, col: int) -> KeyEvent {
    KeyEvent {
        coordinate: Coordinate { row: row as usize, col: col as usize },
        keycode: layout[row][col],
    }
}

/// A sweep comes to `first` before it comes to `second`: columns in their
/// order, and in each column rows in their order.
pub open spec fn scans_before(first: Coordinate, second: Coordinate) -> bool {
    first.col < second.col || (first.col == second.col && first.row < second.row)
}

/// `event` reports a press that `levels` shows against `state`, with the key
/// that `layout` holds at its coordinate.
pub open spec fn reports_press(
    event: KeyEvent,
    state: Seq<Seq<bool>>,
    layout: Seq<Seq<KeyCode>>,
    levels: Seq<Seq<bool>>,
) -> bool {
    let row = event.coordinate.row as int;
    let col = event.coordinate.col as int;
    &&& is_press(state, row, col, levels[row][col])
    &&& event == press_event(layout, row, col)
}

/// The scanner's memory: the level last sampled at every coordinate.
pub struct Matrix<const N_COLS: usize, const N_ROWS: usize> {
    previous_state: [[bool; N_COLS]; N_ROWS],
}

impl<const N_COLS: usize, const N_ROWS: usize> View for Matrix<N_COLS, N_ROWS> {
    type V = Seq<Seq<bool>>;

    closed spec fn view(&self) -> Seq<Seq<bool>> {
        grid_view(self.previous_state)
    }
}

impl<const N_COLS: usize, const N_ROWS: usize> Matrix<N_COLS, N_ROWS> {
    /// A scanner that has seen every key released.
    pub fn new() -> (matrix: Self)
        ensures
            matrix@ == all_released(N_ROWS as int, N_COLS as int),
    {
        let matrix = Self { previous_state: [[false;N_COLS];N_ROWS] };
        assert(matrix@ =~~= all_released(N_ROWS as int, N_COLS as int));
        matrix
    }

    /// The matrix always has `N_ROWS` rows of `N_COLS` levels.
    pub proof fn lemma_shape(&self)
        ensures
            is_grid(self@, N_ROWS as int, N_COLS as int),
    {
    }

    /// Takes the level sampled at `(row, col)`. Reports the layout's key
    /// there if the level went from low to high, and remembers the level.
    /// A coordinate outside the matrix is skipped.
    pub fn sample(
        &mut self,
        layout: &Layout<N_COLS, N_ROWS>,
        row: usize,
        col: usize,
        is_pressed: bool,
    ) -> (event: Option<KeyEvent>)
        ensures
            final(self)@ == record(old(self)@, row as int, col as int, is_pressed),
            event == sample_event(
                old(self)@,
                grid_view(*layout),
                row as int,
                col as int,
                is_pressed,
            ),
    {
        if row >= N_ROWS || col >= N_COLS {
            return None;
        }
        let was_pressed = self.previous_state[row][col];
        let event = if is_pressed && !was_pressed {
            Some(KeyEvent { coordinate: Coordinate { row, col }, keycode: layout[row][col] })
        } else {
            None
        };
        self.previous_state[row][col] = is_pressed;
        event
    }

    /// One full sweep over the sampled `levels`: column by column, and in
    /// each column row by row. Returns the keys that went from released to
    /// pressed, in that order, and remembers `levels` for the next sweep.
    pub fn scan_keys(
        &mut self,
        layout: &Layout<N_COLS, N_ROWS>,
        levels: &[[bool; N_COLS]; N_ROWS],
    ) -> (events: Vec<KeyEvent>)
        ensures
            final(self)@ == grid_view(*levels),
            events@ == sweep_events(
                old(self)@,
                grid_view(*layout),
                grid_view(*levels),
                N_COLS as int,
            ),
    {
        let ghost before = self@;
        let ghost keys = grid_view(*layout);
        let ghost sampled = grid_view(*levels);
        let mut events: Vec<KeyEvent> = Vec::new();
        let mut col: usize = 0;
        assert(self@ =~~= swept(before, sampled, 0, 0));
        while col < N_COLS
            invariant
                col <= N_COLS,
                before.len() == N_ROWS,
                is_grid(before, N_ROWS as int, N_COLS as int),
                keys == grid_view(*layout),
                sampled == grid_view(*levels),
                self@ == swept(before, sampled, col as int, 0),
                events@ == sweep_events(before, keys, sampled, col as int),
            decreases N_COLS - col,
        {
            let ghost swept_before = events@;
            let mut row: usize = 0;
            while row < N_ROWS
                invariant
                    col < N_COLS,
                    row <= N_ROWS,
                    before.len() == N_ROWS,
                    is_grid(before, N_ROWS as int, N_COLS as int),
                    keys == grid_view(*layout),
                    sampled == grid_view(*levels),
                    self@ == swept(before, sampled, col as int, row as int),
                    events@ == swept_before + column_events(
                        before,
                        keys,
                        sampled,
                        col as int,
                        row as int,
                    ),
                decreases N_ROWS - row,
            {
                let level = levels[row][col];
                if let Some(event) = self.sample(layout, row, col, level) {
                    events.push(event);
                }
                assert(self@ =~~= swept(before, sampled, col as int, row as int + 1));
                row = row + 1;
            }
            assert(self@ =~~= swept(before, sampled, col as int + 1, 0));
            col = col + 1;
        }
        assert(self@ =~~= sampled);
        events
    }
}

/// What one coordinate reports over time: a key that goes from released to
/// pressed is reported once, with the key that the layout holds there; while
/// it stays pressed nothing more is reported; released and pressed again, it
/// is reported once more. A low level never reports anything.
pub proof fn lemma_press_is_reported_once(
    state: Seq<Seq<bool>>,
    layout: Seq<Seq<KeyCode>>,
    row: int,
    col: int,
)
    requires
        in_grid(state, row, col),
        in_grid(layout, row, col),
        !state[row][col],
    ensures
        sample_event(state, layout, row, col, true) == Some(press_event(layout, row, col)),
        sample_event(state, layout, row, col, false) is None,
        sample_event(record(state, row, col, true), layout, row, col, true) is None,
        sample_event(record(state, row, col, true), layout, row, col, false) is None,
        sample_event(
            record(record(state, row, col, true), row, col, false),
            layout,
            row,
            col,
            true,
        ) == Some(press_event(layout, row, col)),
{
}

/// A sample at one coordinate leaves what is remembered of every other.
pub proof fn lemma_sample_is_local(
    state: Seq<Seq<bool>>,
    row: int,
    col: int,
    level: bool,
    other_row: int,
    other_col: int,
)
    requires
        in_grid(state, other_row, other_col),
        other_row != row || other_col != col,
    ensures
        in_grid(record(state, row, col, level), other_row, other_col),
        record(state, row, col, level)[other_row][other_col] == state[other_row][other_col],
{
}

/// What the first `rows` rows of one column report: presses only, each with
/// the layout's key; every press among them; top to bottom.
proof fn lemma_column_events(
    state: Seq<Seq<bool>>,
    layout: Seq<Seq<KeyCode>>,
    levels: Seq<Seq<bool>>,
    n_rows: int,
    n_cols: int,
    col: int,
    rows: int,
)
    requires
        is_grid(state, n_rows, n_cols),
        is_grid(layout, n_rows, n_cols),
        is_grid(levels, n_rows, n_cols),
        n_rows <= usize::MAX,
        n_cols <= usize::MAX,
        0 <= col < n_cols,
        0 <= rows <= n_rows,
    ensures
        forall|i: int|
            #![trigger column_events(state, layout, levels, col, rows)[i]]
            0 <= i < column_events(state, layout, levels, col, rows).len() ==> {
                let event = column_events(state, layout, levels, col, rows)[i];
                &&& reports_press(event, state, layout, levels)
                &&& event.coordinate.col == col
                &&& event.coordinate.row < rows
            },
        forall|i: int, j: int|
            #![trigger column_events(state, layout, levels, col, rows)[i], column_events(state, layout, levels, col, rows)[j]]
            0 <= i < j < column_events(state, layout, levels, col, rows).len() ==> scans_before(
                column_events(state, layout, levels, col, rows)[i].coordinate,
                column_events(state, layout, levels, col, rows)[j].coordinate,
            ),
        forall|row: int|
            0 <= row < rows && is_press(state, row, col, levels[row][col]) ==> column_events(
                state,
                layout,
                levels,
                col,
                rows,
            ).contains(#[trigger] press_event(layout, row, col)),
    decreases rows,
{
    if rows > 0 {
        lemma_column_events(state, layout, levels, n_rows, n_cols, col, rows - 1);
        let above = column_events(state, layout, levels, col, rows - 1);
        let all = column_events(state, layout, levels, col, rows);
        let last = rows - 1;
        if is_press(state, last, col, levels[last][col]) {
            let event = press_event(layout, last, col);
            assert(all[above.len() as int] == event);
            assert forall|row: int|
                0 <= row < rows && is_press(state, row, col, levels[row][col]) implies all.contains(
                #[trigger] press_event(layout, row, col),
            ) by {
                if row < last {
                    let i = choose|i: int|
                        0 <= i < above.len() && above[i] == press_event(layout, row, col);
                    assert(all[i] == press_event(layout, row, col));
                }
            }
        }
    }
}

/// What the first `cols` columns report: presses only, each with the
/// layout's key; every press among them; in the order of the sweep.
proof fn lemma_sweep_events(
    state: Seq<Seq<bool>>,
    layout: Seq<Seq<KeyCode>>,
    levels: Seq<Seq<bool>>,
    n_rows: int,
    n_cols: int,
    cols: int,
)
    requires
        is_grid(state, n_rows, n_cols),
        is_grid(layout, n_rows, n_cols),
        is_grid(levels, n_rows, n_cols),
        n_rows <= usize::MAX,
        n_cols <= usize::MAX,
        0 <= cols <= n_cols,
    ensures
        forall|i: int|
            #![trigger sweep_events(state, layout, levels, cols)[i]]
            0 <= i < sweep_events(state, layout, levels, cols).len() ==> {
                let event = sweep_events(state, layout, levels, cols)[i];
                &&& reports_press(event, state, layout, levels)
                &&& event.coordinate.col < cols
            },
        forall|i: int, j: int|
            #![trigger sweep_events(state, layout, levels, cols)[i], sweep_events(state, layout, levels, cols)[j]]
            0 <= i < j < sweep_events(state, layout, levels, cols).len() ==> scans_before(
                sweep_events(state, layout, levels, cols)[i].coordinate,
                sweep_events(state, layout, levels, cols)[j].coordinate,
            ),
        forall|row: int, col: int|
            0 <= row < n_rows && 0 <= col < cols && is_press(state, row, col, levels[row][col])
                ==> sweep_events(state, layout, levels, cols).contains(
                #[trigger] press_event(layout, row, col),
            ),
    decreases cols,
{
    if cols > 0 {
        let last = cols - 1;
        lemma_sweep_events(state, layout, levels, n_rows, n_cols, last);
        lemma_column_events(state, layout, levels, n_rows, n_cols, last, n_rows);
        let before = sweep_events(state, layout, levels, last);
        let column = column_events(state, layout, levels, last, n_rows);
        let all = sweep_events(state, layout, levels, cols);
        assert forall|row: int, col: int|
            0 <= row < n_rows && 0 <= col < cols && is_press(
                state,
                row,
                col,
                levels[row][col],
            ) implies all.contains(#[trigger] press_event(layout, row, col)) by {
            let wanted = press_event(layout, row, col);
            if col < last {
                let i = choose|i: int| 0 <= i < before.len() && before[i] == wanted;
                assert(all[i] == wanted);
            } else {
                let i = choose|i: int| 0 <= i < column.len() && column[i] == wanted;
                assert(all[before.len() + i] == wanted);
            }
        }
    }
}

/// What one sweep reports. Every event reports a key that went from
/// released to pressed, with the key that the layout holds there; every such
/// key is reported; and the events come in the order of the sweep, so none
/// comes twice.
pub proof fn lemma_sweep_reports_each_press_once(
    state: Seq<Seq<bool>>,
    layout: Seq<Seq<KeyCode>>,
    levels: Seq<Seq<bool>>,
    n_rows: int,
    n_cols: int,
)
    requires
        is_grid(state, n_rows, n_cols),
        is_grid(layout, n_rows, n_cols),
        is_grid(levels, n_rows, n_cols),
        0 <= n_rows <= usize::MAX,
        0 <= n_cols <= usize::MAX,
    ensures
        forall|i: int|
            #![trigger sweep_events(state, layout, levels, n_cols)[i]]
            0 <= i < sweep_events(state, layout, levels, n_cols).len() ==> reports_press(
                sweep_events(state, layout, levels, n_cols)[i],
                state,
                layout,
                levels,
            ),
        forall|row: int, col: int|
            in_grid(state, row, col) && is_press(state, row, col, levels[row][col])
                ==> sweep_events(state, layout, levels, n_cols).contains(
                #[trigger] press_event(layout, row, col),
            ),
        forall|i: int, j: int|
            #![trigger sweep_events(state, layout, levels, n_cols)[i], sweep_events(state, layout, levels, n_cols)[j]]
            0 <= i < j < sweep_events(state, layout, levels, n_cols).len() ==> scans_before(
                sweep_events(state, layout, levels, n_cols)[i].coordinate,
                sweep_events(state, layout, levels, n_cols)[j].coordinate,
            ),
        forall|i: int, j: int|
            #![trigger sweep_events(state, layout, levels, n_cols)[i], sweep_events(state, layout, levels, n_cols)[j]]
            0 <= i < sweep_events(state, layout, levels, n_cols).len() && 0 <= j < sweep_events(
                state,
                layout,
                levels,
                n_cols,
            ).len() && i != j ==> sweep_events(state, layout, levels, n_cols)[i].coordinate
                != sweep_events(state, layout, levels, n_cols)[j].coordinate,
{
    lemma_sweep_events(state, layout, levels, n_rows, n_cols, n_cols);
}

} // verus!
