use dactyl_rs::event::{Coordinate, KeyEvent};
use dactyl_rs::keycodes::{Extra, KeyCode};
use dactyl_rs::layout::{get_left_layout, get_right_layout, Layout};
use dactyl_rs::matrix::{Matrix, COLUMN_SETTLE_MICROS, SCAN_INTERVAL_MS};
use usbd_hid::descriptor::KeyboardUsage;

fn released() -> [[bool; 7]; 6] {
    [[false; 7]; 6]
}

fn event(row: usize, col: usize, keycode: KeyCode) -> KeyEvent {
    KeyEvent { coordinate: Coordinate { row, col }, keycode }
}

#[test]
fn press_is_reported_once_with_the_layout_key() {
    let layout = get_left_layout();
    let mut matrix: Matrix<7, 6> = Matrix::new();
    let q = KeyCode::Base(KeyboardUsage::KeyboardQq);
    assert_eq!(matrix.sample(&layout, 1, 1, true), Some(event(1, 1, q)));
    assert_eq!(matrix.sample(&layout, 1, 1, true), None);
    assert_eq!(matrix.sample(&layout, 1, 1, true), None);
}

#[test]
fn release_is_silent_and_the_next_press_is_reported() {
    let layout = get_left_layout();
    let mut matrix: Matrix<7, 6> = Matrix::new();
    let q = KeyCode::Base(KeyboardUsage::KeyboardQq);
    assert_eq!(matrix.sample(&layout, 1, 1, false), None);
    assert_eq!(matrix.sample(&layout, 1, 1, true), Some(event(1, 1, q)));
    assert_eq!(matrix.sample(&layout, 1, 1, false), None);
    assert_eq!(matrix.sample(&layout, 1, 1, false), None);
    assert_eq!(matrix.sample(&layout, 1, 1, true), Some(event(1, 1, q)));
}

#[test]
fn coordinates_are_kept_apart() {
    let layout = get_left_layout();
    let mut matrix: Matrix<7, 6> = Matrix::new();
    let q = KeyCode::Base(KeyboardUsage::KeyboardQq);
    let w = KeyCode::Base(KeyboardUsage::KeyboardWw);
    let a = KeyCode::Base(KeyboardUsage::KeyboardAa);
    assert_eq!(matrix.sample(&layout, 1, 1, true), Some(event(1, 1, q)));
    assert_eq!(matrix.sample(&layout, 1, 2, true), Some(event(1, 2, w)));
    assert_eq!(matrix.sample(&layout, 2, 1, true), Some(event(2, 1, a)));
    assert_eq!(matrix.sample(&layout, 1, 2, false), None);
    assert_eq!(matrix.sample(&layout, 1, 1, true), None);
    assert_eq!(matrix.sample(&layout, 2, 1, true), None);
    assert_eq!(matrix.sample(&layout, 1, 2, true), Some(event(1, 2, w)));
}

#[test]
fn a_position_without_a_key_reports_no_key() {
    let layout = get_left_layout();
    let mut matrix: Matrix<7, 6> = Matrix::new();
    let na = KeyCode::Extra(Extra::NA);
    assert_eq!(matrix.sample(&layout, 0, 0, true), Some(event(0, 0, na)));
    assert_eq!(matrix.sample(&layout, 5, 6, true), Some(event(5, 6, na)));
}

#[test]
fn coordinates_outside_the_matrix_are_skipped() {
    let layout = get_left_layout();
    let mut matrix: Matrix<7, 6> = Matrix::new();
    assert_eq!(matrix.sample(&layout, 6, 0, true), None);
    assert_eq!(matrix.sample(&layout, 0, 7, true), None);
    assert_eq!(matrix.sample(&layout, 6, 7, true), None);
    assert_eq!(matrix.sample(&layout, usize::MAX, usize::MAX, true), None);
    let mut levels = released();
    levels[5][6] = true;
    let events = matrix.scan_keys(&layout, &levels);
    assert_eq!(events.len(), 1);
    assert_eq!(events[0].coordinate, Coordinate { row: 5, col: 6 });
}

#[test]
fn q_held_for_two_sweeps_then_released_is_one_event() {
    let layout = get_left_layout();
    assert_eq!(layout[1][1], KeyCode::Base(KeyboardUsage::KeyboardQq));
    let mut matrix: Matrix<7, 6> = Matrix::new();
    let mut high = released();
    high[1][1] = true;
    let low = released();
    let mut events: Vec<KeyEvent> = Vec::new();
    events.extend(matrix.scan_keys(&layout, &high));
    events.extend(matrix.scan_keys(&layout, &high));
    events.extend(matrix.scan_keys(&layout, &low));
    assert_eq!(events, vec![event(1, 1, KeyCode::Base(KeyboardUsage::KeyboardQq))]);
}

#[test]
fn sweep_of_an_idle_matrix_reports_nothing() {
    let layout = get_left_layout();
    let mut matrix: Matrix<7, 6> = Matrix::new();
    assert_eq!(matrix.scan_keys(&layout, &released()), Vec::new());
    assert_eq!(matrix.scan_keys(&layout, &released()), Vec::new());
}

#[test]
fn sweep_reports_column_by_column() {
    let layout = get_left_layout();
    let mut matrix: Matrix<7, 6> = Matrix::new();
    let mut levels = released();
    levels[3][1] = true; // Z
    levels[1][2] = true; // W
    levels[1][1] = true; // Q
    levels[2][5] = true; // G
    levels[2][2] = true; // S
    let events = matrix.scan_keys(&layout, &levels);
    assert_eq!(
        events,
        vec![
            event(1, 1, KeyCode::Base(KeyboardUsage::KeyboardQq)),
            event(3, 1, KeyCode::Base(KeyboardUsage::KeyboardZz)),
            event(1, 2, KeyCode::Base(KeyboardUsage::KeyboardWw)),
            event(2, 2, KeyCode::Base(KeyboardUsage::KeyboardSs)),
            event(2, 5, KeyCode::Base(KeyboardUsage::KeyboardGg)),
        ]
    );
}

#[test]
fn sweep_reports_only_what_changed_to_pressed() {
    let layout = get_right_layout();
    let mut matrix: Matrix<7, 6> = Matrix::new();
    let mut first = released();
    first[1][1] = true; // Y
    first[2][2] = true; // J
    assert_eq!(matrix.scan_keys(&layout, &first).len(), 2);
    let mut second = released();
    second[1][1] = true; // Y held
    second[3][3] = true; // comma pressed
    let events = matrix.scan_keys(&layout, &second);
    assert_eq!(events, vec![event(3, 3, KeyCode::Base(KeyboardUsage::KeyboardCommaLess))]);
    let mut third = released();
    third[2][2] = true; // J pressed again
    third[3][3] = true; // comma held
    let events = matrix.scan_keys(&layout, &third);
    assert_eq!(events, vec![event(2, 2, KeyCode::Base(KeyboardUsage::KeyboardJj))]);
}

#[test]
fn sweep_with_every_key_pressed_reports_every_coordinate_once() {
    let layout = get_left_layout();
    let mut matrix: Matrix<7, 6> = Matrix::new();
    let levels = [[true; 7]; 6];
    let events = matrix.scan_keys(&layout, &levels);
    assert_eq!(events.len(), 42);
    let mut index = 0;
    for col in 0..7 {
        for row in 0..6 {
            assert_eq!(events[index], event(row, col, layout[row][col]));
            index += 1;
        }
    }
    assert_eq!(matrix.scan_keys(&layout, &levels), Vec::new());
}

#[test]
fn sweep_and_samples_agree() {
    let layout = get_left_layout();
    let mut by_sweep: Matrix<7, 6> = Matrix::new();
    let mut by_sample: Matrix<7, 6> = Matrix::new();
    let mut levels = released();
    levels[1][3] = true;
    levels[2][3] = true;
    levels[3][4] = true;
    let swept = by_sweep.scan_keys(&layout, &levels);
    let mut sampled: Vec<KeyEvent> = Vec::new();
    for col in 0..7 {
        for row in 0..6 {
            if let Some(event) = by_sample.sample(&layout, row, col, levels[row][col]) {
                sampled.push(event);
            }
        }
    }
    assert_eq!(swept, sampled);
}

#[test]
fn matrix_of_another_size() {
    let layout: Layout<2, 1> =
        [[KeyCode::Base(KeyboardUsage::KeyboardAa), KeyCode::Base(KeyboardUsage::KeyboardBb)]];
    let mut matrix: Matrix<2, 1> = Matrix::new();
    let events = matrix.scan_keys(&layout, &[[true, true]]);
    assert_eq!(
        events,
        vec![
            event(0, 0, KeyCode::Base(KeyboardUsage::KeyboardAa)),
            event(0, 1, KeyCode::Base(KeyboardUsage::KeyboardBb)),
        ]
    );
    assert_eq!(matrix.sample(&layout, 1, 0, true), None);
}

#[test]
fn scan_timing() {
    assert_eq!(COLUMN_SETTLE_MICROS, 10);
    assert_eq!(SCAN_INTERVAL_MS, 10);
}
