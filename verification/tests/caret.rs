use ecto::{move_caret, Coordinates, KeyCode};

fn at(x: usize, y: usize) -> Coordinates {
    Coordinates { x, y }
}

const ALL_KEYS: [KeyCode; 11] = [
    KeyCode::Up,
    KeyCode::Down,
    KeyCode::Left,
    KeyCode::Right,
    KeyCode::PageUp,
    KeyCode::PageDown,
    KeyCode::Home,
    KeyCode::End,
    KeyCode::Char('q'),
    KeyCode::Char('x'),
    KeyCode::Other,
];

#[test]
fn right_steps_then_saturates_at_the_last_column() {
    let bounds = at(8, 3);
    let mut caret = at(0, 0);
    for _ in 0..5 {
        caret = move_caret(caret, KeyCode::Right, bounds);
    }
    assert_eq!(caret, at(5, 0));
    for _ in 0..5 {
        caret = move_caret(caret, KeyCode::Right, bounds);
    }
    assert_eq!(caret, at(7, 0));
}

#[test]
fn up_steps_back_one_row() {
    assert_eq!(move_caret(at(4, 2), KeyCode::Up, at(8, 3)), at(4, 1));
}

#[test]
fn up_stops_at_the_top() {
    assert_eq!(move_caret(at(4, 0), KeyCode::Up, at(8, 3)), at(4, 0));
}

#[test]
fn down_steps_forward_one_row() {
    assert_eq!(move_caret(at(4, 0), KeyCode::Down, at(8, 3)), at(4, 1));
}

#[test]
fn down_stops_at_the_last_row() {
    assert_eq!(move_caret(at(4, 2), KeyCode::Down, at(8, 3)), at(4, 2));
}

#[test]
fn down_on_a_grid_without_rows_gives_zero() {
    assert_eq!(move_caret(at(4, 2), KeyCode::Down, at(8, 0)), at(4, 0));
}

#[test]
fn down_from_the_largest_row_does_not_wrap() {
    assert_eq!(move_caret(at(0, usize::MAX), KeyCode::Down, at(8, 3)), at(0, 2));
    assert_eq!(
        move_caret(at(0, usize::MAX), KeyCode::Down, at(8, usize::MAX)),
        at(0, usize::MAX - 1)
    );
}

#[test]
fn left_steps_back_one_column() {
    assert_eq!(move_caret(at(4, 2), KeyCode::Left, at(8, 3)), at(3, 2));
}

#[test]
fn left_stops_at_the_first_column() {
    assert_eq!(move_caret(at(0, 2), KeyCode::Left, at(8, 3)), at(0, 2));
}

#[test]
fn right_steps_forward_one_column() {
    assert_eq!(move_caret(at(4, 2), KeyCode::Right, at(8, 3)), at(5, 2));
}

#[test]
fn right_on_a_grid_without_columns_gives_zero() {
    assert_eq!(move_caret(at(4, 2), KeyCode::Right, at(0, 3)), at(0, 2));
}

#[test]
fn right_from_the_largest_column_does_not_wrap() {
    assert_eq!(move_caret(at(usize::MAX, 1), KeyCode::Right, at(8, 3)), at(7, 1));
}

#[test]
fn page_up_goes_to_the_top() {
    assert_eq!(move_caret(at(4, 2), KeyCode::PageUp, at(8, 3)), at(4, 0));
}

#[test]
fn page_down_goes_to_the_last_row() {
    assert_eq!(move_caret(at(4, 0), KeyCode::PageDown, at(8, 3)), at(4, 2));
    assert_eq!(move_caret(at(4, 1), KeyCode::PageDown, at(8, 0)), at(4, 0));
}

#[test]
fn home_goes_to_the_first_column() {
    assert_eq!(move_caret(at(4, 2), KeyCode::Home, at(8, 3)), at(0, 2));
}

#[test]
fn end_goes_to_the_last_column() {
    assert_eq!(move_caret(at(4, 2), KeyCode::End, at(8, 3)), at(7, 2));
    assert_eq!(move_caret(at(4, 2), KeyCode::End, at(0, 3)), at(4 - 4, 2));
}

#[test]
fn other_keys_leave_the_caret() {
    assert_eq!(move_caret(at(4, 2), KeyCode::Char('a'), at(8, 3)), at(4, 2));
    assert_eq!(move_caret(at(4, 2), KeyCode::Other, at(8, 3)), at(4, 2));
    assert_eq!(move_caret(at(40, 20), KeyCode::Other, at(8, 3)), at(40, 20));
}

#[test]
fn a_caret_on_the_grid_stays_on_the_grid() {
    for width in 0..5usize {
        for height in 0..5usize {
            let bounds = at(width, height);
            let last_column = width.saturating_sub(1);
            let last_row = height.saturating_sub(1);
            for x in 0..=last_column {
                for y in 0..=last_row {
                    for key in ALL_KEYS {
                        let caret = move_caret(at(x, y), key, bounds);
                        assert!(caret.x <= last_column, "{key:?} from ({x}, {y}) in {bounds:?}");
                        assert!(caret.y <= last_row, "{key:?} from ({x}, {y}) in {bounds:?}");
                    }
                }
            }
        }
    }
}

#[test]
fn a_caret_off_the_grid_is_clamped_only_along_the_axis_of_the_key() {
    // The column is off the grid and `Up` leaves it alone.
    assert_eq!(move_caret(at(5, 0), KeyCode::Up, at(3, 3)), at(5, 0));
    // `Up` takes one step and does not look at the bounds.
    assert_eq!(move_caret(at(0, 5), KeyCode::Up, at(80, 3)), at(0, 4));
    // One cell past the grid, a step back lands on it.
    assert_eq!(move_caret(at(0, 3), KeyCode::Up, at(80, 3)), at(0, 2));
    // The clamping keys bring their own axis back whatever it held.
    assert_eq!(move_caret(at(100, 100), KeyCode::Down, at(8, 3)), at(100, 2));
    assert_eq!(move_caret(at(100, 100), KeyCode::End, at(8, 3)), at(7, 100));
}
