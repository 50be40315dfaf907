use super::event::KeyCode;
use super::terminal::Coordinates;
use vstd::prelude::*;

verus! {

/// The last column of a grid `extent` columns wide, or the last row of one
/// `extent` rows high. A grid without cells has it at 0.
pub open spec fn last_cell(extent: usize) -> usize {
    if extent == 0 {
        0
    } else {
        (extent - 1) as usize
    }
}

/// One cell closer to the origin, stopping there.
pub open spec fn step_back(coordinate: usize) -> usize {
    if coordinate == 0 {
        0
    } else {
        (coordinate - 1) as usize
    }
}

/// One cell further from the origin, stopping at the last cell of a grid of
/// the given extent.
pub open spec fn step_forward(coordinate: usize, extent: usize) -> usize {
    if coordinate + 1 <= last_cell(extent) {
        (coordinate + 1) as usize
    } else {
        last_cell(extent)
    }
}

/// Where the caret goes from `current` when `key` is pressed on a grid of
/// size `bounds`. A key that does not navigate leaves it where it is.
pub open spec fn moved(current: Coordinates, key: KeyCode, bounds: Coordinates) -> Coordinates {
    match key {
        KeyCode::Up => Coordinates { x: current.x, y: step_back(current.y) },
        KeyCode::Down => Coordinates { x: current.x, y: step_forward(current.y, bounds.y) },
        KeyCode::Left => Coordinates { x: step_back(current.x), y: current.y },
        KeyCode::Right => Coordinates { x: step_forward(current.x, bounds.x), y: current.y },
        KeyCode::PageUp => Coordinates { x: current.x, y: 0 },
        KeyCode::PageDown => Coordinates { x: current.x, y: last_cell(bounds.y) },
        KeyCode::Home => Coordinates { x: 0, y: current.y },
        KeyCode::End => Coordinates { x: last_cell(bounds.x), y: current.y },
        _ => current,
    }
}

/// Whether `position` is a cell of a grid of size `bounds`, or the origin of
/// a grid without cells.
pub open spec fn within(position: Coordinates, bounds: Coordinates) -> bool {
    position.x <= last_cell(bounds.x) && position.y <= last_cell(bounds.y)
}

/// The inputs on which a move ends on the grid. Along the axis that `key`
/// leaves alone the caret must be on the grid already. `Up` and `Left` take
/// one step back without looking at the bounds, so along their own axis the
/// caret may be at most one cell past the grid. The other keys clamp their
/// own axis whatever it held.
pub open spec fn lands_within(current: Coordinates, key: KeyCode, bounds: Coordinates) -> bool {
    let column_fits = current.x <= last_cell(bounds.x);
    let row_fits = current.y <= last_cell(bounds.y);
    match key {
        KeyCode::Up => column_fits && current.y <= last_cell(bounds.y) + 1,
        KeyCode::Down | KeyCode::PageUp | KeyCode::PageDown => column_fits,
        KeyCode::Left => row_fits && current.x <= last_cell(bounds.x) + 1,
        KeyCode::Right | KeyCode::Home | KeyCode::End => row_fits,
        _ => column_fits && row_fits,
    }
}

/// Moves the caret from `current` as `key` asks, on a grid of size `bounds`.
///
/// `bounds` is the size of the terminal at the time of the key press. Every
/// step saturates: at 0 on the way back, at the last cell on the way forward.
pub fn move_caret(current: Coordinates, key: KeyCode, bounds: Coordinates) -> (caret: Coordinates)
    ensures
        caret == moved(current, key, bounds),
{
    let mut x: usize = current.x;
    let mut y: usize = current.y;
    let last_column: usize = bounds.x.saturating_sub(1);
    let last_row: usize = bounds.y.saturating_sub(1);
    match key {
        KeyCode::Up => {
            y = y.saturating_sub(1);
        },
        KeyCode::Down => {
            let below: usize = y.saturating_add(1);
            y = if below < last_row { below } else { last_row };
        },
        KeyCode::Left => {
            x = x.saturating_sub(1);
        },
        KeyCode::Right => {
            let beside: usize = x.saturating_add(1);
            x = if beside < last_column { beside } else { last_column };
        },
        KeyCode::PageUp => {
            y = 0;
        },
        KeyCode::PageDown => {
            y = last_row;
        },
        KeyCode::Home => {
            x = 0;
        },
        KeyCode::End => {
            x = last_column;
        },
        _ => {},
    }
    Coordinates { x, y }
}

/// A move ends on the grid whenever [`lands_within`] holds of its inputs.
pub proof fn lemma_move_lands_within(current: Coordinates, key: KeyCode, bounds: Coordinates)
    requires
        lands_within(current, key, bounds),
    ensures
        within(moved(current, key, bounds), bounds),
{
}

/// A move ends off the grid whenever [`lands_within`] fails of its inputs.
pub proof fn lemma_move_lands_outside(current: Coordinates, key: KeyCode, bounds: Coordinates)
    requires
        !lands_within(current, key, bounds),
    ensures
        !within(moved(current, key, bounds), bounds),
{
}

/// A caret on the grid stays on the grid, whatever key is pressed.
pub proof fn lemma_caret_stays_within(current: Coordinates, key: KeyCode, bounds: Coordinates)
    requires
        within(current, bounds),
    ensures
        within(moved(current, key, bounds), bounds),
{
}

} // verus!
