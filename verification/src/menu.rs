//! The role menu: an ordered list of entries and a highlighted index that
//! moves one step at a time and stops at either end.

use vstd::prelude::*;

verus! {

/// Number of menu entries: server, client, quit.
pub const OPTION_COUNT: i64 = 3;

/// A directional input.
#[derive(Clone, Copy, Debug, PartialEq, Eq, Structural)]
pub enum Direction {
    Up,
    Down,
}

impl Direction {
    /// The signed step that the direction stands for.
    pub open spec fn delta(self) -> int {
        match self {
            Direction::Up => -1,
            Direction::Down => 1,
        }
    }
}

/// `index` pulled into `[0, option_count - 1]`.
pub open spec fn clamp_index(index: int, option_count: int) -> int {
    if index < 0 {
        0
    } else if index >= option_count {
        option_count - 1
    } else {
        index
    }
}

/// The index one step from `current_index` in `direction`, clamped to the
/// menu; there is no wraparound.
pub open spec fn moved(current_index: int, direction: Direction, option_count: int) -> int {
    clamp_index(current_index + direction.delta(), option_count)
}

/// Moves the highlighted index by one entry. Whatever the starting index,
/// the result lies within the menu.
pub fn move_selection(current_index: i64, direction: Direction, option_count: i64) -> (new_index:
    i64)
    requires
        option_count > 0,
    ensures
        new_index == moved(current_index as int, direction, option_count as int),
        0 <= new_index < option_count,
{
    let last: i64 = option_count - 1;
    match direction {
        Direction::Up => {
            if current_index <= 0 {
                0
            } else if current_index > option_count {
                last
            } else {
                current_index - 1
            }
        },
        Direction::Down => {
            if current_index < 0 {
                0
            } else if current_index >= last {
                last
            } else {
                current_index + 1
            }
        },
    }
}

} // verus!
