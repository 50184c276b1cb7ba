//! Moving the ball along the track: forward towards the green, bouncing back
//! once it runs past the last green cell, and never back behind cell 1.
use vstd::prelude::*;
use crate::terrain::{ActiveCourseTrack, MovementDirection, TerrainType};

verus! {

/// Whether a cell is a green.
pub open spec fn is_green(t: TerrainType) -> bool {
    t is Green
}

/// The index of cell `i` as the movement rules count it: a `u32`, so an
/// index past the largest `u32` wraps round.
pub open spec fn counted_index(i: int) -> int {
    (i as u32) as int
}

/// The largest counted index among the cells below `n` that are greens, or 0
/// when there is none.
pub open spec fn last_green_below(cells: Seq<TerrainType>, n: nat) -> int
    decreases n,
{
    if n == 0 {
        0
    } else {
        let m = last_green_below(cells, (n - 1) as nat);
        let idx = counted_index(n - 1);
        if is_green(cells[n - 1]) && idx > m {
            idx
        } else {
            m
        }
    }
}

/// The smallest counted index among the cells below `n` that are greens, or
/// `none` when it is smaller than all of them (or there is none).
pub open spec fn first_green_below(cells: Seq<TerrainType>, n: nat, none: int) -> int
    decreases n,
{
    if n == 0 {
        none
    } else {
        let m = first_green_below(cells, (n - 1) as nat, none);
        let idx = counted_index(n - 1);
        if is_green(cells[n - 1]) && idx < m {
            idx
        } else {
            m
        }
    }
}

/// The index of the last green cell of the track, or 0 when it has none.
pub open spec fn last_green(course: ActiveCourseTrack) -> int {
    last_green_below(course.cells@, course.cells@.len())
}

/// The index of the first green cell of the track, capped at the number of
/// cells the movement rules count with.
pub open spec fn first_green(course: ActiveCourseTrack) -> int {
    first_green_below(course.cells@, course.cells@.len(), course.total_cells as int)
}

/// Where a ball on `current` ends after moving `roll` cells in `direction`,
/// and the direction it travels in afterwards.
///
/// Going forward, the ball moves `roll` cells (stopping at the largest `u32`);
/// past the last green it turns round, and it never goes beyond the last
/// counted cell. Going back, a roll larger than the position puts it on cell 1
/// heading forward; otherwise it moves back `roll` cells, turns forward once it
/// is before the first green, and is put on cell 1 heading forward if it
/// reaches the tee.
pub open spec fn movement_outcome(
    current: u32,
    roll: u8,
    direction: MovementDirection,
    total_cells: u32,
    last_green_idx: int,
    first_green_idx: int,
) -> (u32, MovementDirection) {
    match direction {
        MovementDirection::Forward => {
            let moved: int = if current + roll > u32::MAX { u32::MAX as int } else { current + roll };
            let next = if moved > last_green_idx {
                MovementDirection::Reverse
            } else {
                MovementDirection::Forward
            };
            let target: int = if moved >= total_cells {
                if total_cells == 0 { 0 } else { total_cells - 1 }
            } else {
                moved
            };
            (target as u32, next)
        },
        MovementDirection::Reverse => {
            if current < roll {
                (1, MovementDirection::Forward)
            } else {
                let moved: int = current - roll;
                if moved < 1 {
                    (1, MovementDirection::Forward)
                } else if moved < first_green_idx {
                    (moved as u32, MovementDirection::Forward)
                } else {
                    (moved as u32, MovementDirection::Reverse)
                }
            }
        },
    }
}

/// Moves a ball on `current_position` by `roll` cells in `direction` along
/// `course`, returning the cell it ends on and its new direction.
pub fn resolve_movement_position(
    current_position: u32,
    roll: u8,
    direction: MovementDirection,
    course: &ActiveCourseTrack,
) -> (outcome: (u32, MovementDirection))
    ensures
        outcome == movement_outcome(
            current_position,
            roll,
            direction,
            course.total_cells,
            last_green(*course),
            first_green(*course),
        ),
        direction is Forward && course.total_cells > 0 ==> outcome.0 < course.total_cells,
        direction is Reverse ==> outcome.0 >= 1,
{
    let total_cells = course.total_cells;

    let mut max_green_idx: u32 = 0;
    let mut min_green_idx: u32 = total_cells;
    let n = course.cells.len();
    let mut i: usize = 0;
    while i < n
        invariant
            n == course.cells@.len(),
            i <= n,
            max_green_idx == last_green_below(course.cells@, i as nat),
            min_green_idx == first_green_below(course.cells@, i as nat, total_cells as int),
            total_cells == course.total_cells,
        decreases n - i,
    {
        if let TerrainType::Green(_) = course.cells[i] {
            let idx = i as u32;
            if idx > max_green_idx {
                max_green_idx = idx;
            }
            if idx < min_green_idx {
                min_green_idx = idx;
            }
        }
        i = i + 1;
    }

    let mut target_cell: u32;
    let mut next_direction = direction;

    match direction {
        MovementDirection::Forward => {
            target_cell = current_position.saturating_add(roll as u32);
            if target_cell > max_green_idx {
                next_direction = MovementDirection::Reverse;
            }
            if target_cell >= total_cells {
                target_cell = total_cells.saturating_sub(1);
            }
        },
        MovementDirection::Reverse => {
            if current_position < roll as u32 {
                target_cell = 1;
                next_direction = MovementDirection::Forward;
            } else {
                target_cell = current_position - roll as u32;
                if target_cell < min_green_idx {
                    next_direction = MovementDirection::Forward;
                }
                if target_cell < 1 {
                    target_cell = 1;
                    next_direction = MovementDirection::Forward;
                }
            }
        },
    }

    (target_cell, next_direction)
}

} // verus!
