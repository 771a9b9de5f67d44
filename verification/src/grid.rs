//! Positions on the level grid.

use vstd::prelude::*;
use crate::direction::Direction;

verus! {

/// The cell of the level grid that an entity stands on.
///
/// Its view is the pair `(x, y)` as mathematical integers.
#[derive(Clone, Copy, Debug, PartialEq, Eq, Structural, Hash)]
pub struct GridCoordinate {
    pub x: i32,
    pub y: i32,
}

impl View for GridCoordinate {
    type V = (int, int);

    open spec fn view(&self) -> (int, int) {
        (self.x as int, self.y as int)
    }
}

impl GridCoordinate {
    /// The coordinate of cell `(x, y)`.
    pub fn new(x: i32, y: i32) -> (cell: GridCoordinate)
        ensures
            cell.x == x,
            cell.y == y,
            cell@ == (x as int, y as int),
    {
        GridCoordinate { x, y }
    }
}

/// The cell reached from `cell` by one step in `direction`, and `cell`
/// itself where there is no direction. The grid is unbounded.
pub open spec fn step(cell: (int, int), direction: Option<Direction>) -> (int, int) {
    match direction {
        Some(d) => (cell.0 + d.dx(), cell.1 + d.dy()),
        None => cell,
    }
}

/// Whether a `GridCoordinate` can hold `cell`.
pub open spec fn representable(cell: (int, int)) -> bool {
    &&& i32::MIN <= cell.0 <= i32::MAX
    &&& i32::MIN <= cell.1 <= i32::MAX
}

/// Whether `to` differs from `from` on exactly one axis, and there by exactly
/// one cell.
pub open spec fn one_cell_apart(from: (int, int), to: (int, int)) -> bool {
    ||| (to.1 == from.1 && (to.0 == from.0 + 1 || to.0 == from.0 - 1))
    ||| (to.0 == from.0 && (to.1 == from.1 + 1 || to.1 == from.1 - 1))
}

/// A step changes exactly one axis by exactly one cell and leaves the other
/// axis alone; without a direction the cell stays what it was.
pub proof fn lemma_step_moves_one_axis(cell: (int, int), direction: Option<Direction>)
    ensures
        direction is None ==> step(cell, direction) == cell,
        direction is Some ==> one_cell_apart(cell, step(cell, direction)),
{
}

} // verus!
