//! The steps an entity can take in one tick.

use vstd::prelude::*;

verus! {

/// One of the four unit steps on the grid.
///
/// "No movement" is the absence of a direction: wherever a tick may leave an
/// entity in place, the type is `Option<Direction>`.
#[derive(Clone, Copy, Debug, PartialEq, Eq, Structural, Hash)]
pub enum Direction {
    /// One cell towards larger `y`.
    Up,
    /// One cell towards smaller `y`.
    Down,
    /// One cell towards smaller `x`.
    Left,
    /// One cell towards larger `x`.
    Right,
}

impl Direction {
    /// Horizontal component of the step.
    pub open spec fn dx(self) -> int {
        match self {
            Direction::Left => -1,
            Direction::Right => 1,
            _ => 0,
        }
    }

    /// Vertical component of the step.
    pub open spec fn dy(self) -> int {
        match self {
            Direction::Up => 1,
            Direction::Down => -1,
            _ => 0,
        }
    }

    /// Place of the direction in the tie-break order: `Up` comes first, then
    /// `Left`, `Down` and `Right`.
    pub open spec fn rank(self) -> nat {
        match self {
            Direction::Up => 0,
            Direction::Left => 1,
            Direction::Down => 2,
            Direction::Right => 3,
        }
    }

    /// The step as a pair `(dx, dy)`.
    pub fn unit_vector(self) -> (v: (i32, i32))
        ensures
            v.0 == self.dx(),
            v.1 == self.dy(),
    {
        match self {
            Direction::Up => (0, 1),
            Direction::Down => (0, -1),
            Direction::Left => (-1, 0),
            Direction::Right => (1, 0),
        }
    }
}

} // verus!
