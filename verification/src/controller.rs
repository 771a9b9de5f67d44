//! The movement controller: from a tick's pressed directions to the new
//! position of every controlled entity.

use vstd::prelude::*;
use crate::direction::Direction;
use crate::grid::{one_cell_apart, representable, step, GridCoordinate};
use crate::pressed::PressedSet;

verus! {

/// The order in which simultaneously pressed directions are tried.
pub open spec fn precedence() -> Seq<Direction> {
    seq![Direction::Up, Direction::Left, Direction::Down, Direction::Right]
}

/// The one step that a tick with the directions `pressed` takes: the first
/// pressed direction in the order `Up`, `Left`, `Down`, `Right`, and none
/// when nothing is pressed.
pub open spec fn resolved(pressed: Set<Direction>) -> Option<Direction> {
    if pressed.contains(Direction::Up) {
        Some(Direction::Up)
    } else if pressed.contains(Direction::Left) {
        Some(Direction::Left)
    } else if pressed.contains(Direction::Down) {
        Some(Direction::Down)
    } else if pressed.contains(Direction::Right) {
        Some(Direction::Right)
    } else {
        None
    }
}

/// The tie-break order as a list, first choice first.
pub fn precedence_order() -> (order: [Direction; 4])
    ensures
        order@ == precedence(),
        forall|i: int| 0 <= i < 4 ==> (#[trigger] order@[i]).rank() == i,
{
    let order = [Direction::Up, Direction::Left, Direction::Down, Direction::Right];
    assert(order@ =~= precedence());
    order
}

/// Resolves the directions pressed during a tick to at most one step.
///
/// The tie-break order is scanned from its first entry, and the first entry
/// that is pressed wins. The result depends on the members of the set alone:
/// two sets with the same view resolve alike, and so does the same set when
/// it is resolved again.
pub fn resolve_direction(pressed: &PressedSet) -> (direction: Option<Direction>)
    ensures
        direction == resolved(pressed@),
        direction is None <==> pressed@ == Set::<Direction>::empty(),
        direction matches Some(d) ==> pressed@.contains(d) && forall|e: Direction|
            pressed@.contains(e) ==> d.rank() <= e.rank(),
{
    proof {
        lemma_resolved_is_first_pressed(pressed@);
    }
    let order = precedence_order();
    let mut i: usize = 0;
    while i < 4
        invariant
            i <= 4,
            order@ == precedence(),
            forall|k: int| 0 <= k < i ==> !pressed@.contains(#[trigger] precedence()[k]),
        decreases 4 - i,
    {
        let candidate = order[i];
        if pressed.contains(candidate) {
            return Some(candidate);
        }
        i += 1;
    }
    None
}

/// Whether one step in `direction` from `position` stays within the
/// coordinates that a `GridCoordinate` can hold.
pub fn can_move(position: GridCoordinate, direction: Option<Direction>) -> (fits: bool)
    ensures
        fits == representable(step(position@, direction)),
{
    match direction {
        None => true,
        Some(Direction::Up) => position.y < i32::MAX,
        Some(Direction::Down) => position.y > i32::MIN,
        Some(Direction::Left) => position.x > i32::MIN,
        Some(Direction::Right) => position.x < i32::MAX,
    }
}

/// Moves `position` by one step in `direction`; without a direction the
/// position is returned as it is.
///
/// Exactly one axis changes, by exactly one cell. The grid has no bounds of
/// its own: the only positions left out are those from which the step would
/// leave the range of `i32`.
pub fn apply_movement(position: GridCoordinate, direction: Option<Direction>) -> (moved: GridCoordinate)
    requires
        representable(step(position@, direction)),
    ensures
        moved@ == step(position@, direction),
        direction is None ==> moved == position,
        direction is Some ==> one_cell_apart(position@, moved@),
{
    match direction {
        None => position,
        Some(d) => {
            let v: (i32, i32) = d.unit_vector();
            GridCoordinate { x: position.x + v.0, y: position.y + v.1 }
        },
    }
}

/// One tick: the pressed directions are resolved once, and every position
/// moves by that same step. With nothing pressed every position stays.
pub fn tick(positions: &mut Vec<GridCoordinate>, pressed: &PressedSet)
    requires
        forall|i: int|
            0 <= i < old(positions)@.len() ==> representable(
                step((#[trigger] old(positions)@[i])@, resolved(pressed@)),
            ),
    ensures
        final(positions)@.len() == old(positions)@.len(),
        forall|i: int|
            0 <= i < old(positions)@.len() ==> (#[trigger] final(positions)@[i])@ == step(
                old(positions)@[i]@,
                resolved(pressed@),
            ),
{
    let direction = resolve_direction(pressed);
    let mut i: usize = 0;
    while i < positions.len()
        invariant
            i <= positions@.len(),
            positions@.len() == old(positions)@.len(),
            direction == resolved(pressed@),
            forall|k: int|
                0 <= k < i ==> (#[trigger] positions@[k])@ == step(old(positions)@[k]@, direction),
            forall|k: int| i <= k < positions@.len() ==> positions@[k] == old(positions)@[k],
            forall|k: int|
                0 <= k < old(positions)@.len() ==> representable(
                    step((#[trigger] old(positions)@[k])@, direction),
                ),
        decreases positions@.len() - i,
    {
        let moved = apply_movement(positions[i], direction);
        positions.set(i, moved);
        i += 1;
    }
}

/// What `resolved` picks is pressed, and no pressed direction comes before it
/// in the tie-break order; it picks nothing exactly when nothing is pressed.
pub proof fn lemma_resolved_is_first_pressed(pressed: Set<Direction>)
    ensures
        resolved(pressed) is None <==> pressed == Set::<Direction>::empty(),
        resolved(pressed) matches Some(d) ==> pressed.contains(d) && forall|e: Direction|
            pressed.contains(e) ==> d.rank() <= e.rank(),
{
    if resolved(pressed) is None {
        assert forall|e: Direction| !pressed.contains(e) by {
            match e {
                Direction::Up => {},
                Direction::Left => {},
                Direction::Down => {},
                Direction::Right => {},
            }
        }
        assert(pressed =~= Set::<Direction>::empty());
    }
}

/// Sets with the same members resolve to the same step.
pub proof fn lemma_resolved_depends_on_members(a: Set<Direction>, b: Set<Direction>)
    requires
        forall|d: Direction| a.contains(d) <==> b.contains(d),
    ensures
        resolved(a) == resolved(b),
{
}

/// With nothing pressed there is no step, and no position changes.
pub proof fn lemma_no_input_no_movement(cell: (int, int))
    ensures
        resolved(Set::<Direction>::empty()) is None,
        step(cell, resolved(Set::<Direction>::empty())) == cell,
{
}

} // verus!
