//! The directional inputs of one tick.

use vstd::prelude::*;
use crate::direction::Direction;

verus! {

/// The logical directions that went from released to pressed during the
/// current tick.
///
/// Several physical keys may stand for one direction; the set records the
/// direction once, however many of its keys went down. Its view is the set of
/// those directions.
#[derive(Clone, Copy, Debug, PartialEq, Eq, Structural, Hash)]
pub struct PressedSet {
    up: bool,
    down: bool,
    left: bool,
    right: bool,
}

impl View for PressedSet {
    type V = Set<Direction>;

    closed spec fn view(&self) -> Set<Direction> {
        Set::new(
            |d: Direction|
                match d {
                    Direction::Up => self.up,
                    Direction::Down => self.down,
                    Direction::Left => self.left,
                    Direction::Right => self.right,
                },
        )
    }
}

impl PressedSet {
    /// The set of a tick in which no directional key went down.
    pub fn new() -> (pressed: PressedSet)
        ensures
            pressed@ == Set::<Direction>::empty(),
    {
        let pressed = PressedSet { up: false, down: false, left: false, right: false };
        assert(pressed@ =~= Set::<Direction>::empty());
        pressed
    }

    /// Records that a key of `direction` went down during this tick.
    pub fn press(&mut self, direction: Direction)
        ensures
            final(self)@ == old(self)@.insert(direction),
    {
        match direction {
            Direction::Up => {
                self.up = true;
            },
            Direction::Down => {
                self.down = true;
            },
            Direction::Left => {
                self.left = true;
            },
            Direction::Right => {
                self.right = true;
            },
        }
        assert(self@ =~= old(self)@.insert(direction));
    }

    /// Whether a key of `direction` went down during this tick.
    pub fn contains(&self, direction: Direction) -> (hit: bool)
        ensures
            hit == self@.contains(direction),
    {
        match direction {
            Direction::Up => self.up,
            Direction::Down => self.down,
            Direction::Left => self.left,
            Direction::Right => self.right,
        }
    }

    /// The set that holds exactly the directions listed in `directions`, in
    /// whatever order and however often they occur there.
    pub fn from_directions(directions: &[Direction]) -> (pressed: PressedSet)
        ensures
            pressed@ == directions@.to_set(),
    {
        let mut pressed = PressedSet::new();
        let mut i: usize = 0;
        while i < directions.len()
            invariant
                i <= directions@.len(),
                pressed@ == directions@.take(i as int).to_set(),
            decreases directions@.len() - i,
        {
            pressed.press(directions[i]);
            proof {
                let before = directions@.take(i as int);
                let after = directions@.take(i + 1);
                assert(after =~= before.push(directions@[i as int]));
                assert(forall|k: int| 0 <= k < before.len() ==> before[k] == after[k]);
                assert(after[i as int] == directions@[i as int]);
                assert(after.to_set() =~= before.to_set().insert(directions@[i as int]));
            }
            i += 1;
        }
        assert(directions@.take(i as int) =~= directions@);
        pressed
    }
}

} // verus!
