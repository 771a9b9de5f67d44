//! The physical keys that steer, and the direction each is bound to.

use vstd::prelude::*;
use crate::direction::Direction;
use crate::pressed::PressedSet;

verus! {

/// A physical key that is bound to a direction: the letter keys `W`, `A`,
/// `S`, `D` and the four arrow keys.
#[derive(Clone, Copy, Debug, PartialEq, Eq, Structural, Hash)]
pub enum Key {
    W,
    A,
    S,
    D,
    Up,
    Left,
    Down,
    Right,
}

impl Key {
    /// The direction that the key is bound to. Each direction has two keys:
    /// a letter and an arrow.
    pub open spec fn binding(self) -> Direction {
        match self {
            Key::W | Key::Up => Direction::Up,
            Key::A | Key::Left => Direction::Left,
            Key::S | Key::Down => Direction::Down,
            Key::D | Key::Right => Direction::Right,
        }
    }

    /// The direction that the key is bound to.
    pub fn direction(self) -> (direction: Direction)
        ensures
            direction == self.binding(),
    {
        match self {
            Key::W | Key::Up => Direction::Up,
            Key::A | Key::Left => Direction::Left,
            Key::S | Key::Down => Direction::Down,
            Key::D | Key::Right => Direction::Right,
        }
    }
}

/// Every bound key, letters first.
pub open spec fn bound_keys() -> Seq<Key> {
    seq![Key::W, Key::A, Key::S, Key::D, Key::Up, Key::Left, Key::Down, Key::Right]
}

/// The directions that have at least one of `keys` bound to them.
pub open spec fn pressed_directions(keys: Set<Key>) -> Set<Direction> {
    Set::new(|d: Direction| exists|k: Key| keys.contains(k) && k.binding() == d)
}

/// Every bound key, letters first.
pub fn all_keys() -> (keys: [Key; 8])
    ensures
        keys@ == bound_keys(),
{
    let keys = [Key::W, Key::A, Key::S, Key::D, Key::Up, Key::Left, Key::Down, Key::Right];
    assert(keys@ =~= bound_keys());
    keys
}

/// The pressed set of a tick in which exactly the keys listed in `keys` went
/// down: a direction is in it when one of its keys is listed.
pub fn pressed_from_keys(keys: &[Key]) -> (pressed: PressedSet)
    ensures
        pressed@ == pressed_directions(keys@.to_set()),
{
    let mut pressed = PressedSet::new();
    let mut i: usize = 0;
    while i < keys.len()
        invariant
            i <= keys@.len(),
            pressed@ == pressed_directions(keys@.take(i as int).to_set()),
        decreases keys@.len() - i,
    {
        pressed.press(keys[i].direction());
        proof {
            let before = keys@.take(i as int);
            let after = keys@.take(i + 1);
            let key = keys@[i as int];
            assert(after =~= before.push(key));
            assert(forall|k: int| 0 <= k < before.len() ==> before[k] == after[k]);
            assert(after[i as int] == key);
            assert(after.to_set() =~= before.to_set().insert(key));
            lemma_pressed_directions_insert(before.to_set(), key);
        }
        i += 1;
    }
    assert(keys@.take(i as int) =~= keys@);
    pressed
}

/// One more key adds its direction to the pressed directions, and nothing
/// else.
pub proof fn lemma_pressed_directions_insert(keys: Set<Key>, key: Key)
    ensures
        pressed_directions(keys.insert(key)) == pressed_directions(keys).insert(key.binding()),
{
    let more = pressed_directions(keys.insert(key));
    let grown = pressed_directions(keys).insert(key.binding());
    assert forall|d: Direction| more.contains(d) implies grown.contains(d) by {
        let k = choose|k: Key| keys.insert(key).contains(k) && k.binding() == d;
        if k != key {
            assert(keys.contains(k) && k.binding() == d);
        }
    }
    assert forall|d: Direction| grown.contains(d) implies more.contains(d) by {
        if d == key.binding() {
            assert(keys.insert(key).contains(key) && key.binding() == d);
        } else {
            let k = choose|k: Key| keys.contains(k) && k.binding() == d;
            assert(keys.insert(key).contains(k) && k.binding() == d);
        }
    }
    assert(more =~= grown);
}

} // verus!
