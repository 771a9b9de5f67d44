//! The engine's keyboard state as the input source of a tick.

use bevy::input::keyboard::KeyCode;
use bevy::input::Input;
use std::hash::Hash;
use vstd::prelude::*;
use crate::direction::Direction;
use crate::keyboard::{all_keys, bound_keys, lemma_pressed_directions_insert, pressed_directions, Key};
use crate::pressed::PressedSet;

verus! {

/// `bevy::input::Input`: the engine's record of which inputs are held, which
/// went down during the current frame and which came up. It is declared so
/// that it can stand in signatures; nothing inside it is visible to proofs.
#[verifier::external_type_specification]
#[verifier::external_body]
#[verifier::reject_recursive_types(T)]
pub struct ExInput<T: Copy + Eq + Hash + Send + Sync + 'static>(Input<T>);

/// `bevy::input::keyboard::KeyCode`: the engine's name for a key of the
/// keyboard. It is declared so that it can stand in signatures.
#[verifier::external_type_specification]
#[verifier::external_body]
pub struct ExKeyCode(KeyCode);

/// The bound keys that `input` holds as having gone down during the current
/// frame: the keys for whose key code `Input::just_pressed` answers `true`.
/// What the set is for a given `input` is the engine's to say; nothing here
/// defines it.
pub uninterp spec fn just_pressed_keys(input: Input<KeyCode>) -> Set<Key>;

/// Calls `Input::just_pressed` of `bevy` with the key code that bears the
/// name of `key`.
///
/// Taken on trust, not proved: the answer tells whether `key` is among
/// `just_pressed_keys(*input)`, so the same record asked about the same key
/// answers the same. The engine looks the key code up in the set of inputs
/// that it marked as just pressed.
#[verifier::external_body]
fn just_pressed(input: &Input<KeyCode>, key: Key) -> (hit: bool)
    ensures
        hit == just_pressed_keys(*input).contains(key),
{
    input.just_pressed(
        match key {
            Key::W => KeyCode::W,
            Key::A => KeyCode::A,
            Key::S => KeyCode::S,
            Key::D => KeyCode::D,
            Key::Up => KeyCode::Up,
            Key::Left => KeyCode::Left,
            Key::Down => KeyCode::Down,
            Key::Right => KeyCode::Right,
        },
    )
}

/// The directions newly pressed in the current frame of `input`: a direction
/// is pressed when at least one of its two keys went down during the frame.
/// A key that is merely held does not count, and neither does a key that is
/// bound to no direction.
pub fn newly_pressed(input: &Input<KeyCode>) -> (pressed: PressedSet)
    ensures
        pressed@ == pressed_directions(just_pressed_keys(*input)),
{
    let keys = all_keys();
    let mut pressed = PressedSet::new();
    let ghost mut seen: Set<Key> = Set::empty();
    let mut i: usize = 0;
    proof {
        assert(pressed_directions(seen) =~= Set::<Direction>::empty());
    }
    while i < 8
        invariant
            i <= 8,
            keys@ == bound_keys(),
            pressed@ == pressed_directions(seen),
            forall|k: Key|
                seen.contains(k) <==> just_pressed_keys(*input).contains(k) && exists|j: int|
                    0 <= j < i && bound_keys()[j] == k,
        decreases 8 - i,
    {
        let key = keys[i];
        if just_pressed(input, key) {
            pressed.press(key.direction());
            proof {
                lemma_pressed_directions_insert(seen, key);
                seen = seen.insert(key);
            }
        }
        i += 1;
    }
    proof {
        assert forall|k: Key| just_pressed_keys(*input).contains(k) implies seen.contains(k) by {
            let j: int = match k {
                Key::W => 0,
                Key::A => 1,
                Key::S => 2,
                Key::D => 3,
                Key::Up => 4,
                Key::Left => 5,
                Key::Down => 6,
                Key::Right => 7,
            };
            assert(bound_keys()[j] == k);
        }
        assert(seen =~= just_pressed_keys(*input));
    }
    pressed
}

} // verus!
