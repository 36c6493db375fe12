//! The keyboard state of the engine, as far as the orbit controls read it.

use bevy::input::keyboard::KeyCode;
use bevy::input::Input;
use vstd::prelude::*;

verus! {

/// The physical keys that the orbit controls are bound to.
#[derive(Clone, Copy, Debug, PartialEq, Eq, Structural)]
pub enum Key {
    W,
    A,
    S,
    D,
    Up,
    Down,
    Left,
    Right,
}

/// The engine's key code, carried through as an opaque value.
#[verifier::external_type_specification]
#[verifier::external_body]
pub struct ExKeyCode(KeyCode);

/// The engine's record of which inputs are pressed, carried through as an
/// opaque value.
#[verifier::external_type_specification]
#[verifier::external_body]
#[verifier::reject_recursive_types(T)]
pub struct ExInput<T: Copy + Eq + std::hash::Hash + Send + Sync + 'static>(Input<T>);

/// The bound keys that `input` records as currently held: a `Key` is in the
/// set exactly when the key code of the same name is in the engine's set of
/// pressed inputs.
pub uninterp spec fn held_keys(input: Input<KeyCode>) -> Set<Key>;

/// Asks the engine whether a key is held, by `Input::pressed` on the key code
/// that `key` names. `Input::pressed` is a membership test on the set of
/// pressed inputs, which is what `held_keys` stands for.
#[verifier::external_body]
pub(crate) fn key_held(input: &Input<KeyCode>, key: Key) -> (held: bool)
    ensures
        held == held_keys(*input).contains(key),
{
    input.pressed(match key {
        Key::W => KeyCode::W,
        Key::A => KeyCode::A,
        Key::S => KeyCode::S,
        Key::D => KeyCode::D,
        Key::Up => KeyCode::Up,
        Key::Down => KeyCode::Down,
        Key::Left => KeyCode::Left,
        Key::Right => KeyCode::Right,
    })
}

} // verus!
