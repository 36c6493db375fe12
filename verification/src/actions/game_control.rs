//! The four orbit controls and their key bindings.

use crate::actions::movement;
use crate::keyboard::{held_keys, key_held, Key};
use bevy::input::keyboard::KeyCode;
use bevy::input::Input;
use vstd::prelude::*;

verus! {

/// A logical control of the orbit camera. Each is bound to two keys, a letter
/// and an arrow, and counts as pressed while either is held.
#[derive(Clone, Copy, Debug, PartialEq, Eq, Structural)]
pub enum GameControl {
    OrbitCameraUp,
    OrbitCameraDown,
    OrbitCameraLeft,
    OrbitCameraRight,
}

impl GameControl {
    /// Whether this control counts as pressed when exactly `keys` are held.
    pub open spec fn held_in(self, keys: Set<Key>) -> bool {
        match self {
            GameControl::OrbitCameraUp => keys.contains(Key::W) || keys.contains(Key::Up),
            GameControl::OrbitCameraDown => keys.contains(Key::S) || keys.contains(Key::Down),
            GameControl::OrbitCameraLeft => keys.contains(Key::A) || keys.contains(Key::Left),
            GameControl::OrbitCameraRight => keys.contains(Key::D) || keys.contains(Key::Right),
        }
    }

    /// Whether either key bound to this control is held.
    pub fn pressed(&self, keyboard_input: &Input<KeyCode>) -> (held: bool)
        ensures
            held == self.held_in(held_keys(*keyboard_input)),
    {
        match self {
            GameControl::OrbitCameraUp => {
                key_held(keyboard_input, Key::W) || key_held(keyboard_input, Key::Up)
            },
            GameControl::OrbitCameraDown => {
                key_held(keyboard_input, Key::S) || key_held(keyboard_input, Key::Down)
            },
            GameControl::OrbitCameraLeft => {
                key_held(keyboard_input, Key::A) || key_held(keyboard_input, Key::Left)
            },
            GameControl::OrbitCameraRight => {
                key_held(keyboard_input, Key::D) || key_held(keyboard_input, Key::Right)
            },
        }
    }
}

/// What `control` contributes along its axis: 1 while it is pressed, else 0.
pub fn get_movement(control: GameControl, input: &Input<KeyCode>) -> (amount: i32)
    ensures
        amount == movement(control, held_keys(*input)),
{
    if control.pressed(input) {
        1
    } else {
        0
    }
}

} // verus!
