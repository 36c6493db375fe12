//! Actions: what the player asks for this frame, read off the keyboard.

pub mod game_control;

use crate::actions::game_control::GameControl;
use crate::keyboard::{held_keys, Key};
use bevy::input::keyboard::KeyCode;
use bevy::input::Input;
use vstd::prelude::*;

verus! {

/// A two-axis digital direction. For the camera orbit, x is positive to the
/// left and y is positive upwards. The key mapping only ever produces
/// components of -1, 0 and 1.
#[derive(Clone, Copy, Debug, PartialEq, Eq, Structural)]
pub struct Direction {
    pub x: i32,
    pub y: i32,
}

/// The actions of the current frame. Each is `None` while nothing asks for it.
#[derive(Clone, Copy, Debug)]
pub struct Actions {
    pub player_movement: Option<Direction>,
    pub camera_orbit: Option<Direction>,
}

impl Default for Actions {
    fn default() -> (actions: Actions)
        ensures
            actions.player_movement.is_none(),
            actions.camera_orbit.is_none(),
    {
        Actions { player_movement: None, camera_orbit: None }
    }
}

/// What one control contributes along its axis: 1 while pressed, else 0.
pub open spec fn movement(control: GameControl, keys: Set<Key>) -> int {
    if control.held_in(keys) {
        1
    } else {
        0
    }
}

/// The net push along one axis: 1 when only the positive control is pressed,
/// -1 when only the negative one is, 0 when both or neither are.
pub open spec fn axis(positive: bool, negative: bool) -> int {
    if positive && !negative {
        1
    } else if negative && !positive {
        -1
    } else {
        0
    }
}

/// The orbit action for the four controls' states. Left is positive along x
/// and up is positive along y. A zero vector is no action.
pub open spec fn orbit_of(up: bool, down: bool, left: bool, right: bool) -> Option<Direction> {
    if axis(left, right) == 0 && axis(up, down) == 0 {
        None
    } else {
        Some(Direction { x: axis(left, right) as i32, y: axis(up, down) as i32 })
    }
}

/// The orbit action when exactly `keys` are held.
pub open spec fn orbit_intent(keys: Set<Key>) -> Option<Direction> {
    orbit_of(
        GameControl::OrbitCameraUp.held_in(keys),
        GameControl::OrbitCameraDown.held_in(keys),
        GameControl::OrbitCameraLeft.held_in(keys),
        GameControl::OrbitCameraRight.held_in(keys),
    )
}

/// Combines the four controls' states into the orbit action.
pub fn orbit_from_controls(up: bool, down: bool, left: bool, right: bool) -> (orbit: Option<Direction>)
    ensures
        orbit == orbit_of(up, down, left, right),
{
    let x: i32 = (if left { 1 } else { 0 }) - (if right { 1 } else { 0 });
    let y: i32 = (if up { 1 } else { 0 }) - (if down { 1 } else { 0 });
    if x != 0 || y != 0 {
        Some(Direction { x, y })
    } else {
        None
    }
}

/// Recomputes the camera-orbit action from the keyboard. The player-movement
/// action is left as it was.
pub fn set_movement_actions(actions: &mut Actions, keyboard_input: &Input<KeyCode>)
    ensures
        final(actions).camera_orbit == orbit_intent(held_keys(*keyboard_input)),
        final(actions).player_movement == old(actions).player_movement,
{
    actions.camera_orbit = orbit_from_controls(
        GameControl::OrbitCameraUp.pressed(keyboard_input),
        GameControl::OrbitCameraDown.pressed(keyboard_input),
        GameControl::OrbitCameraLeft.pressed(keyboard_input),
        GameControl::OrbitCameraRight.pressed(keyboard_input),
    );
}

/// Each component of an orbit action is the difference of what its two
/// controls contribute, so it is -1, 0 or 1, and the action is never the zero
/// vector.
pub proof fn lemma_orbit_components(keys: Set<Key>)
    ensures
        match orbit_intent(keys) {
            Some(direction) => {
                &&& direction.x == movement(GameControl::OrbitCameraLeft, keys) - movement(
                    GameControl::OrbitCameraRight,
                    keys,
                )
                &&& direction.y == movement(GameControl::OrbitCameraUp, keys) - movement(
                    GameControl::OrbitCameraDown,
                    keys,
                )
                &&& -1 <= direction.x <= 1
                &&& -1 <= direction.y <= 1
                &&& direction.x != 0 || direction.y != 0
            },
            None => {
                &&& movement(GameControl::OrbitCameraLeft, keys) == movement(
                    GameControl::OrbitCameraRight,
                    keys,
                )
                &&& movement(GameControl::OrbitCameraUp, keys) == movement(
                    GameControl::OrbitCameraDown,
                    keys,
                )
            },
        },
{
}

/// Along x an orbit action points 1 when left alone is pressed and -1 when
/// right alone is pressed; when both or neither are, it has no x component,
/// and there is no action at all unless up and down differ.
pub proof fn lemma_orbit_x(keys: Set<Key>)
    ensures
        ({
            let left = GameControl::OrbitCameraLeft.held_in(keys);
            let right = GameControl::OrbitCameraRight.held_in(keys);
            match orbit_intent(keys) {
                Some(direction) => direction.x == if left && !right {
                    1int
                } else if right && !left {
                    -1int
                } else {
                    0int
                },
                None => left == right,
            }
        }),
{
}

} // verus!
