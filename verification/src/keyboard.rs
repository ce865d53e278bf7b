//! Reading the arrow keys from the engine's keyboard state, and the per-tick
//! steering of the bike that is driven by it.

use crate::heading::{Bike, Key, Keys, Turn};
use bevy::input::keyboard::KeyCode;
use bevy::input::Input;
use std::hash::Hash;
use vstd::prelude::*;

verus! {

/// The engine's record of which inputs are down, went down and came up
/// during the current frame. Its contents are hidden from the verifier.
#[verifier::external_type_specification]
#[verifier::external_body]
#[verifier::reject_recursive_types(T)]
pub struct ExInput<T: Eq + Hash>(bevy::input::Input<T>);

/// The engine's identifier of a keyboard key. Hidden from the verifier.
#[verifier::external_type_specification]
#[verifier::external_body]
pub struct ExKeyCode(bevy::input::keyboard::KeyCode);

/// The arrow keys that `input` holds as just pressed: those that went down
/// since the engine last cleared the per-frame state. This names what
/// `Input::just_pressed` answers for the four arrow keys; it is a function
/// of the contents of `input` alone.
pub uninterp spec fn just_pressed_keys(input: Input<KeyCode>) -> Set<Key>;

/// Asks the engine whether `key` has just been pressed, by
/// `bevy::input::Input::just_pressed` on the matching `KeyCode`. Trusted:
/// the answer is membership of `key` in the just-pressed set of `input`,
/// which the call looks up without changing anything.
#[verifier::external_body]
fn just_pressed(input: &Input<KeyCode>, key: Key) -> (hit: bool)
    ensures
        hit == just_pressed_keys(*input).contains(key),
{
    input.just_pressed(
        match key {
            Key::Right => KeyCode::Right,
            Key::Left => KeyCode::Left,
            Key::Up => KeyCode::Up,
            Key::Down => KeyCode::Down,
        },
    )
}

/// Takes the snapshot of one tick: which arrow keys have just been pressed
/// according to `input`.
pub fn read_keys(input: &Input<KeyCode>) -> (keys: Keys)
    ensures
        keys@ == just_pressed_keys(*input),
{
    let keys = Keys {
        right: just_pressed(input, Key::Right),
        left: just_pressed(input, Key::Left),
        up: just_pressed(input, Key::Up),
        down: just_pressed(input, Key::Down),
    };
    assert(keys@ =~= just_pressed_keys(*input)) by {
        assert forall|key: Key| keys@.contains(key) == just_pressed_keys(*input).contains(
            key,
        ) by {
            assert(keys@.contains(key) == keys.has(key));
        }
    }
    keys
}

/// One tick of steering: reads the arrow keys that have just been pressed
/// and applies them to the bike. Returns the turn to carry out on the
/// bike's body (new velocity, quarter turn of yaw), or `None` where the
/// input leaves the bike alone.
pub fn move_bike(keyboard_input: &Input<KeyCode>, bike: &mut Bike) -> (turn: Option<Turn>)
    ensures
        turn == old(bike).steered(just_pressed_keys(*keyboard_input)),
        *final(bike) == old(bike).after(just_pressed_keys(*keyboard_input)),
{
    let keys = read_keys(keyboard_input);
    bike.steer(keys)
}

} // verus!
