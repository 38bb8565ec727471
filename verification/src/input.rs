//! Keyboard and mouse state, read from the engine's input resource.

use vstd::prelude::*;
use bevy::input::ButtonInput;
use bevy::input::keyboard::KeyCode;
use bevy::input::mouse::MouseButton;
use std::hash::Hash;

verus! {

/// `bevy::input::ButtonInput`, the engine's record of which buttons are
/// down. It is carried through as it is: what it holds is known only by the
/// names below.
#[verifier::external_type_specification]
#[verifier::external_body]
#[verifier::reject_recursive_types(T)]
pub struct ExButtonInput<T: Copy + Eq + Hash + Send + Sync + 'static>(ButtonInput<T>);

/// `bevy::input::keyboard::KeyCode`, the engine's name for a key.
#[verifier::external_type_specification]
#[verifier::external_body]
pub struct ExKeyCode(KeyCode);

/// `bevy::input::mouse::MouseButton`, the engine's name for a mouse button.
#[verifier::external_type_specification]
#[verifier::external_body]
pub struct ExMouseButton(MouseButton);

/// The keys that the scenes react to.
#[derive(Debug, Clone, Copy, PartialEq, Eq, Hash, Structural)]
pub enum Key {
    KeyW,
    KeyA,
    KeyS,
    KeyD,
    ArrowUp,
    ArrowDown,
    ArrowLeft,
    ArrowRight,
    Escape,
}

/// The keys of [`Key`] that `input` holds as pressed: those between a press
/// and a release.
pub uninterp spec fn pressed_keys(input: ButtonInput<KeyCode>) -> Set<Key>;

/// The keys of [`Key`] that `input` holds as just pressed: those whose press
/// came in the current frame.
pub uninterp spec fn just_pressed_keys(input: ButtonInput<KeyCode>) -> Set<Key>;

/// Whether `input` holds the left mouse button as just pressed.
pub uninterp spec fn left_just_pressed(input: ButtonInput<MouseButton>) -> bool;

/// `bevy::input::ButtonInput::pressed` on the key code that stands for `key`.
/// The contract gives the answer a name: whether `key` is among the keys that
/// `input` holds as pressed.
#[verifier::external_body]
pub(crate) fn pressed(input: &ButtonInput<KeyCode>, key: Key) -> (held: bool)
    ensures
        held == pressed_keys(*input).contains(key),
{
    input.pressed(match key {
        Key::KeyW => KeyCode::KeyW,
        Key::KeyA => KeyCode::KeyA,
        Key::KeyS => KeyCode::KeyS,
        Key::KeyD => KeyCode::KeyD,
        Key::ArrowUp => KeyCode::ArrowUp,
        Key::ArrowDown => KeyCode::ArrowDown,
        Key::ArrowLeft => KeyCode::ArrowLeft,
        Key::ArrowRight => KeyCode::ArrowRight,
        Key::Escape => KeyCode::Escape,
    })
}

/// `bevy::input::ButtonInput::just_pressed` on the key code of Escape. The
/// contract gives the answer a name: whether Escape is among the keys that
/// `input` holds as just pressed.
#[verifier::external_body]
pub(crate) fn escape_just_pressed(input: &ButtonInput<KeyCode>) -> (hit: bool)
    ensures
        hit == just_pressed_keys(*input).contains(Key::Escape),
{
    input.just_pressed(KeyCode::Escape)
}

/// `bevy::input::ButtonInput::just_pressed` on the left mouse button. The
/// contract gives the answer a name.
#[verifier::external_body]
pub(crate) fn left_button_just_pressed(input: &ButtonInput<MouseButton>) -> (hit: bool)
    ensures
        hit == left_just_pressed(*input),
{
    input.just_pressed(MouseButton::Left)
}

} // verus!
