//! What every scene shares: the camera, the way back to the menu, the hint
//! that tells of it, and the removal of a scene's entities.

use vstd::prelude::*;
use bevy::input::ButtonInput;
use bevy::input::keyboard::KeyCode;
use crate::components::SceneMarker;
use crate::engine::{Color, Text};
use crate::input::{escape_just_pressed, just_pressed_keys, Key};
use crate::state::{AppState, NextState};
use crate::units::ONE;
use crate::world::{lemma_without_next, lemma_without_none, without, Bundle, Entity, World};

verus! {

/// The camera. It belongs to no scene.
pub open spec fn camera() -> Entity {
    Entity { marker: None, bundle: Bundle::Camera }
}

/// Adds the camera to the world.
pub fn setup_camera(world: &mut World)
    ensures
        final(world).entities@ == old(world).entities@.push(camera()),
        final(world).state == old(world).state,
        final(world).next_state == old(world).next_state,
        final(world).card_images == old(world).card_images,
{
    world.spawn(Entity { marker: None, bundle: Bundle::Camera });
}

/// Asks for the menu when Escape has just been pressed. It is meant to run
/// in every frame of every scene but the menu.
pub fn back_to_menu(keyboard_input: &ButtonInput<KeyCode>, next_state: &mut NextState)
    ensures
        *final(next_state) == back_to_menu_spec(
            just_pressed_keys(*keyboard_input).contains(Key::Escape),
            *old(next_state),
        ),
{
    let escape: bool = escape_just_pressed(keyboard_input);
    request_menu(escape, next_state);
}

/// The request after a frame in which Escape was or was not just pressed.
pub open spec fn back_to_menu_spec(escape: bool, next_state: NextState) -> NextState {
    if escape {
        NextState::Pending(AppState::SceneList)
    } else {
        next_state
    }
}

/// Asks for the menu if `escape` says that Escape has just been pressed.
pub fn request_menu(escape: bool, next_state: &mut NextState)
    ensures
        *final(next_state) == back_to_menu_spec(escape, *old(next_state)),
{
    if escape {
        next_state.set(AppState::SceneList);
    }
}

/// Removes every entity that carries the marker `T`. The others stay, in
/// their order.
pub fn cleanup<T: SceneMarker>(world: &mut World)
    ensures
        final(world).entities@ == without(old(world).entities@, T::scene_spec()),
        final(world).state == old(world).state,
        final(world).next_state == old(world).next_state,
        final(world).card_images == old(world).card_images,
{
    let state: AppState = T::scene();
    let ghost all: Seq<Entity> = world.entities@;
    let mut kept: usize = 0;
    let ghost mut seen: int = 0;
    proof {
        lemma_without_none(state);
        assert(all.take(0) =~= Seq::<Entity>::empty());
        assert(all.skip(0) =~= all);
    }
    while kept < world.entities.len()
        invariant
            0 <= kept <= world.entities@.len(),
            0 <= seen <= all.len(),
            world.entities@.len() - kept == all.len() - seen,
            world.entities@.take(kept as int) == without(all.take(seen), state),
            world.entities@.skip(kept as int) == all.skip(seen),
            world.state == old(world).state,
            world.next_state == old(world).next_state,
            world.card_images == old(world).card_images,
        decreases world.entities@.len() - kept,
    {
        let ghost before: Seq<Entity> = world.entities@;
        proof {
            assert(before[kept as int] == before.skip(kept as int)[0]);
            assert(before.skip(kept as int + 1) =~= before.skip(kept as int).skip(1));
            assert(all.skip(seen + 1) =~= all.skip(seen).skip(1));
            lemma_without_next(all, state, seen);
        }
        if world.entities[kept].is_marked(state) {
            world.entities.remove(kept);
            proof {
                assert(world.entities@.take(kept as int) =~= before.take(kept as int));
                assert(world.entities@.skip(kept as int) =~= before.skip(kept as int + 1));
            }
        } else {
            proof {
                assert(before.take(kept as int + 1) =~= before.take(kept as int).push(
                    before[kept as int],
                ));
            }
            kept = kept + 1;
        }
        proof {
            seen = seen + 1;
        }
    }
    proof {
        assert(all.take(seen) =~= all);
        assert(world.entities@.take(kept as int) =~= world.entities@);
    }
}

/// The hint in the corner of the scene `state` that tells how to leave it.
pub open spec fn back_hint(state: AppState) -> Entity {
    Entity {
        marker: Some(state),
        bundle: Bundle::BackHint(
            Text {
                content: "Press ESC to return",
                font_size: 18,
                color: Color { r: ONE, g: ONE, b: ONE, a: 700_000_000 },
            },
        ),
    }
}

/// Adds the hint that tells how to return to the menu. It carries the
/// marker of the scene that shows it, and is removed with that scene.
pub fn spawn_back_hint<T: SceneMarker>(world: &mut World, marker: T)
    ensures
        final(world).entities@ == old(world).entities@.push(back_hint(T::scene_spec())),
        final(world).state == old(world).state,
        final(world).next_state == old(world).next_state,
        final(world).card_images == old(world).card_images,
{
    world.spawn(
        Entity {
            marker: Some(T::scene()),
            bundle: Bundle::BackHint(
                Text {
                    content: "Press ESC to return",
                    font_size: 18,
                    color: Color { r: ONE, g: ONE, b: ONE, a: 700_000_000 },
                },
            ),
        },
    );
}

} // verus!
