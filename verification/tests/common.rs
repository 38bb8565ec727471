use bevy::input::keyboard::KeyCode;
use bevy::input::ButtonInput;
use bevy_playground::common::{
    back_to_menu, cleanup, request_menu, setup_camera, spawn_back_hint,
};
use bevy_playground::components::{
    CardFlipSceneEntity, SceneListEntity, SceneMarker, SquirrelSceneEntity, TestSceneEntity,
};
use bevy_playground::engine::{Color, Text};
use bevy_playground::state::{AppState, NextState};
use bevy_playground::world::{Bundle, Entity, World};

fn marked(state: AppState) -> Entity {
    Entity { marker: Some(state), bundle: Bundle::MenuRoot }
}

fn camera() -> Entity {
    Entity { marker: None, bundle: Bundle::Camera }
}

#[test]
fn markers_name_their_scenes() {
    assert_eq!(SceneListEntity::scene(), AppState::SceneList);
    assert_eq!(SquirrelSceneEntity::scene(), AppState::SquirrelWalking);
    assert_eq!(TestSceneEntity::scene(), AppState::TestScene);
    assert_eq!(CardFlipSceneEntity::scene(), AppState::CardFlipScene);
}

#[test]
fn the_camera_belongs_to_no_scene() {
    let mut world = World::empty(AppState::SceneList);
    setup_camera(&mut world);
    assert_eq!(world.entities, vec![camera()]);
}

#[test]
fn escape_asks_for_the_menu() {
    let mut input = ButtonInput::<KeyCode>::default();
    input.press(KeyCode::Escape);
    let mut next = NextState::Unchanged;
    back_to_menu(&input, &mut next);
    assert_eq!(next, NextState::Pending(AppState::SceneList));
}

#[test]
fn escape_replaces_another_request() {
    let mut input = ButtonInput::<KeyCode>::default();
    input.press(KeyCode::Escape);
    let mut next = NextState::Pending(AppState::TestScene);
    back_to_menu(&input, &mut next);
    assert_eq!(next, NextState::Pending(AppState::SceneList));
}

#[test]
fn other_keys_ask_for_nothing() {
    let mut input = ButtonInput::<KeyCode>::default();
    input.press(KeyCode::Enter);
    input.press(KeyCode::KeyW);
    let mut next = NextState::Unchanged;
    back_to_menu(&input, &mut next);
    assert_eq!(next, NextState::Unchanged);
    let mut next = NextState::Pending(AppState::TestScene);
    back_to_menu(&input, &mut next);
    assert_eq!(next, NextState::Pending(AppState::TestScene));
}

#[test]
fn escape_held_from_an_earlier_frame_asks_for_nothing() {
    let mut input = ButtonInput::<KeyCode>::default();
    input.press(KeyCode::Escape);
    input.clear();
    assert!(input.pressed(KeyCode::Escape));
    let mut next = NextState::Unchanged;
    back_to_menu(&input, &mut next);
    assert_eq!(next, NextState::Unchanged);
}

#[test]
fn a_request_for_the_menu_by_flag() {
    let mut next = NextState::Unchanged;
    request_menu(false, &mut next);
    assert_eq!(next, NextState::Unchanged);
    request_menu(true, &mut next);
    assert_eq!(next, NextState::Pending(AppState::SceneList));
}

#[test]
fn the_hint_carries_the_marker_it_is_given() {
    let mut world = World::empty(AppState::TestScene);
    spawn_back_hint(&mut world, TestSceneEntity);
    spawn_back_hint(&mut world, CardFlipSceneEntity);
    let hint = Bundle::BackHint(Text {
        content: "Press ESC to return",
        font_size: 18,
        color: Color { r: 1_000_000_000, g: 1_000_000_000, b: 1_000_000_000, a: 700_000_000 },
    });
    assert_eq!(world.entities.len(), 2);
    assert_eq!(world.entities[0].marker, Some(AppState::TestScene));
    assert_eq!(world.entities[0].bundle, hint);
    assert_eq!(world.entities[1].marker, Some(AppState::CardFlipScene));
    assert_eq!(world.entities[1].bundle, hint);
}

#[test]
fn cleanup_removes_the_marked_and_keeps_the_rest_in_order() {
    let mut world = World::empty(AppState::TestScene);
    world.spawn(camera());
    world.spawn(marked(AppState::TestScene));
    world.spawn(marked(AppState::SquirrelWalking));
    world.spawn(marked(AppState::TestScene));
    world.spawn(marked(AppState::TestScene));
    world.spawn(marked(AppState::CardFlipScene));
    world.spawn(marked(AppState::TestScene));
    cleanup::<TestSceneEntity>(&mut world);
    assert_eq!(
        world.entities,
        vec![camera(), marked(AppState::SquirrelWalking), marked(AppState::CardFlipScene)]
    );
    assert_eq!(world.state, AppState::TestScene);
}

#[test]
fn cleanup_of_an_absent_scene_changes_nothing() {
    let mut world = World::empty(AppState::TestScene);
    world.spawn(camera());
    world.spawn(marked(AppState::TestScene));
    cleanup::<SceneListEntity>(&mut world);
    assert_eq!(world.entities, vec![camera(), marked(AppState::TestScene)]);
}

#[test]
fn cleanup_of_an_empty_world() {
    let mut world = World::empty(AppState::SceneList);
    cleanup::<SceneListEntity>(&mut world);
    assert!(world.entities.is_empty());
}

#[test]
fn cleanup_can_remove_everything() {
    let mut world = World::empty(AppState::SquirrelWalking);
    for _ in 0..100 {
        world.spawn(marked(AppState::SquirrelWalking));
    }
    cleanup::<SquirrelSceneEntity>(&mut world);
    assert!(world.entities.is_empty());
}
