//! The menu: one button for each scene that can be opened.

use vstd::prelude::*;
use crate::components::SceneButton;
use crate::constants::{
    hovered_button, hovered_button_spec, normal_button, normal_button_spec, pressed_button,
    pressed_button_spec,
};
use crate::engine::{Color, Interaction, Text};
use crate::state::{AppState, NextState};
use crate::units::ONE;
use crate::world::{Bundle, Entity, World};

verus! {

/// The words on the button that opens `target`.
pub open spec fn button_caption_spec(target: AppState) -> &'static str {
    match target {
        AppState::SceneList => "Scene Selection",
        AppState::SquirrelWalking => "Squirrel Walking",
        AppState::TestScene => "Test Scene",
        AppState::CardFlipScene => "Card Flip",
    }
}

/// The words on the button that opens `target`.
pub fn button_caption(target: AppState) -> (words: &'static str)
    ensures
        words == button_caption_spec(target),
{
    match target {
        AppState::SceneList => "Scene Selection",
        AppState::SquirrelWalking => "Squirrel Walking",
        AppState::TestScene => "Test Scene",
        AppState::CardFlipScene => "Card Flip",
    }
}

/// The column that holds the menu.
pub open spec fn menu_root() -> Entity {
    Entity { marker: Some(AppState::SceneList), bundle: Bundle::MenuRoot }
}

/// The heading of the menu.
pub open spec fn menu_title() -> Entity {
    Entity {
        marker: Some(AppState::SceneList),
        bundle: Bundle::MenuTitle(
            Text { content: "Scene Selection", font_size: 48, color: Color::white() },
        ),
    }
}

/// The button that opens `target`, as it is before the pointer comes near.
pub open spec fn menu_button(target: AppState) -> Entity {
    Entity {
        marker: Some(AppState::SceneList),
        bundle: Bundle::MenuButton {
            button: SceneButton { target_state: target },
            interaction: Interaction::Idle,
            background: normal_button_spec(),
            label: Text {
                content: button_caption_spec(target),
                font_size: 24,
                color: Color::srgb_spec(900_000_000, 900_000_000, 900_000_000),
            },
        },
    }
}

/// The entities of the menu: the column, the heading, and one button for
/// each scene that can be opened, top to bottom.
pub open spec fn scene_list_entities() -> Seq<Entity> {
    seq![
        menu_root(),
        menu_title(),
        menu_button(AppState::SquirrelWalking),
        menu_button(AppState::TestScene),
        menu_button(AppState::CardFlipScene),
    ]
}

/// Whether `entity` is a button that opens `target`.
pub open spec fn opens(entity: Entity, target: AppState) -> bool {
    entity.bundle matches Bundle::MenuButton { button, .. } && button.target_state == target
}

/// The menu has exactly one button for each scene but the menu itself, and
/// none for the menu.
pub proof fn lemma_one_button_per_destination(target: AppState)
    ensures
        target == AppState::SceneList ==> forall|i: int|
            0 <= i < scene_list_entities().len() ==> !opens(#[trigger] scene_list_entities()[i], target),
        target != AppState::SceneList ==> exists|i: int|
            {
                &&& 0 <= i < scene_list_entities().len()
                &&& opens(#[trigger] scene_list_entities()[i], target)
                &&& forall|j: int|
                    0 <= j < scene_list_entities().len() && opens(
                        #[trigger] scene_list_entities()[j],
                        target,
                    ) ==> j == i
            },
{
    let list = scene_list_entities();
    match target {
        AppState::SceneList => {},
        AppState::SquirrelWalking => {
            assert(opens(list[2], target));
        },
        AppState::TestScene => {
            assert(opens(list[3], target));
        },
        AppState::CardFlipScene => {
            assert(opens(list[4], target));
        },
    }
}

fn new_button(target: AppState) -> (entity: Entity)
    ensures
        entity == menu_button(target),
{
    Entity {
        marker: Some(AppState::SceneList),
        bundle: Bundle::MenuButton {
            button: SceneButton { target_state: target },
            interaction: Interaction::Idle,
            background: normal_button(),
            label: Text {
                content: button_caption(target),
                font_size: 24,
                color: Color::srgb(900_000_000, 900_000_000, 900_000_000),
            },
        },
    }
}

/// Builds the menu: adds its entities to the world, after those that are
/// there.
pub fn setup_scene_list(world: &mut World)
    ensures
        final(world).entities@ == old(world).entities@ + scene_list_entities(),
        final(world).state == old(world).state,
        final(world).next_state == old(world).next_state,
        final(world).card_images == old(world).card_images,
{
    world.spawn(Entity { marker: Some(AppState::SceneList), bundle: Bundle::MenuRoot });
    world.spawn(
        Entity {
            marker: Some(AppState::SceneList),
            bundle: Bundle::MenuTitle(
                Text {
                    content: "Scene Selection",
                    font_size: 48,
                    color: Color::srgb(ONE, ONE, ONE),
                },
            ),
        },
    );
    world.spawn(new_button(AppState::SquirrelWalking));
    world.spawn(new_button(AppState::TestScene));
    world.spawn(new_button(AppState::CardFlipScene));
}

/// The colour that a button takes under `interaction`.
pub open spec fn button_color(interaction: Interaction) -> Color {
    match interaction {
        Interaction::Pressed => pressed_button_spec(),
        Interaction::Hovered => hovered_button_spec(),
        Interaction::Idle => normal_button_spec(),
    }
}

/// Reacts to what the pointer does to a button: the button takes the colour
/// of the interaction, and a press asks for the scene that the button is
/// bound to.
pub fn scene_button_interaction(
    interaction: Interaction,
    color: &mut Color,
    button: &SceneButton,
    next_state: &mut NextState,
)
    ensures
        *final(color) == button_color(interaction),
        interaction == Interaction::Pressed ==> *final(next_state) == NextState::Pending(
            button.target_state,
        ),
        interaction != Interaction::Pressed ==> *final(next_state) == *old(next_state),
{
    match interaction {
        Interaction::Pressed => {
            *color = pressed_button();
            next_state.set(button.target_state);
        },
        Interaction::Hovered => {
            *color = hovered_button();
        },
        Interaction::Idle => {
            *color = normal_button();
        },
    }
}

} // verus!
