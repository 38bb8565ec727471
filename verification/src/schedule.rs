//! The life of the scenes: what runs when a scene is entered and when it is
//! left, and the step between two frames that carries out a request for
//! another scene.

use vstd::prelude::*;
use crate::common::{camera, cleanup, setup_camera};
use crate::components::{
    CardFlipSceneEntity, SceneListEntity, SquirrelSceneEntity, TestSceneEntity,
};
use crate::scenes::card_flip::{
    card_faces, card_flip_entities, cleanup_card_images, setup_card_flip_scene,
};
use crate::scenes::scene_list::{scene_list_entities, setup_scene_list};
use crate::scenes::squirrel::{setup_squirrel_scene, squirrel_entities};
use crate::scenes::test_scene::{setup_test_scene, test_entities};
use crate::state::{AppState, NextState};
use crate::world::{without, CardImages, Entity, World};

verus! {

/// The entities that a scene builds when it is entered.
pub open spec fn scene_entities(state: AppState) -> Seq<Entity> {
    match state {
        AppState::SceneList => scene_list_entities(),
        AppState::SquirrelWalking => squirrel_entities(),
        AppState::TestScene => test_entities(),
        AppState::CardFlipScene => card_flip_entities(),
    }
}

/// The faces of the card after `state` is entered, where they were
/// `card_images` before.
pub open spec fn images_on_enter(state: AppState, card_images: Option<CardImages>) -> Option<
    CardImages,
> {
    if state == AppState::CardFlipScene {
        Some(card_faces())
    } else {
        card_images
    }
}

/// The faces of the card after `state` is left, where they were
/// `card_images` before.
pub open spec fn images_on_exit(state: AppState, card_images: Option<CardImages>) -> Option<
    CardImages,
> {
    if state == AppState::CardFlipScene {
        None
    } else {
        card_images
    }
}

/// Every entity that a scene builds carries the marker of that scene.
pub proof fn lemma_scene_entities_marked(state: AppState)
    ensures
        forall|i: int|
            0 <= i < scene_entities(state).len() ==> (#[trigger] scene_entities(state)[i]).marked(
                state,
            ),
{
}

/// Runs what is registered for entering `state`: the scene builds its
/// entities.
pub fn enter(world: &mut World, state: AppState)
    ensures
        final(world).entities@ == old(world).entities@ + scene_entities(state),
        final(world).card_images == images_on_enter(state, old(world).card_images),
        final(world).state == old(world).state,
        final(world).next_state == old(world).next_state,
{
    match state {
        AppState::SceneList => setup_scene_list(world),
        AppState::SquirrelWalking => setup_squirrel_scene(world),
        AppState::TestScene => setup_test_scene(world),
        AppState::CardFlipScene => setup_card_flip_scene(world),
    }
}

/// Runs what is registered for leaving `state`: the entities that carry the
/// scene's marker are removed, and the card scene lets go of its images.
pub fn exit(world: &mut World, state: AppState)
    ensures
        final(world).entities@ == without(old(world).entities@, state),
        final(world).card_images == images_on_exit(state, old(world).card_images),
        final(world).state == old(world).state,
        final(world).next_state == old(world).next_state,
{
    match state {
        AppState::SceneList => cleanup::<SceneListEntity>(world),
        AppState::SquirrelWalking => cleanup::<SquirrelSceneEntity>(world),
        AppState::TestScene => cleanup::<TestSceneEntity>(world),
        AppState::CardFlipScene => {
            cleanup::<CardFlipSceneEntity>(world);
            cleanup_card_images(world);
        },
    }
}

/// What runs in every frame, each in the scenes that have it.
#[derive(Debug, Clone, Copy, PartialEq, Eq, Hash, Structural)]
pub enum System {
    SceneButtonInteraction,
    MovePlayer,
    AnimateSprite,
    TestSceneUpdate,
    CardClick,
    CardFlipAnimation,
    BackToMenu,
}

/// Whether `system` runs in the frames of `state`. What belongs to a scene
/// runs while that scene is active, and the way back to the menu runs in
/// every scene but the menu.
pub open spec fn runs_in_spec(system: System, state: AppState) -> bool {
    match system {
        System::SceneButtonInteraction => state == AppState::SceneList,
        System::MovePlayer | System::AnimateSprite => state == AppState::SquirrelWalking,
        System::TestSceneUpdate => state == AppState::TestScene,
        System::CardClick | System::CardFlipAnimation => state == AppState::CardFlipScene,
        System::BackToMenu => state != AppState::SceneList,
    }
}

/// Whether `system` runs in the frames of `state`.
pub fn runs_in(system: System, state: AppState) -> (runs: bool)
    ensures
        runs == runs_in_spec(system, state),
{
    match system {
        System::SceneButtonInteraction => state == AppState::SceneList,
        System::MovePlayer | System::AnimateSprite => state == AppState::SquirrelWalking,
        System::TestSceneUpdate => state == AppState::TestScene,
        System::CardClick | System::CardFlipAnimation => state == AppState::CardFlipScene,
        System::BackToMenu => state != AppState::SceneList,
    }
}

/// The world as the application starts: the camera, and the menu entered.
pub fn startup() -> (world: World)
    ensures
        world.state == AppState::SceneList,
        world.next_state == NextState::Unchanged,
        world.entities@ == seq![camera()] + scene_list_entities(),
        world.card_images is None,
        world.wf(),
{
    let mut world = World::empty(AppState::SceneList);
    setup_camera(&mut world);
    enter(&mut world, AppState::SceneList);
    proof {
        lemma_scene_entities_marked(AppState::SceneList);
        assert(world.entities@ =~= seq![camera()] + scene_list_entities());
    }
    world
}

/// The entities after the step from the scene `from` to another scene `to`:
/// those that do not carry the marker of `from`, in their order, and then
/// those that `to` builds.
pub open spec fn entities_after(entities: Seq<Entity>, from: AppState, to: AppState) -> Seq<
    Entity,
> {
    without(entities, from) + scene_entities(to)
}

/// The step between two frames. A request for another scene than the active
/// one is carried out: the active scene is left, then the other one is
/// entered. A request for the active scene is dropped, and nothing is
/// removed or built. Without a request nothing changes.
pub fn apply_transition(world: &mut World)
    ensures
        final(world).next_state == NextState::Unchanged,
        match old(world).next_state {
            NextState::Pending(to) if to != old(world).state => {
                &&& final(world).state == to
                &&& final(world).entities@ == entities_after(
                    old(world).entities@,
                    old(world).state,
                    to,
                )
                &&& final(world).card_images == images_on_enter(
                    to,
                    images_on_exit(old(world).state, old(world).card_images),
                )
            },
            _ => {
                &&& final(world).state == old(world).state
                &&& final(world).entities@ == old(world).entities@
                &&& final(world).card_images == old(world).card_images
            },
        },
        old(world).wf() ==> final(world).wf(),
{
    let request = world.next_state;
    world.next_state = NextState::Unchanged;
    match request {
        NextState::Unchanged => {},
        NextState::Pending(to) => {
            let from = world.state;
            if to != from {
                exit(world, from);
                world.state = to;
                enter(world, to);
                proof {
                    if old(world).wf() {
                        lemma_step_replaces_scene(old(world).entities@, from, to);
                    }
                }
            }
        },
    }
}

/// After the step from `from` to another scene `to`, no entity carries the
/// marker of `from`, and the entities that `to` builds are there, as the
/// newest ones. Where every marked entity belonged to `from` before the
/// step, every marked entity belongs to `to` after it.
pub proof fn lemma_step_replaces_scene(entities: Seq<Entity>, from: AppState, to: AppState)
    requires
        from != to,
    ensures
        forall|i: int|
            0 <= i < entities_after(entities, from, to).len() ==> !(#[trigger] entities_after(
                entities,
                from,
                to,
            )[i]).marked(from),
        entities_after(entities, from, to).len() >= scene_entities(to).len(),
        entities_after(entities, from, to).skip(
            entities_after(entities, from, to).len() - scene_entities(to).len(),
        ) == scene_entities(to),
        (forall|i: int|
            0 <= i < entities.len() ==> (#[trigger] entities[i]).marker is None
                || entities[i].marked(from)) ==> forall|i: int|
            0 <= i < entities_after(entities, from, to).len() ==> {
                let e = #[trigger] entities_after(entities, from, to)[i];
                e.marker is None || e.marked(to)
            },
{
    let pred = |e: Entity| !e.marked(from);
    let kept = without(entities, from);
    let built = scene_entities(to);
    let after = entities_after(entities, from, to);
    lemma_scene_entities_marked(to);
    assert(after.skip(after.len() - built.len()) =~= built);
    assert forall|i: int| 0 <= i < kept.len() implies {
        &&& !(#[trigger] kept[i]).marked(from)
        &&& entities.contains(kept[i])
    } by {
        entities.lemma_filter_pred(pred, i);
        assert(kept.contains(kept[i]));
        entities.lemma_filter_contains_rev(pred, kept[i]);
    }
    assert forall|i: int| 0 <= i < after.len() implies !(#[trigger] after[i]).marked(from) by {
        if i < kept.len() {
            assert(after[i] == kept[i]);
        } else {
            assert(after[i] == built[i - kept.len()]);
        }
    }
    if forall|i: int|
        0 <= i < entities.len() ==> (#[trigger] entities[i]).marker is None || entities[i].marked(
            from,
        ) {
        assert forall|i: int| 0 <= i < after.len() implies {
            let e = #[trigger] after[i];
            e.marker is None || e.marked(to)
        } by {
            if i < kept.len() {
                assert(after[i] == kept[i]);
                assert(entities.contains(kept[i]));
            } else {
                assert(after[i] == built[i - kept.len()]);
            }
        }
    }
}

} // verus!
