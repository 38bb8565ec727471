//! The entities that exist, each with the scene that owns it.

use vstd::prelude::*;
use crate::components::{AnimationIndices, AnimationTimer, Card, ColorPulse, Player, SceneButton};
use crate::engine::{Color, Image, Interaction, Sprite, Text, Transform};
use crate::state::{AppState, NextState};

verus! {

/// What an entity is made of.
#[derive(Debug, PartialEq, Eq)]
pub enum Bundle {
    /// The camera through which every scene is seen.
    Camera,
    /// The column that holds the title and the buttons of the menu.
    MenuRoot,
    /// The heading of the menu.
    MenuTitle(Text),
    /// A button of the menu with its caption.
    MenuButton { button: SceneButton, interaction: Interaction, background: Color, label: Text },
    /// The walking player.
    Squirrel {
        sprite: Sprite,
        transform: Transform,
        indices: AnimationIndices,
        timer: AnimationTimer,
        player: Player,
    },
    /// The disc whose colour swings.
    PulseShape { radius: i64, color: Color, transform: Transform, pulse: ColorPulse },
    /// The card.
    Card { sprite: Sprite, transform: Transform, card: Card },
    /// The line at the bottom of a scene that says what it shows.
    Caption(Text),
    /// The line in the corner of a scene that says how to leave it.
    BackHint(Text),
}

/// An entity, and the scene that it is removed with. An entity without a
/// marker stays for good.
#[derive(Debug, PartialEq, Eq)]
pub struct Entity {
    pub marker: Option<AppState>,
    pub bundle: Bundle,
}

impl Entity {
    /// Whether the entity carries the marker of `state`.
    pub open spec fn marked(self, state: AppState) -> bool {
        self.marker == Some(state)
    }

    /// Whether the entity carries the marker of `state`.
    pub fn is_marked(&self, state: AppState) -> (found: bool)
        ensures
            found == self.marked(state),
    {
        match self.marker {
            Some(owner) => owner == state,
            None => false,
        }
    }
}

/// The two faces of the card, kept ready while the card scene runs.
#[derive(Debug, Clone, Copy, PartialEq, Eq, Hash, Structural)]
pub struct CardImages {
    pub front: Image,
    pub back: Image,
}

/// Everything that the scenes keep between frames.
#[derive(Debug, PartialEq, Eq)]
pub struct World {
    /// The active scene.
    pub state: AppState,
    /// The scene asked for, if any.
    pub next_state: NextState,
    /// The entities, oldest first.
    pub entities: Vec<Entity>,
    /// The faces of the card, while the card scene has them loaded.
    pub card_images: Option<CardImages>,
}

/// `entities` without those that carry the marker of `state`, in the same
/// order.
pub open spec fn without(entities: Seq<Entity>, state: AppState) -> Seq<Entity> {
    entities.filter(|e: Entity| !e.marked(state))
}

/// Nothing is left to remove from no entities.
pub proof fn lemma_without_none(state: AppState)
    ensures
        without(Seq::<Entity>::empty(), state) == Seq::<Entity>::empty(),
{
    reveal(Seq::filter);
}

/// Removing the marked ones from one entity more keeps that entity, as the
/// last one, exactly if it is not marked.
pub proof fn lemma_without_next(entities: Seq<Entity>, state: AppState, seen: int)
    requires
        0 <= seen < entities.len(),
    ensures
        without(entities.take(seen + 1), state) == if entities[seen].marked(state) {
            without(entities.take(seen), state)
        } else {
            without(entities.take(seen), state).push(entities[seen])
        },
{
    reveal(Seq::filter);
    assert(entities.take(seen + 1).drop_last() =~= entities.take(seen));
}

impl World {
    /// Every marked entity belongs to the active scene, and the faces of the
    /// card are loaded in the card scene and in no other.
    pub open spec fn wf(self) -> bool {
        &&& forall|i: int|
            0 <= i < self.entities@.len() ==> {
                let marker = (#[trigger] self.entities@[i]).marker;
                marker is None || marker == Some(self.state)
            }
        &&& self.card_images is Some <==> self.state == AppState::CardFlipScene
    }

    /// A world in `state` with no entities and no request.
    pub fn empty(state: AppState) -> (world: World)
        ensures
            world.state == state,
            world.next_state == NextState::Unchanged,
            world.entities@ == Seq::<Entity>::empty(),
            world.card_images is None,
    {
        World { state, next_state: NextState::Unchanged, entities: Vec::new(), card_images: None }
    }

    /// Adds `entity` as the newest one.
    pub fn spawn(&mut self, entity: Entity)
        ensures
            final(self).entities@ == old(self).entities@.push(entity),
            final(self).state == old(self).state,
            final(self).next_state == old(self).next_state,
            final(self).card_images == old(self).card_images,
    {
        self.entities.push(entity);
    }
}

} // verus!
