//! The components that the scenes attach to their entities.

use vstd::prelude::*;
use bevy::time::Timer;
use crate::state::AppState;
use crate::timer::{elapsed_nanos, keeps_time, new_repeating, ran_out, repeating};

verus! {

/// A marker: a type without data that names the scene an entity belongs to,
/// so that the scene's entities can be removed together when it is left.
pub trait SceneMarker {
    /// The scene whose entities carry this marker.
    spec fn scene_spec() -> AppState;

    /// The scene whose entities carry this marker.
    fn scene() -> (state: AppState)
        ensures
            state == Self::scene_spec(),
    ;
}

/// Marks the entities of the menu.
#[derive(Debug, Clone, Copy)]
pub struct SceneListEntity;

/// Marks the entities of the walking scene.
#[derive(Debug, Clone, Copy)]
pub struct SquirrelSceneEntity;

/// Marks the entities of the colour scene.
#[derive(Debug, Clone, Copy)]
pub struct TestSceneEntity;

/// Marks the entities of the card scene.
#[derive(Debug, Clone, Copy)]
pub struct CardFlipSceneEntity;

impl SceneMarker for SceneListEntity {
    open spec fn scene_spec() -> AppState {
        AppState::SceneList
    }

    fn scene() -> (state: AppState) {
        AppState::SceneList
    }
}

impl SceneMarker for SquirrelSceneEntity {
    open spec fn scene_spec() -> AppState {
        AppState::SquirrelWalking
    }

    fn scene() -> (state: AppState) {
        AppState::SquirrelWalking
    }
}

impl SceneMarker for TestSceneEntity {
    open spec fn scene_spec() -> AppState {
        AppState::TestScene
    }

    fn scene() -> (state: AppState) {
        AppState::TestScene
    }
}

impl SceneMarker for CardFlipSceneEntity {
    open spec fn scene_spec() -> AppState {
        AppState::CardFlipScene
    }

    fn scene() -> (state: AppState) {
        AppState::CardFlipScene
    }
}

/// The first and the last frame of an animation on a sprite sheet.
#[derive(Debug, Clone, Copy, PartialEq, Eq, Hash, Structural)]
pub struct AnimationIndices {
    pub first: usize,
    pub last: usize,
}

/// The timer that says when the next frame of an animation is due.
#[derive(Debug, PartialEq, Eq)]
pub struct AnimationTimer(pub Timer);

impl AnimationTimer {
    /// A timer for an animation whose frames follow each other every
    /// `interval_nanos` nanoseconds. It has counted nothing and has not run
    /// out. With an interval above zero it keeps time.
    pub fn new(interval_nanos: u64) -> (timer: AnimationTimer)
        ensures
            timer.0 == repeating(interval_nanos),
            elapsed_nanos(timer.0) == 0,
            crate::timer::interval_nanos(timer.0) == interval_nanos,
            !ran_out(timer.0),
            interval_nanos > 0 ==> keeps_time(timer.0),
    {
        AnimationTimer(new_repeating(interval_nanos))
    }
}

/// Which way along an axis.
#[derive(Debug, Clone, Copy, PartialEq, Eq, Hash, Structural)]
pub enum Sign {
    /// Left or down.
    Minus,
    Zero,
    /// Right or up.
    Plus,
}

impl Sign {
    /// -1, 0 or 1.
    pub open spec fn value(self) -> int {
        match self {
            Sign::Minus => -1,
            Sign::Zero => 0,
            Sign::Plus => 1,
        }
    }
}

/// A direction of travel, by its sign on each axis. The unit vector of that
/// direction is the pair of signs divided by its length.
#[derive(Debug, Clone, Copy, PartialEq, Eq, Hash, Structural)]
pub struct Direction {
    pub x: Sign,
    pub y: Sign,
}

impl Direction {
    /// No travel at all.
    pub open spec fn is_zero(self) -> bool {
        self.x == Sign::Zero && self.y == Sign::Zero
    }

    /// Travel along both axes at once.
    pub open spec fn is_diagonal(self) -> bool {
        self.x != Sign::Zero && self.y != Sign::Zero
    }
}

/// The state of the walking player.
#[derive(Debug, Clone, Copy, PartialEq, Eq, Hash, Structural)]
pub struct Player {
    pub is_moving: bool,
    /// The direction of the last frame in which the player moved.
    pub last_direction: Direction,
}

/// Binds a button of the menu to the scene it opens.
#[derive(Debug, Clone, Copy, PartialEq, Eq, Hash, Structural)]
pub struct SceneButton {
    pub target_state: AppState,
}

/// The phase of the colour that swings between two ends.
#[derive(Debug, Clone, Copy, PartialEq, Eq, Hash, Structural)]
pub struct ColorPulse {
    /// Time since the scene was entered, in nanoseconds.
    pub timer: u64,
}

/// The state of the card and of its flip.
#[derive(Debug, Clone, Copy, PartialEq, Eq, Hash, Structural)]
pub struct Card {
    /// Whether the front face shows.
    pub is_front: bool,
    pub is_flipping: bool,
    /// Time into the running flip, in nanoseconds. The flip is over when
    /// this reaches the flip's duration.
    pub flip_progress: u64,
    /// Whether the face was swapped during the running flip.
    pub image_swapped: bool,
}

} // verus!
