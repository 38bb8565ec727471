//! The scene register: which scene is active, and which one was asked for.

use vstd::prelude::*;

verus! {

/// The scenes of the application. Exactly one is active at a time.
///
/// The menu is where the application starts. Every other scene is entered
/// from the menu and left for the menu.
#[derive(Debug, Clone, Copy, PartialEq, Eq, Hash, Structural)]
pub enum AppState {
    SceneList,
    SquirrelWalking,
    TestScene,
    CardFlipScene,
}

impl Default for AppState {
    fn default() -> (state: AppState)
        ensures
            state == AppState::SceneList,
    {
        AppState::SceneList
    }
}

/// A request for another scene, waiting for the scheduler to apply it
/// between two frames.
#[derive(Debug, Clone, Copy, PartialEq, Eq, Hash, Structural)]
pub enum NextState {
    /// Nobody asked for a change.
    Unchanged,
    /// The scene to go to at the next scheduler step.
    Pending(AppState),
}

impl NextState {
    /// Asks for `state`. A later request replaces an earlier one.
    pub fn set(&mut self, state: AppState)
        ensures
            *final(self) == NextState::Pending(state),
    {
        *self = NextState::Pending(state);
    }
}

impl Default for NextState {
    fn default() -> (next: NextState)
        ensures
            next == NextState::Unchanged,
    {
        NextState::Unchanged
    }
}

} // verus!
