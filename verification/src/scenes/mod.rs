//! The scenes: what each one shows when it is entered, and what it does in
//! every frame.

pub mod card_flip;
pub mod scene_list;
pub mod squirrel;
pub mod test_scene;
