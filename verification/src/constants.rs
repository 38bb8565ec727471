//! The settings of the scenes. Lengths and scale factors are in billionths,
//! times in nanoseconds.

use vstd::prelude::*;
use crate::engine::Color;
use crate::units::ONE;

verus! {

/// `true`: the walking animation runs only while the player moves.
/// `false`: it always runs.
pub const ANIMATE_ONLY_WHEN_MOVING: bool = true;

/// `true`: the sprite is mirrored to face the way it walks.
/// `false`: it keeps the facing it has.
pub const FLIP_SPRITE_ON_DIRECTION: bool = true;

/// Frames in a row of the sprite sheet.
pub const SPRITE_COLUMNS: usize = 4;

/// Rows of the sprite sheet.
pub const SPRITE_ROWS: usize = 1;

/// Width of one frame: 108 pixels.
pub const FRAME_WIDTH: i64 = 108 * ONE;

/// Height of one frame: 96 pixels.
pub const FRAME_HEIGHT: i64 = 96 * ONE;

/// Time between two frames of the walking animation: a tenth of a second.
pub const ANIMATION_SPEED: u64 = 100_000_000;

/// Walking speed in pixels per second, which is billionths of a pixel per
/// nanosecond.
pub const MOVE_SPEED: u64 = 150;

/// Width of the window: 800 pixels.
pub const WINDOW_WIDTH: i64 = 800 * ONE;

/// Height of the window: 600 pixels.
pub const WINDOW_HEIGHT: i64 = 600 * ONE;

/// The factor by which the walking sprite is drawn larger than its frame.
pub const SPRITE_SCALE: i64 = ONE;

/// How far from the centre of the window the player may stand, left or right:
/// 346 pixels, which is half the window less half the sprite as drawn.
pub const X_BOUND: i64 = 346 * ONE;

/// How far from the centre of the window the player may stand, up or down:
/// 252 pixels.
pub const Y_BOUND: i64 = 252 * ONE;

/// The colour of a button that the pointer is away from.
pub open spec fn normal_button_spec() -> Color {
    Color::srgb_spec(150_000_000, 150_000_000, 150_000_000)
}

/// The colour of a button that the pointer is over.
pub open spec fn hovered_button_spec() -> Color {
    Color::srgb_spec(250_000_000, 250_000_000, 250_000_000)
}

/// The colour of a button that the pointer is down on.
pub open spec fn pressed_button_spec() -> Color {
    Color::srgb_spec(350_000_000, 750_000_000, 350_000_000)
}

/// The colour of a button that the pointer is away from.
pub fn normal_button() -> (c: Color)
    ensures
        c == normal_button_spec(),
{
    Color::srgb(150_000_000, 150_000_000, 150_000_000)
}

/// The colour of a button that the pointer is over.
pub fn hovered_button() -> (c: Color)
    ensures
        c == hovered_button_spec(),
{
    Color::srgb(250_000_000, 250_000_000, 250_000_000)
}

/// The colour of a button that the pointer is down on.
pub fn pressed_button() -> (c: Color)
    ensures
        c == pressed_button_spec(),
{
    Color::srgb(350_000_000, 750_000_000, 350_000_000)
}

/// The bounds of the player's position are half the window less half the
/// sprite as drawn.
pub proof fn lemma_bounds()
    ensures
        X_BOUND == WINDOW_WIDTH / 2 - (FRAME_WIDTH * SPRITE_SCALE / (ONE as int)) / 2,
        Y_BOUND == WINDOW_HEIGHT / 2 - (FRAME_HEIGHT * SPRITE_SCALE / (ONE as int)) / 2,
{
}

} // verus!
