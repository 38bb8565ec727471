//! The engine's components, as far as the scenes read and write them.
//!
//! Each type holds in fixed point what the engine holds in floating point:
//! see [`crate::units`].

use vstd::prelude::*;
use crate::units::ONE;

verus! {

/// A point or an extent in the plane, in billionths of a pixel, or a pair of
/// scale factors in billionths.
#[derive(Debug, Clone, Copy, PartialEq, Eq, Hash, Structural)]
pub struct Vec2 {
    pub x: i64,
    pub y: i64,
}

impl Vec2 {
    /// The origin.
    pub open spec fn zero() -> Vec2 {
        Vec2 { x: 0, y: 0 }
    }

    /// The same factor on both axes.
    pub open spec fn splat(v: i64) -> Vec2 {
        Vec2 { x: v, y: v }
    }
}

/// Where an entity stands and how much it is stretched.
#[derive(Debug, Clone, Copy, PartialEq, Eq, Hash, Structural)]
pub struct Transform {
    pub translation: Vec2,
    pub scale: Vec2,
}

impl Transform {
    /// At the origin, stretched by `scale` on both axes.
    pub open spec fn from_scale(scale: i64) -> Transform {
        Transform { translation: Vec2::zero(), scale: Vec2::splat(scale) }
    }
}

/// The image files that the scenes show.
#[derive(Debug, Clone, Copy, PartialEq, Eq, Hash, Structural)]
pub enum Image {
    /// The walking animation, one frame beside the other.
    SquirrelSheet,
    CardFront,
    CardBack,
}

impl Image {
    /// The name of the file in the asset directory.
    pub open spec fn path_spec(self) -> &'static str {
        match self {
            Image::SquirrelSheet => "DRG_Walking.png",
            Image::CardFront => "card_front_chocolate.png",
            Image::CardBack => "card_back.png",
        }
    }

    /// The name of the file in the asset directory.
    pub fn path(self) -> (name: &'static str)
        ensures
            name == self.path_spec(),
    {
        match self {
            Image::SquirrelSheet => "DRG_Walking.png",
            Image::CardFront => "card_front_chocolate.png",
            Image::CardBack => "card_back.png",
        }
    }
}

/// A picture on the screen.
#[derive(Debug, Clone, Copy, PartialEq, Eq, Hash, Structural)]
pub struct Sprite {
    pub image: Image,
    /// Whether the picture is mirrored left to right.
    pub flip_x: bool,
    /// The frame shown, where the image is a strip of frames.
    pub atlas_index: Option<usize>,
    /// The size to draw at, where it is not the engine's default.
    pub custom_size: Option<Vec2>,
}

impl Sprite {
    /// The whole image, unmirrored, at its default size.
    pub open spec fn plain(image: Image) -> Sprite {
        Sprite { image, flip_x: false, atlas_index: None, custom_size: None }
    }
}

/// A colour by its red, green and blue channels and its opacity, each from 0
/// to [`ONE`].
#[derive(Debug, Clone, Copy, PartialEq, Eq, Hash, Structural)]
pub struct Color {
    pub r: i64,
    pub g: i64,
    pub b: i64,
    pub a: i64,
}

impl Color {
    /// An opaque colour.
    pub open spec fn srgb_spec(r: i64, g: i64, b: i64) -> Color {
        Color { r, g, b, a: ONE }
    }

    /// An opaque colour.
    pub fn srgb(r: i64, g: i64, b: i64) -> (c: Color)
        ensures
            c == Color::srgb_spec(r, g, b),
    {
        Color { r, g, b, a: ONE }
    }

    /// Opaque white.
    pub open spec fn white() -> Color {
        Color::srgb_spec(ONE, ONE, ONE)
    }

    /// Every channel lies between 0 and [`ONE`].
    pub open spec fn in_range(self) -> bool {
        &&& 0 <= self.r <= ONE
        &&& 0 <= self.g <= ONE
        &&& 0 <= self.b <= ONE
        &&& 0 <= self.a <= ONE
    }
}

/// A line of text on the screen.
#[derive(Debug, Clone, Copy, PartialEq, Eq, Hash)]
pub struct Text {
    pub content: &'static str,
    /// The height of the letters, in pixels.
    pub font_size: u32,
    pub color: Color,
}

/// What the pointer does to a button.
#[derive(Debug, Clone, Copy, PartialEq, Eq, Hash, Structural)]
pub enum Interaction {
    /// The pointer is down on the button.
    Pressed,
    /// The pointer is over the button.
    Hovered,
    /// The pointer is elsewhere.
    Idle,
}

} // verus!
