//! Plain value types shared by the drawing operations.

use vstd::prelude::*;

verus! {

/// An axis-aligned rectangle: its top-left corner and its extent. A negative
/// `h` says that Y grows upward.
#[derive(Clone, Copy, Debug, PartialEq, Eq, Structural)]
pub struct Rect {
    pub x: i32,
    pub y: i32,
    pub w: i32,
    pub h: i32,
}

/// A point of the plane.
#[derive(Clone, Copy, Debug, PartialEq, Eq, Structural)]
pub struct Point2 {
    pub x: i32,
    pub y: i32,
}

/// A colour in 8-bit sRGB with straight alpha.
#[derive(Clone, Copy, Debug, PartialEq, Eq, Structural)]
pub struct Color {
    pub r: u8,
    pub g: u8,
    pub b: u8,
    pub a: u8,
}

/// How a texture is sampled between texels.
#[derive(Clone, Copy, Debug, PartialEq, Eq, Structural)]
pub enum FilterMode {
    /// Smooth interpolation.
    Linear,
    /// The nearest texel, unfiltered.
    Nearest,
}

/// What a sampler returns outside the texture's edges.
#[derive(Clone, Copy, Debug, PartialEq, Eq, Structural)]
pub enum WrapMode {
    /// The texture repeats.
    Tile,
    /// The texture repeats, mirrored.
    Mirror,
    /// The edge texel is stretched.
    Clamp,
    /// A fixed border colour.
    Border,
}

/// How a drawn colour is combined with what the target already holds.
#[derive(Clone, Copy, Debug, PartialEq, Eq, Structural)]
pub enum BlendMode {
    Add,
    Subtract,
    Alpha,
    Invert,
    Multiply,
    Replace,
    Lighten,
    Darken,
}

/// The canonical parameters of one draw: where, how large, how turned, in
/// which colour, and which part of the source.
#[derive(Clone, Copy, Debug, PartialEq, Eq, Structural)]
pub struct DrawParam {
    /// The part of the source that is drawn.
    pub src: Rect,
    /// Where the drawable's offset point is placed.
    pub dest: Point2,
    /// Clockwise rotation in quarter turns.
    pub rotation: i32,
    /// Scale factors along X and Y.
    pub scale: Point2,
    /// The point of the drawable that `dest` places and `rotation` turns about.
    pub offset: Point2,
    /// The tint.
    pub color: Color,
}

/// The colour that leaves a drawable's own colours as they are.
pub open spec fn white() -> Color {
    Color { r: 255, g: 255, b: 255, a: 255 }
}

/// The parameters that draw the whole source unscaled, unturned and
/// untinted at the origin.
pub open spec fn default_draw_param() -> DrawParam {
    DrawParam {
        src: Rect { x: 0, y: 0, w: 1, h: 1 },
        dest: Point2 { x: 0, y: 0 },
        rotation: 0,
        scale: Point2 { x: 1, y: 1 },
        offset: Point2 { x: 0, y: 0 },
        color: white(),
    }
}

impl Default for DrawParam {
    fn default() -> (p: DrawParam)
        ensures
            p == default_draw_param(),
    {
        DrawParam {
            src: Rect { x: 0, y: 0, w: 1, h: 1 },
            dest: Point2 { x: 0, y: 0 },
            rotation: 0,
            scale: Point2 { x: 1, y: 1 },
            offset: Point2 { x: 0, y: 0 },
            color: Color { r: 255, g: 255, b: 255, a: 255 },
        }
    }
}

} // verus!
