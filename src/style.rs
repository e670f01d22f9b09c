//! The rectangle style: fill colour, corner shape and optional border.
//!
//! Colour channels and radii are held as IEEE-754 bit patterns (`f32` for
//! colour channels, `f64` for radii) so that the library carries the exact
//! values a caller gave without doing any floating-point work itself.
use vstd::prelude::*;

verus! {

/// A normalized RGBA colour, each channel the bit pattern of an `f32`.
#[derive(Clone, Copy, Debug, PartialEq, Eq, Structural)]
pub struct Rgba {
    pub r: u32,
    pub g: u32,
    pub b: u32,
    pub a: u32,
}

/// A length (a corner radius or a border thickness), the bit pattern of an `f64`.
pub type Radius = u64;

/// The sign bit of an `f32` bit pattern.
pub const F32_SIGN_BIT: u32 = 0x8000_0000;

/// Whether the `f32` with these bits compares equal to `0.0`
/// (both `+0.0` and `-0.0` do, and nothing else).
pub open spec fn is_zero_f32(bits: u32) -> bool {
    bits == 0 || bits == F32_SIGN_BIT
}

/// Whether a colour is fully transparent: its alpha equals zero.
pub open spec fn is_transparent(c: Rgba) -> bool {
    is_zero_f32(c.a)
}

/// Tests whether a colour's alpha channel equals zero.
pub fn transparent(c: &Rgba) -> (r: bool)
    ensures
        r == is_transparent(*c),
{
    c.a == 0 || c.a == F32_SIGN_BIT
}

/// The shape of the rectangle's corners.
#[derive(Clone, Copy, Debug, PartialEq, Eq, Structural)]
pub enum Shape {
    /// Square corners.
    Square,
    /// Quarter-circle corners of the given radius.
    Round(Radius),
    /// Cut corners of the given radius: a coarse round.
    Bevel(Radius),
}

/// The border of the rectangle.
#[derive(Clone, Copy, Debug, PartialEq, Eq, Structural)]
pub struct Border {
    /// The color of the border.
    pub color: Rgba,
    /// The thickness of the border.
    pub radius: Radius,
}

/// A filled rectangle style.
#[derive(Clone, Copy, Debug, PartialEq, Eq, Structural)]
pub struct Rectangle {
    /// The fill colour.
    pub color: Rgba,
    /// The shape of the corners.
    pub shape: Shape,
    /// The border, if any.
    pub border: Option<Border>,
}

/// A fill colour, applied to a rectangle as a whole.
#[derive(Clone, Copy, Debug, PartialEq, Eq, Structural)]
pub struct Color(pub Rgba);

impl Rectangle {
    /// Creates a new rectangle with square corners and no border.
    pub fn new(color: Rgba) -> (r: Rectangle)
        ensures
            r.color == color,
            r.shape == Shape::Square,
            r.border.is_none(),
    {
        Rectangle { color: color, shape: Shape::Square, border: None }
    }

    /// The same style with its fill colour replaced.
    pub fn with_color(self, color: Rgba) -> (r: Rectangle)
        ensures
            r == (Rectangle { color: color, ..self }),
    {
        let mut r = self;
        Color(color).modify(&mut r);
        r
    }

    /// The same style with its corner shape replaced.
    pub fn with_shape(self, shape: Shape) -> (r: Rectangle)
        ensures
            r == (Rectangle { shape: shape, ..self }),
    {
        let mut r = self;
        shape.modify(&mut r);
        r
    }

    /// The same style with its border replaced.
    pub fn with_border(self, border: Border) -> (r: Rectangle)
        ensures
            r == (Rectangle { border: Some(border), ..self }),
    {
        let mut r = self;
        border.modify(&mut r);
        r
    }
}

impl Color {
    /// Replaces the rectangle's fill colour, leaving the rest as it was.
    pub fn modify(self, r: &mut Rectangle)
        ensures
            *final(r) == (Rectangle { color: self.0, ..*old(r) }),
    {
        let Color(val) = self;
        r.color = val;
    }
}

impl Shape {
    /// Replaces the rectangle's corner shape, leaving the rest as it was.
    pub fn modify(self, r: &mut Rectangle)
        ensures
            *final(r) == (Rectangle { shape: self, ..*old(r) }),
    {
        r.shape = self;
    }
}

impl Border {
    /// Sets the rectangle's border, leaving the rest as it was.
    pub fn modify(self, r: &mut Rectangle)
        ensures
            *final(r) == (Rectangle { border: Some(self), ..*old(r) }),
    {
        r.border = Some(self);
    }
}

} // verus!
