//! Draw dispatch: what a rectangle style asks of a rendering backend.
//!
//! Drawing a style yields the commands a backend runs in order: set the
//! current colour, or draw a triangle list in the current colour. A fully
//! transparent fill or border is skipped; the corner shape selects the
//! tessellation and the number of points walked per corner.
use crate::style::{Border, Rectangle, Rgba, Shape, is_transparent, transparent};
use crate::tessellation::{
    Vertex,
    rect_border_tri_list,
    rect_tri_list,
    round_border,
    round_fill,
    round_rectangle_border_tri_list,
    round_rectangle_tri_list,
    square_border,
    square_fill,
};
use vstd::prelude::*;

verus! {

/// Points per corner when filling a round rectangle.
pub const ROUND_FILL_SEGMENTS: u32 = 32;

/// Points per corner when drawing the border of a round rectangle.
pub const ROUND_BORDER_SEGMENTS: u32 = 128;

/// Points per corner of a bevel, filled or bordered.
pub const BEVEL_SEGMENTS: u32 = 2;

/// One call on a rendering backend.
#[derive(Clone, Debug, PartialEq, Eq)]
pub enum Command {
    /// Set the colour of the triangles that follow.
    SetColor(Rgba),
    /// Draw a triangle list, three vertices per triangle.
    TriList(Vec<Vertex>),
}

/// The meaning of a [`Command`].
pub enum Step {
    SetColor(Rgba),
    TriList(Seq<Vertex>),
}

impl View for Command {
    type V = Step;

    open spec fn view(&self) -> Step {
        match self {
            Command::SetColor(c) => Step::SetColor(*c),
            Command::TriList(v) => Step::TriList(v@),
        }
    }
}

/// The fill of a shape when rounded corners are walked with `segments` points.
pub open spec fn fill_tessellation(shape: Shape, segments: u32) -> Seq<Vertex> {
    match shape {
        Shape::Square => square_fill(),
        Shape::Round(_) => round_fill(segments),
        Shape::Bevel(_) => round_fill(segments),
    }
}

/// The border of a shape when rounded corners are walked with `segments` points.
pub open spec fn border_tessellation(shape: Shape, segments: u32) -> Seq<Vertex> {
    match shape {
        Shape::Square => square_border(),
        Shape::Round(_) => round_border(segments),
        Shape::Bevel(_) => round_border(segments),
    }
}

/// The points per corner a shape's fill is walked with.
pub open spec fn fill_segments(shape: Shape) -> u32 {
    match shape {
        Shape::Bevel(_) => BEVEL_SEGMENTS,
        _ => ROUND_FILL_SEGMENTS,
    }
}

/// The points per corner a shape's border is walked with.
pub open spec fn border_segments(shape: Shape) -> u32 {
    match shape {
        Shape::Bevel(_) => BEVEL_SEGMENTS,
        _ => ROUND_BORDER_SEGMENTS,
    }
}

/// The triangles that fill a shape.
pub open spec fn fill_geometry(shape: Shape) -> Seq<Vertex> {
    fill_tessellation(shape, fill_segments(shape))
}

/// The triangles of a shape's border.
pub open spec fn border_geometry(shape: Shape) -> Seq<Vertex> {
    border_tessellation(shape, border_segments(shape))
}

/// The commands that fill a style: none when the fill is transparent.
pub open spec fn fill_plan(s: Rectangle) -> Seq<Step> {
    if is_transparent(s.color) {
        seq![]
    } else {
        seq![Step::SetColor(s.color), Step::TriList(fill_geometry(s.shape))]
    }
}

/// The commands that draw a style's border: none when there is no border or
/// its colour is transparent.
pub open spec fn border_plan(s: Rectangle) -> Seq<Step> {
    match s.border {
        None => seq![],
        Some(b) => if is_transparent(b.color) {
            seq![]
        } else {
            seq![Step::SetColor(b.color), Step::TriList(border_geometry(s.shape))]
        },
    }
}

/// All the commands that draw a style: the fill, then the border.
pub open spec fn draw_plan(s: Rectangle) -> Seq<Step> {
    fill_plan(s) + border_plan(s)
}

/// The meaning of a list of commands.
pub open spec fn steps(cs: Seq<Command>) -> Seq<Step> {
    cs.map_values(|c: Command| c@)
}

/// Tessellation is a pure function of the shape: equal shapes give equal
/// vertex sequences, for the fill and for the border, and equal styles give
/// equal commands.
pub proof fn lemma_tessellation_is_pure(a: Rectangle, b: Rectangle)
    requires
        a == b,
    ensures
        fill_geometry(a.shape) == fill_geometry(b.shape),
        border_geometry(a.shape) == border_geometry(b.shape),
        draw_plan(a) == draw_plan(b),
{
}

/// A transparent fill draws nothing, whatever the shape and border: the
/// commands are those of the border alone.
pub proof fn lemma_transparent_fill_is_skipped(s: Rectangle)
    requires
        is_transparent(s.color),
    ensures
        fill_plan(s) == Seq::<Step>::empty(),
        draw_plan(s) == border_plan(s),
{
    assert(draw_plan(s) =~= border_plan(s));
}

/// A transparent border draws nothing, and the fill goes ahead as it would
/// without a border.
pub proof fn lemma_transparent_border_is_skipped(s: Rectangle, b: Border)
    requires
        s.border == Some(b),
        is_transparent(b.color),
    ensures
        border_plan(s) == Seq::<Step>::empty(),
        draw_plan(s) == fill_plan(s),
        fill_plan(s) == fill_plan(Rectangle { border: None, ..s }),
        draw_plan(s) == draw_plan(Rectangle { border: None, ..s }),
{
    assert(draw_plan(s) =~= fill_plan(s));
    assert(draw_plan(Rectangle { border: None, ..s }) =~= fill_plan(s));
}

/// A bevel is a coarse round: walked with the same number of points per
/// corner, `Bevel(r)` and `Round(r)` give the same fill and the same border,
/// and a bevel is drawn as `Round(r)` walked with two points per corner.
pub proof fn lemma_bevel_is_coarse_round(r: crate::style::Radius, segments: u32)
    ensures
        fill_tessellation(Shape::Bevel(r), segments) == fill_tessellation(Shape::Round(r), segments),
        border_tessellation(Shape::Bevel(r), segments) == border_tessellation(Shape::Round(r), segments),
        fill_geometry(Shape::Bevel(r)) == fill_tessellation(Shape::Round(r), 2),
        border_geometry(Shape::Bevel(r)) == border_tessellation(Shape::Round(r), 2),
{
}

impl Shape {
    /// The triangles that fill a rectangle of this shape.
    pub fn fill_tri_list(&self) -> (r: Vec<Vertex>)
        ensures
            r@ == fill_geometry(*self),
    {
        match self {
            Shape::Square => rect_tri_list(),
            Shape::Round(_) => round_rectangle_tri_list(ROUND_FILL_SEGMENTS),
            Shape::Bevel(_) => round_rectangle_tri_list(BEVEL_SEGMENTS),
        }
    }

    /// The triangles of the border of a rectangle of this shape.
    pub fn border_tri_list(&self) -> (r: Vec<Vertex>)
        ensures
            r@ == border_geometry(*self),
    {
        match self {
            Shape::Square => rect_border_tri_list(),
            Shape::Round(_) => round_rectangle_border_tri_list(ROUND_BORDER_SEGMENTS),
            Shape::Bevel(_) => round_rectangle_border_tri_list(BEVEL_SEGMENTS),
        }
    }
}

impl Rectangle {
    /// The commands that draw this style, in the order a backend runs them.
    pub fn draw(&self) -> (r: Vec<Command>)
        ensures
            steps(r@) == draw_plan(*self),
    {
        let mut r: Vec<Command> = Vec::new();
        if !transparent(&self.color) {
            r.push(Command::SetColor(self.color));
            r.push(Command::TriList(self.shape.fill_tri_list()));
        }
        assert(steps(r@) =~= fill_plan(*self));
        if let Some(Border { color, radius: _ }) = self.border {
            if !transparent(&color) {
                r.push(Command::SetColor(color));
                r.push(Command::TriList(self.shape.border_tri_list()));
            }
        }
        assert(steps(r@) =~= draw_plan(*self));
        r
    }
}

} // verus!
