//! Symbolic tessellation of square, rounded and beveled rectangles.
//!
//! A vertex here names a point of the rectangle's geometry rather than holding
//! its coordinates: a corner of the rectangle, a corner of the rectangle inset
//! by the border thickness, or a point of the walk round a rounded contour.
//! Given the rectangle `(x, y, w, h)`, the corner radius `r`, the border
//! thickness `b` and a transform, each vertex stands for one position:
//!
//! - the outer contour is the rectangle itself, with corner radius `r`;
//! - the inner contour is the rectangle inset by `b` on all four sides, with
//!   corner radius `r - b`;
//! - `Arc { index: i, segments: n, .. }` lies on the quarter circle of the
//!   contour's corner radius about the centre of quarter `i / n` (the contour's
//!   bottom-right, bottom-left, top-left, top-right corner, each inset by the
//!   radius), at angle `i * 90 / n` degrees, measured from the x axis towards
//!   the y axis.
//!
//! Every triangle list is a flat sequence of vertices, three per triangle.
use vstd::prelude::*;

verus! {

/// The most segments per corner that a walk may use.
pub const MAX_SEGMENTS: u32 = 0x0100_0000;

/// Which of the two contours of a rectangle a vertex belongs to.
#[derive(Clone, Copy, Debug, PartialEq, Eq, Structural)]
pub enum Contour {
    /// The rectangle's own outline.
    Outer,
    /// The outline inset by the border thickness.
    Inner,
}

/// A corner of a contour, listed in the order the walk visits them.
#[derive(Clone, Copy, Debug, PartialEq, Eq, Structural)]
pub enum Corner {
    BottomRight,
    BottomLeft,
    TopLeft,
    TopRight,
}

/// A point of a rectangle's geometry.
#[derive(Clone, Copy, Debug, PartialEq, Eq, Structural)]
pub enum Vertex {
    /// A corner of a contour with square corners.
    Corner(Contour, Corner),
    /// Point `index` of the walk of `4 * segments` points round a rounded
    /// contour, at angle `index * 90 / segments` degrees.
    Arc { contour: Contour, index: u32, segments: u32 },
}

/// The corners of a square contour, in walk order.
pub open spec fn square_polygon(c: Contour) -> Seq<Vertex> {
    seq![
        Vertex::Corner(c, Corner::BottomRight),
        Vertex::Corner(c, Corner::BottomLeft),
        Vertex::Corner(c, Corner::TopLeft),
        Vertex::Corner(c, Corner::TopRight),
    ]
}

/// The walk round a rounded contour: `segments` points per corner.
pub open spec fn round_polygon(c: Contour, segments: u32) -> Seq<Vertex> {
    Seq::new(
        4 * segments as nat,
        |i: int| Vertex::Arc { contour: c, index: i as u32, segments: segments },
    )
}

/// The triangle fan over a convex polygon: triangle `t` is
/// `(p[0], p[t + 1], p[t + 2])`.
pub open spec fn fan(p: Seq<Vertex>) -> Seq<Vertex> {
    Seq::new(
        (3 * (p.len() - 2)) as nat,
        |j: int|
            if j % 3 == 0 {
                p[0]
            } else if j % 3 == 1 {
                p[j / 3 + 1]
            } else {
                p[j / 3 + 2]
            },
    )
}

/// The index after `t` round a polygon of `m` points.
pub open spec fn next_index(t: int, m: int) -> int {
    if t + 1 == m {
        0
    } else {
        t + 1
    }
}

/// The ring between two polygons of equal length: for each edge `t` of the
/// outer polygon `p`, the quad it forms with the matching edge of the inner
/// polygon `q`, as triangles `(p[t], p[t'], q[t])` and `(p[t'], q[t'], q[t])`
/// with `t'` the index after `t`.
pub open spec fn ring(p: Seq<Vertex>, q: Seq<Vertex>) -> Seq<Vertex> {
    Seq::new(
        6 * p.len(),
        |j: int|
            {
                let t = j / 6;
                let u = next_index(t, p.len() as int);
                let k = j % 6;
                if k == 0 {
                    p[t]
                } else if k == 1 || k == 3 {
                    p[u]
                } else if k == 4 {
                    q[u]
                } else {
                    q[t]
                }
            },
    )
}

/// Triangle `t` of a flat triangle list.
pub open spec fn triangle(s: Seq<Vertex>, t: int) -> (Vertex, Vertex, Vertex) {
    (s[3 * t], s[3 * t + 1], s[3 * t + 2])
}

/// Point `i` of the walk round a rounded contour with `segments` points per corner.
pub open spec fn arc_point(c: Contour, i: int, segments: u32) -> Vertex {
    Vertex::Arc { contour: c, index: i as u32, segments: segments }
}

/// The fill of a rectangle with square corners.
pub open spec fn square_fill() -> Seq<Vertex> {
    fan(square_polygon(Contour::Outer))
}

/// The border ring of a rectangle with square corners.
pub open spec fn square_border() -> Seq<Vertex> {
    ring(square_polygon(Contour::Outer), square_polygon(Contour::Inner))
}

/// The fill of a rounded rectangle, walked with `segments` points per corner.
pub open spec fn round_fill(segments: u32) -> Seq<Vertex> {
    fan(round_polygon(Contour::Outer, segments))
}

/// The border ring of a rounded rectangle, walked with `segments` points per corner.
pub open spec fn round_border(segments: u32) -> Seq<Vertex> {
    ring(round_polygon(Contour::Outer, segments), round_polygon(Contour::Inner, segments))
}

fn square_polygon_vec(c: Contour) -> (r: Vec<Vertex>)
    ensures
        r@ == square_polygon(c),
{
    let mut r: Vec<Vertex> = Vec::new();
    r.push(Vertex::Corner(c, Corner::BottomRight));
    r.push(Vertex::Corner(c, Corner::BottomLeft));
    r.push(Vertex::Corner(c, Corner::TopLeft));
    r.push(Vertex::Corner(c, Corner::TopRight));
    assert(r@ =~= square_polygon(c));
    r
}

fn round_polygon_vec(c: Contour, segments: u32) -> (r: Vec<Vertex>)
    requires
        1 <= segments <= MAX_SEGMENTS,
    ensures
        r@ == round_polygon(c, segments),
{
    let n: u32 = 4 * segments;
    let mut r: Vec<Vertex> = Vec::new();
    let mut i: u32 = 0;
    while i < n
        invariant
            n == 4 * segments,
            segments <= MAX_SEGMENTS,
            i <= n,
            r@.len() == i,
            forall|k: int| 0 <= k < i ==> r@[k] == round_polygon(c, segments)[k],
        decreases n - i,
    {
        r.push(Vertex::Arc { contour: c, index: i, segments: segments });
        i = i + 1;
    }
    assert(r@ =~= round_polygon(c, segments));
    r
}

fn fan_tri_list(p: &Vec<Vertex>) -> (r: Vec<Vertex>)
    requires
        3 <= p@.len() <= 4 * MAX_SEGMENTS,
    ensures
        r@ == fan(p@),
{
    let mut r: Vec<Vertex> = Vec::new();
    let mut t: usize = 0;
    while t + 2 < p.len()
        invariant
            3 <= p@.len() <= 4 * MAX_SEGMENTS,
            t + 2 <= p@.len(),
            r@.len() == 3 * t,
            forall|j: int| 0 <= j < 3 * t ==> r@[j] == fan(p@)[j],
        decreases p@.len() - t,
    {
        r.push(p[0]);
        r.push(p[t + 1]);
        r.push(p[t + 2]);
        assert forall|j: int| 0 <= j < 3 * t + 3 implies r@[j] == fan(p@)[j] by {
            if j >= 3 * t {
                assert((j / 3) == t && j % 3 == j - 3 * t) by (nonlinear_arith)
                    requires
                        3 * t <= j < 3 * t + 3,
                ;
            }
        }
        t = t + 1;
    }
    assert(r@ =~= fan(p@));
    r
}

fn ring_tri_list(p: &Vec<Vertex>, q: &Vec<Vertex>) -> (r: Vec<Vertex>)
    requires
        1 <= p@.len() <= 4 * MAX_SEGMENTS,
        q@.len() == p@.len(),
    ensures
        r@ == ring(p@, q@),
{
    let m: usize = p.len();
    let mut r: Vec<Vertex> = Vec::new();
    let mut t: usize = 0;
    while t < m
        invariant
            m == p@.len(),
            1 <= m <= 4 * MAX_SEGMENTS,
            q@.len() == m,
            t <= m,
            r@.len() == 6 * t,
            forall|j: int| 0 <= j < 6 * t ==> r@[j] == ring(p@, q@)[j],
        decreases m - t,
    {
        let u: usize = if t + 1 == m { 0 } else { t + 1 };
        r.push(p[t]);
        r.push(p[u]);
        r.push(q[t]);
        r.push(p[u]);
        r.push(q[u]);
        r.push(q[t]);
        assert forall|j: int| 0 <= j < 6 * t + 6 implies r@[j] == ring(p@, q@)[j] by {
            if j >= 6 * t {
                assert((j / 6) == t && j % 6 == j - 6 * t) by (nonlinear_arith)
                    requires
                        6 * t <= j < 6 * t + 6,
                ;
            }
        }
        t = t + 1;
    }
    assert(r@ =~= ring(p@, q@));
    r
}

/// A square fill is two triangles that split the rectangle along a diagonal:
/// with `a, b, c, d` its four distinct corners in order round the outline, the
/// triangles are `(a, b, c)` and `(a, c, d)`. Their union is the rectangle and
/// they share only the edge `a`-`c`.
pub proof fn lemma_square_fill_covers_rectangle()
    ensures
        ({
            let p = square_polygon(Contour::Outer);
            let (a, b, c, d) = (p[0], p[1], p[2], p[3]);
            &&& square_fill().len() == 6
            &&& triangle(square_fill(), 0) == (a, b, c)
            &&& triangle(square_fill(), 1) == (a, c, d)
            &&& a != b && a != c && a != d && b != c && b != d && c != d
        }),
{
    assert(square_fill().len() == 6);
}

/// A round fill walked with `n` points per corner is a fan over the walk
/// round the outline: every triangle has the walk's first point and two
/// consecutive points of the walk, and point `i` of the walk lies in quarter
/// `i / n` at angle `i` times 90/n degrees, so that consecutive points of one
/// corner are one step of 90/n degrees apart.
pub proof fn lemma_round_fill_walk(n: u32)
    requires
        1 <= n <= MAX_SEGMENTS,
    ensures
        round_fill(n).len() == 3 * (4 * n - 2),
        round_polygon(Contour::Outer, n).len() == 4 * n,
        forall|i: int|
            0 <= i < 4 * n ==> {
                &&& #[trigger] round_polygon(Contour::Outer, n)[i] == arc_point(Contour::Outer, i, n)
                &&& 0 <= i / (n as int) < 4
            },
        forall|t: int|
            0 <= t < 4 * n - 2 ==> #[trigger] triangle(round_fill(n), t) == (
                arc_point(Contour::Outer, 0, n),
                arc_point(Contour::Outer, t + 1, n),
                arc_point(Contour::Outer, t + 2, n),
            ),
{
    assert forall|i: int| 0 <= i < 4 * n implies 0 <= #[trigger] (i / (n as int)) < 4 by {
        assert(0 <= i / (n as int) < 4) by (nonlinear_arith)
            requires
                0 <= i < 4 * n,
                n >= 1,
        ;
    }
    assert forall|t: int| 0 <= t < 4 * n - 2 implies #[trigger] triangle(round_fill(n), t) == (
        arc_point(Contour::Outer, 0, n),
        arc_point(Contour::Outer, t + 1, n),
        arc_point(Contour::Outer, t + 2, n),
    ) by {
        assert((3 * t) / 3 == t && (3 * t) % 3 == 0) by (nonlinear_arith);
        assert((3 * t + 1) / 3 == t && (3 * t + 1) % 3 == 1) by (nonlinear_arith);
        assert((3 * t + 2) / 3 == t && (3 * t + 2) % 3 == 2) by (nonlinear_arith);
    }
}

/// A round border walked with `n` points per corner joins the two walks point
/// by point: quad `t` is made of points `t` and `t'` of the outer walk and the
/// same two points of the inner walk, with `t'` the point after `t`, the last
/// quad closing the ring back to point 0.
pub proof fn lemma_round_border_pairs_walks(n: u32)
    requires
        1 <= n <= MAX_SEGMENTS,
    ensures
        round_border(n).len() == 6 * (4 * n),
        forall|t: int|
            0 <= t < 4 * n ==> {
                let u = next_index(t, 4 * n);
                &&& #[trigger] triangle(round_border(n), 2 * t) == (
                    arc_point(Contour::Outer, t, n),
                    arc_point(Contour::Outer, u, n),
                    arc_point(Contour::Inner, t, n),
                )
                &&& triangle(round_border(n), 2 * t + 1) == (
                    arc_point(Contour::Outer, u, n),
                    arc_point(Contour::Inner, u, n),
                    arc_point(Contour::Inner, t, n),
                )
            },
{
    assert forall|t: int| 0 <= t < 4 * n implies {
        let u = next_index(t, 4 * n);
        &&& #[trigger] triangle(round_border(n), 2 * t) == (
            arc_point(Contour::Outer, t, n),
            arc_point(Contour::Outer, u, n),
            arc_point(Contour::Inner, t, n),
        )
        &&& triangle(round_border(n), 2 * t + 1) == (
            arc_point(Contour::Outer, u, n),
            arc_point(Contour::Inner, u, n),
            arc_point(Contour::Inner, t, n),
        )
    } by {
        assert(3 * (2 * t) == 6 * t && 3 * (2 * t + 1) == 6 * t + 3) by (nonlinear_arith);
        assert forall|k: int| 0 <= k < 6 implies (6 * t + k) / 6 == t && #[trigger] ((6 * t + k) % 6)
            == k by {
            assert((6 * t + k) / 6 == t && (6 * t + k) % 6 == k) by (nonlinear_arith)
                requires
                    0 <= k < 6,
            ;
        }
    }
}

/// The two triangles that fill a rectangle with square corners.
pub fn rect_tri_list() -> (r: Vec<Vertex>)
    ensures
        r@ == square_fill(),
{
    let p = square_polygon_vec(Contour::Outer);
    fan_tri_list(&p)
}

/// The ring of triangles between a rectangle and the rectangle inset by the
/// border thickness on all four sides.
pub fn rect_border_tri_list() -> (r: Vec<Vertex>)
    ensures
        r@ == square_border(),
{
    let p = square_polygon_vec(Contour::Outer);
    let q = square_polygon_vec(Contour::Inner);
    ring_tri_list(&p, &q)
}

/// The triangle fan that fills a rounded rectangle, each corner walked with
/// `segments` points.
pub fn round_rectangle_tri_list(segments: u32) -> (r: Vec<Vertex>)
    requires
        1 <= segments <= MAX_SEGMENTS,
    ensures
        r@ == round_fill(segments),
{
    let p = round_polygon_vec(Contour::Outer, segments);
    fan_tri_list(&p)
}

/// The ring of triangles between a rounded rectangle and its inset contour,
/// each corner walked with `segments` points.
pub fn round_rectangle_border_tri_list(segments: u32) -> (r: Vec<Vertex>)
    requires
        1 <= segments <= MAX_SEGMENTS,
    ensures
        r@ == round_border(segments),
{
    let p = round_polygon_vec(Contour::Outer, segments);
    let q = round_polygon_vec(Contour::Inner, segments);
    ring_tri_list(&p, &q)
}

} // verus!
