use rectangle::draw::{Command, BEVEL_SEGMENTS, ROUND_BORDER_SEGMENTS, ROUND_FILL_SEGMENTS};
use rectangle::draw_state::{
    default_draw_state, BlendValue, CullFace, Equation, Factor, FrontFace, RasterMethod,
};
use rectangle::style::{transparent, Border, Color, Rectangle, Rgba, Shape};
use rectangle::tessellation::{
    rect_border_tri_list, rect_tri_list, round_rectangle_border_tri_list,
    round_rectangle_tri_list, Contour, Corner, Vertex,
};

fn rgba(c: [f32; 4]) -> Rgba {
    Rgba { r: c[0].to_bits(), g: c[1].to_bits(), b: c[2].to_bits(), a: c[3].to_bits() }
}

fn splat(v: f32) -> Rgba {
    rgba([v; 4])
}

fn radius(v: f64) -> u64 {
    v.to_bits()
}

/// Position of a square-contour corner of the rectangle `(x, y, w, h)`.
fn corner_position(v: Vertex, rect: [f64; 4]) -> (f64, f64) {
    let [x, y, w, h] = rect;
    match v {
        Vertex::Corner(Contour::Outer, Corner::TopLeft) => (x, y),
        Vertex::Corner(Contour::Outer, Corner::TopRight) => (x + w, y),
        Vertex::Corner(Contour::Outer, Corner::BottomRight) => (x + w, y + h),
        Vertex::Corner(Contour::Outer, Corner::BottomLeft) => (x, y + h),
        _ => panic!("not an outer corner"),
    }
}

fn arc(contour: Contour, index: u32, segments: u32) -> Vertex {
    Vertex::Arc { contour, index, segments }
}

fn tri_list(c: &Command) -> &Vec<Vertex> {
    match c {
        Command::TriList(v) => v,
        Command::SetColor(_) => panic!("not a triangle list"),
    }
}

#[test]
fn test_rectangle() {
    let mut rectangle = Rectangle::new(splat(1.0));
    Color(splat(0.0)).modify(&mut rectangle);
    Shape::Round(radius(10.0)).modify(&mut rectangle);
    Border { color: splat(0.0), radius: radius(4.0) }.modify(&mut rectangle);
    assert_eq!(rectangle.color, splat(0.0));
    assert_eq!(rectangle.shape, Shape::Round(radius(10.0)));
    assert_eq!(rectangle.border, Some(Border { color: splat(0.0), radius: radius(4.0) }));
}

#[test]
fn new_has_square_corners_and_no_border() {
    let r = Rectangle::new(rgba([0.5, 0.25, 0.0, 1.0]));
    assert_eq!(r.color, rgba([0.5, 0.25, 0.0, 1.0]));
    assert_eq!(r.shape, Shape::Square);
    assert_eq!(r.border, None);
}

#[test]
fn builders_replace_one_field() {
    let border = Border { color: splat(1.0), radius: radius(2.0) };
    let r = Rectangle::new(splat(1.0))
        .with_shape(Shape::Bevel(radius(3.0)))
        .with_border(border)
        .with_color(splat(0.5));
    assert_eq!(r.color, splat(0.5));
    assert_eq!(r.shape, Shape::Bevel(radius(3.0)));
    assert_eq!(r.border, Some(border));
}

#[test]
fn zero_alpha_of_either_sign_is_transparent() {
    assert!(transparent(&rgba([1.0, 1.0, 1.0, 0.0])));
    assert!(transparent(&rgba([1.0, 1.0, 1.0, -0.0])));
    assert!(!transparent(&rgba([0.0, 0.0, 0.0, 0.5])));
    assert!(!transparent(&rgba([0.0, 0.0, 0.0, f32::MIN_POSITIVE])));
}

#[test]
fn square_fill_is_two_triangles_on_a_diagonal() {
    let v = rect_tri_list();
    let br = Vertex::Corner(Contour::Outer, Corner::BottomRight);
    let bl = Vertex::Corner(Contour::Outer, Corner::BottomLeft);
    let tl = Vertex::Corner(Contour::Outer, Corner::TopLeft);
    let tr = Vertex::Corner(Contour::Outer, Corner::TopRight);
    assert_eq!(v, vec![br, bl, tl, br, tl, tr]);
}

#[test]
fn square_border_is_four_quads() {
    let v = rect_border_tri_list();
    assert_eq!(v.len(), 24);
    let o = |c| Vertex::Corner(Contour::Outer, c);
    let i = |c| Vertex::Corner(Contour::Inner, c);
    assert_eq!(
        v[0..6].to_vec(),
        vec![
            o(Corner::BottomRight),
            o(Corner::BottomLeft),
            i(Corner::BottomRight),
            o(Corner::BottomLeft),
            i(Corner::BottomLeft),
            i(Corner::BottomRight),
        ]
    );
    // The last quad closes the ring back to the first corner.
    assert_eq!(v[19], o(Corner::BottomRight));
    assert_eq!(v[22], i(Corner::BottomRight));
}

#[test]
fn round_fill_walks_each_corner_in_equal_steps() {
    let n: u32 = 32;
    let v = round_rectangle_tri_list(n);
    assert_eq!(v.len(), 3 * (4 * 32 - 2));
    for t in 0..(4 * n - 2) as usize {
        assert_eq!(v[3 * t], arc(Contour::Outer, 0, n));
        assert_eq!(v[3 * t + 1], arc(Contour::Outer, t as u32 + 1, n));
        assert_eq!(v[3 * t + 2], arc(Contour::Outer, t as u32 + 2, n));
    }
}

#[test]
fn round_border_pairs_outer_and_inner_walks() {
    let v = round_rectangle_border_tri_list(3);
    assert_eq!(v.len(), 6 * 12);
    assert_eq!(
        v[6..12].to_vec(),
        vec![
            arc(Contour::Outer, 1, 3),
            arc(Contour::Outer, 2, 3),
            arc(Contour::Inner, 1, 3),
            arc(Contour::Outer, 2, 3),
            arc(Contour::Inner, 2, 3),
            arc(Contour::Inner, 1, 3),
        ]
    );
    assert_eq!(v[66 + 1], arc(Contour::Outer, 0, 3));
}

#[test]
fn fill_tessellation_is_pure() {
    let s = Rectangle::new(splat(1.0)).with_shape(Shape::Round(radius(5.0)));
    assert_eq!(s.draw(), s.draw());
    assert_eq!(s.shape.fill_tri_list(), s.shape.fill_tri_list());
    assert_eq!(round_rectangle_tri_list(7), round_rectangle_tri_list(7));
}

#[test]
fn transparent_fill_draws_nothing() {
    for shape in [Shape::Square, Shape::Round(radius(3.0)), Shape::Bevel(radius(3.0))] {
        let s = Rectangle::new(rgba([1.0, 0.0, 0.0, 0.0])).with_shape(shape);
        assert!(s.draw().is_empty());
    }
}

#[test]
fn transparent_border_leaves_fill_alone() {
    let fill = rgba([0.0, 1.0, 0.0, 1.0]);
    let s = Rectangle::new(fill)
        .with_shape(Shape::Bevel(radius(2.0)))
        .with_border(Border { color: rgba([1.0, 1.0, 1.0, 0.0]), radius: radius(1.0) });
    let cmds = s.draw();
    assert_eq!(cmds.len(), 2);
    assert_eq!(cmds[0], Command::SetColor(fill));
    assert_eq!(cmds, Rectangle::new(fill).with_shape(Shape::Bevel(radius(2.0))).draw());
}

#[test]
fn bevel_is_round_walked_with_two_points() {
    let r = radius(6.0);
    assert_eq!(Shape::Bevel(r).fill_tri_list(), round_rectangle_tri_list(BEVEL_SEGMENTS));
    assert_eq!(Shape::Bevel(r).border_tri_list(), round_rectangle_border_tri_list(2));
    assert_eq!(
        Shape::Round(r).fill_tri_list(),
        round_rectangle_tri_list(ROUND_FILL_SEGMENTS)
    );
    assert_eq!(Shape::Bevel(r).fill_tri_list().len(), 3 * 6);
    assert_ne!(Shape::Bevel(r).fill_tri_list(), Shape::Round(r).fill_tri_list());
}

#[test]
fn square_red_rectangle_end_to_end() {
    let red = rgba([1.0, 0.0, 0.0, 1.0]);
    let cmds = Rectangle::new(red).draw();
    assert_eq!(cmds.len(), 2);
    assert_eq!(cmds[0], Command::SetColor(red));
    let v = tri_list(&cmds[1]);
    assert_eq!(v.len(), 6);
    let rect = [0.0, 0.0, 100.0, 50.0];
    let mut corners: Vec<(f64, f64)> = v.iter().map(|&p| corner_position(p, rect)).collect();
    corners.sort_by(|a, b| a.partial_cmp(b).unwrap());
    corners.dedup();
    assert_eq!(corners, vec![(0.0, 0.0), (0.0, 50.0), (100.0, 0.0), (100.0, 50.0)]);
}

#[test]
fn round_border_only_end_to_end() {
    let black = rgba([0.0, 0.0, 0.0, 1.0]);
    let s = Rectangle::new(rgba([1.0, 1.0, 1.0, 0.0]))
        .with_shape(Shape::Round(radius(10.0)))
        .with_border(Border { color: black, radius: radius(4.0) });
    let cmds = s.draw();
    assert_eq!(cmds.len(), 2);
    assert_eq!(cmds[0], Command::SetColor(black));
    let v = tri_list(&cmds[1]);
    assert_eq!(v.len(), 6 * 4 * 128);
    assert!(v.iter().all(|p| matches!(p, Vertex::Arc { segments: 128, .. })));
    assert_eq!(*v, round_rectangle_border_tri_list(ROUND_BORDER_SEGMENTS));
}

#[test]
fn square_border_follows_fill() {
    let s = Rectangle::new(splat(1.0)).with_border(Border { color: splat(0.5), radius: radius(1.0) });
    let cmds = s.draw();
    assert_eq!(
        cmds,
        vec![
            Command::SetColor(splat(1.0)),
            Command::TriList(rect_tri_list()),
            Command::SetColor(splat(0.5)),
            Command::TriList(rect_border_tri_list()),
        ]
    );
}

#[test]
fn default_state_blends_additively_without_culling() {
    let s = default_draw_state();
    assert_eq!(s.rasterizer.front_face, FrontFace::CounterClockwise);
    assert_eq!(s.rasterizer.method, RasterMethod::Fill(CullFace::Nothing));
    assert!(!s.multi_sample && !s.scissor && !s.stencil && !s.depth);
    let blend = s.blend.unwrap();
    assert_eq!(blend.color.equation, Equation::Add);
    assert_eq!(blend.color.source, Factor::ZeroPlus(BlendValue::SourceAlpha));
    assert_eq!(blend.color.destination, Factor::OneMinus(BlendValue::SourceAlpha));
    assert_eq!(blend.alpha.equation, Equation::Add);
    assert_eq!(blend.alpha.source, Factor::One);
    assert_eq!(blend.alpha.destination, Factor::One);
    assert!(s.color_mask.red && s.color_mask.green && s.color_mask.blue && s.color_mask.alpha);
}
