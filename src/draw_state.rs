//! The render state a backend draws rectangles with by default.
use vstd::prelude::*;

verus! {

/// Which winding of a triangle faces the viewer.
#[derive(Clone, Copy, Debug, PartialEq, Eq, Structural)]
pub enum FrontFace {
    Clockwise,
    CounterClockwise,
}

/// Which faces are culled.
#[derive(Clone, Copy, Debug, PartialEq, Eq, Structural)]
pub enum CullFace {
    Nothing,
    Front,
    Back,
}

/// How triangles are rasterized.
#[derive(Clone, Copy, Debug, PartialEq, Eq, Structural)]
pub enum RasterMethod {
    Point,
    Line,
    Fill(CullFace),
}

/// The rasterizer settings.
#[derive(Clone, Copy, Debug, PartialEq, Eq, Structural)]
pub struct Rasterizer {
    pub front_face: FrontFace,
    pub method: RasterMethod,
}

/// How a blend channel combines source and destination.
#[derive(Clone, Copy, Debug, PartialEq, Eq, Structural)]
pub enum Equation {
    Add,
    Sub,
    RevSub,
    Min,
    Max,
}

/// A value a blend factor is made of.
#[derive(Clone, Copy, Debug, PartialEq, Eq, Structural)]
pub enum BlendValue {
    SourceColor,
    SourceAlpha,
    DestColor,
    DestAlpha,
    ConstColor,
    ConstAlpha,
}

/// A blend factor.
#[derive(Clone, Copy, Debug, PartialEq, Eq, Structural)]
pub enum Factor {
    Zero,
    One,
    SourceAlphaSaturated,
    ZeroPlus(BlendValue),
    OneMinus(BlendValue),
}

/// The blend equation and factors of one channel.
#[derive(Clone, Copy, Debug, PartialEq, Eq, Structural)]
pub struct BlendChannel {
    pub equation: Equation,
    pub source: Factor,
    pub destination: Factor,
}

/// Blending for the colour channels and for the alpha channel.
#[derive(Clone, Copy, Debug, PartialEq, Eq, Structural)]
pub struct Blend {
    pub color: BlendChannel,
    pub alpha: BlendChannel,
}

/// Which colour channels are written.
#[derive(Clone, Copy, Debug, PartialEq, Eq, Structural)]
pub struct ColorMask {
    pub red: bool,
    pub green: bool,
    pub blue: bool,
    pub alpha: bool,
}

/// A render state. The flags say whether the state overrides the backend's
/// multisampling, scissor, stencil and depth settings.
#[derive(Clone, Copy, Debug, PartialEq, Eq, Structural)]
pub struct DrawState {
    pub rasterizer: Rasterizer,
    pub multi_sample: bool,
    pub scissor: bool,
    pub stencil: bool,
    pub depth: bool,
    pub blend: Option<Blend>,
    pub color_mask: ColorMask,
}

/// Returns a default draw state that does additive blending and no culling:
/// counter-clockwise front faces, filled triangles with nothing culled, no
/// multisampling, scissor, stencil or depth override, colour blended as
/// `source * source_alpha + destination * (1 - source_alpha)`, alpha as
/// `source + destination`, and every channel written.
pub fn default_draw_state() -> (r: DrawState)
    ensures
        r.rasterizer == (Rasterizer {
            front_face: FrontFace::CounterClockwise,
            method: RasterMethod::Fill(CullFace::Nothing),
        }),
        !r.multi_sample && !r.scissor && !r.stencil && !r.depth,
        r.blend == Some(
            Blend {
                color: BlendChannel {
                    equation: Equation::Add,
                    source: Factor::ZeroPlus(BlendValue::SourceAlpha),
                    destination: Factor::OneMinus(BlendValue::SourceAlpha),
                },
                alpha: BlendChannel {
                    equation: Equation::Add,
                    source: Factor::One,
                    destination: Factor::One,
                },
            },
        ),
        r.color_mask == (ColorMask { red: true, green: true, blue: true, alpha: true }),
{
    DrawState {
        rasterizer: Rasterizer {
            front_face: FrontFace::CounterClockwise,
            method: RasterMethod::Fill(CullFace::Nothing),
        },
        multi_sample: false,
        scissor: false,
        stencil: false,
        depth: false,
        blend: Some(
            Blend {
                color: BlendChannel {
                    equation: Equation::Add,
                    source: Factor::ZeroPlus(BlendValue::SourceAlpha),
                    destination: Factor::OneMinus(BlendValue::SourceAlpha),
                },
                alpha: BlendChannel {
                    equation: Equation::Add,
                    source: Factor::One,
                    destination: Factor::One,
                },
            },
        ),
        color_mask: ColorMask { red: true, green: true, blue: true, alpha: true },
    }
}

} // verus!
