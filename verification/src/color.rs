//! The color model: named palette entries, explicit RGBA values, and the
//! gradient description that backends resolve into native paint objects.
//!
//! Channels are carried on the 0..=255 integer scale. Caller-supplied RGBA
//! channels are not range-checked by this layer: they are propagated as they
//! came, and a backend executor maps them onto whatever scale its native API
//! expects.

use vstd::prelude::*;
use crate::geometry::Point2;

verus! {

/// A four-channel color vector (red, green, blue, alpha), one `u32` per
/// channel on the 0..=255 scale.
#[derive(Clone, Copy, Debug, PartialEq, Eq, Structural)]
pub struct Vec4(pub u32, pub u32, pub u32, pub u32);

/// A solid color: a named palette entry or explicit RGBA channels.
#[derive(Clone, Copy, Debug, PartialEq, Eq, Structural)]
pub enum Color {
    White,
    WhiteGray,
    Gray,
    Black,
    Red,
    Green,
    Blue,
    Rgba(u32, u32, u32, u32),
}

/// The channel vector a color stands for. Named entries map to fixed
/// vectors; explicit channels pass through unchanged.
pub open spec fn spec_vec4_of(c: Color) -> Vec4 {
    match c {
        Color::White => Vec4(255, 255, 255, 255),
        Color::WhiteGray => Vec4(240, 240, 240, 255),
        Color::Gray => Vec4(128, 128, 128, 255),
        Color::Black => Vec4(0, 0, 0, 255),
        Color::Red => Vec4(255, 0, 0, 255),
        Color::Green => Vec4(0, 255, 0, 255),
        Color::Blue => Vec4(0, 0, 255, 255),
        Color::Rgba(r, g, b, a) => Vec4(r, g, b, a),
    }
}

impl From<Color> for Vec4 {
    fn from(c: Color) -> (r: Vec4) {
        match c {
            Color::White => Vec4(255, 255, 255, 255),
            Color::WhiteGray => Vec4(240, 240, 240, 255),
            Color::Gray => Vec4(128, 128, 128, 255),
            Color::Black => Vec4(0, 0, 0, 255),
            Color::Red => Vec4(255, 0, 0, 255),
            Color::Green => Vec4(0, 255, 0, 255),
            Color::Blue => Vec4(0, 0, 255, 255),
            Color::Rgba(r, g, b, a) => Vec4(r, g, b, a),
        }
    }
}

impl vstd::std_specs::convert::FromSpecImpl<Color> for Vec4 {
    open spec fn obeys_from_spec() -> bool {
        true
    }

    open spec fn from_spec(c: Color) -> Vec4 {
        spec_vec4_of(c)
    }
}

/// The geometry of a gradient: a linear ramp anchored between two points.
#[derive(Clone, Copy, Debug, PartialEq)]
pub enum GradientType {
    Linear(Point2<i64>, Point2<i64>),
}

/// What a drawing call paints with: one solid color, or a gradient given by
/// its ordered color stops, its geometry, and a caller-chosen mix position.
#[derive(Clone, Debug)]
pub enum Paint {
    Solid(Color),
    Gradient(Vec<Color>, GradientType, u32),
}

/// One entry of a native gradient-stop collection.
#[derive(Clone, Copy, Debug, PartialEq, Eq, Structural)]
pub struct GradientStop {
    pub position: u32,
    pub color: Vec4,
}

/// The stop collection built from an ordered color sequence: the i-th stop
/// carries the i-th color's channel vector at position i + 1, so positions
/// strictly increase in input order.
pub open spec fn spec_gradient_stops(stops: Seq<Color>) -> Seq<GradientStop> {
    Seq::new(stops.len(), |i: int| GradientStop {
        position: (i + 1) as u32,
        color: spec_vec4_of(stops[i]),
    })
}

/// Builds the native gradient-stop collection for a gradient's color list,
/// keeping the caller's stop order.
pub fn gradient_stops(stops: &Vec<Color>) -> (r: Vec<GradientStop>)
    requires
        stops@.len() < u32::MAX,
    ensures
        r@ == spec_gradient_stops(stops@),
{
    let mut r: Vec<GradientStop> = Vec::new();
    let mut i: usize = 0;
    while i < stops.len()
        invariant
            i <= stops@.len(),
            stops@.len() < u32::MAX,
            r@ == spec_gradient_stops(stops@).take(i as int),
        decreases stops@.len() - i,
    {
        let c = stops[i];
        r.push(GradientStop { position: (i as u32) + 1, color: Vec4::from(c) });
        proof {
            assert(r@ =~= spec_gradient_stops(stops@).take(i + 1 as int));
        }
        i = i + 1;
    }
    proof {
        assert(spec_gradient_stops(stops@).take(stops@.len() as int) =~= spec_gradient_stops(
            stops@,
        ));
    }
    r
}

/// A native brush description, scoped to a single drawing call: either a
/// solid-color brush or a linear-gradient brush with its stop collection and
/// anchor points.
#[derive(Clone, Debug, PartialEq)]
pub enum BrushSpec {
    Solid(Vec4),
    LinearGradient { stops: Vec<GradientStop>, from: Point2<i64>, to: Point2<i64> },
}

/// Whether a brush description is the one a paint resolves to: a solid paint
/// gives a solid brush of its channel vector; a gradient paint gives a
/// linear-gradient brush whose stops keep the caller's order and whose
/// anchors are the gradient's two points.
pub open spec fn spec_brush_of(paint: Paint, b: BrushSpec) -> bool {
    match paint {
        Paint::Solid(c) => b == BrushSpec::Solid(spec_vec4_of(c)),
        Paint::Gradient(stops, kind, _position) => {
            &&& b matches BrushSpec::LinearGradient { stops: bs, from, to }
            &&& bs@ == spec_gradient_stops(stops@)
            &&& kind matches GradientType::Linear(kf, kt)
            &&& from.0 == kf.0 && from.1 == kf.1
            &&& to.0 == kt.0 && to.1 == kt.1
        },
    }
}

/// Converting an explicit RGBA color to its channel vector is the
/// identity on the four channels, whatever values the caller supplied:
/// this layer never range-checks or rescales them.
pub proof fn lemma_rgba_roundtrip(r: u32, g: u32, b: u32, a: u32)
    ensures
        spec_vec4_of(Color::Rgba(r, g, b, a)) == Vec4(r, g, b, a),
{
}

/// Gradient stop order is preserved end to end: in the stop collection
/// built from any color list, every earlier color sits at a strictly
/// smaller position than every later one, and each stop carries exactly
/// the channel vector of the color at its place in the list.
pub proof fn lemma_gradient_stop_order(stops: Seq<Color>, i: int, j: int)
    requires
        0 <= i < j < stops.len(),
        stops.len() < u32::MAX,
    ensures
        spec_gradient_stops(stops)[i].position < spec_gradient_stops(stops)[j].position,
        spec_gradient_stops(stops)[i].color == spec_vec4_of(stops[i]),
        spec_gradient_stops(stops)[j].color == spec_vec4_of(stops[j]),
{
}

/// Resolves a paint into the brush description a backend hands to its native
/// "fill with brush" call. Built fresh for every drawing call; nothing is
/// cached across frames.
pub fn resolve_brush(paint: &Paint) -> (b: BrushSpec)
    requires
        paint matches Paint::Gradient(stops, _, _) ==> stops@.len() < u32::MAX,
    ensures
        spec_brush_of(*paint, b),
{
    match paint {
        Paint::Solid(c) => BrushSpec::Solid(Vec4::from(*c)),
        Paint::Gradient(stops, kind, _position) => {
            let s = gradient_stops(stops);
            match kind {
                GradientType::Linear(from, to) => BrushSpec::LinearGradient {
                    stops: s,
                    from: Point2(from.0, from.1),
                    to: Point2(to.0, to.1),
                },
            }
        },
    }
}

} // verus!
