//! Drawing primitives: color, brush, fill rule, stroke style, blend mode,
//! and image.  Value types with no behaviour of their own; they are carried
//! by drawing commands and interpreted by the compositor.

use vstd::prelude::*;

verus! {

/// An sRGB color with alpha, eight bits per channel.
#[derive(Clone, Copy, Debug, PartialEq, Eq, Structural)]
pub struct Color {
    pub r: u8,
    pub g: u8,
    pub b: u8,
    pub a: u8,
}

impl Color {
    /// An opaque color.
    pub fn rgb(r: u8, g: u8, b: u8) -> (c: Color)
        ensures
            c == (Color { r, g, b, a: 255u8 }),
    {
        Color { r, g, b, a: 255 }
    }

    pub fn rgba(r: u8, g: u8, b: u8, a: u8) -> (c: Color)
        ensures
            c == (Color { r, g, b, a }),
    {
        Color { r, g, b, a }
    }
}

/// One stop of a gradient: a position along the gradient axis, in parts
/// per million, and the color there.
#[derive(Clone, Copy, Debug, PartialEq, Eq, Structural)]
pub struct GradientStop {
    pub offset_ppm: u32,
    pub color: Color,
}

/// A gradient, reduced to its stops.
#[derive(Debug, PartialEq)]
pub struct Gradient {
    pub stops: Vec<GradientStop>,
}

/// Copy of a vector of gradient stops.
fn copy_stops(v: &Vec<GradientStop>) -> (r: Vec<GradientStop>)
    ensures
        r@ == v@,
{
    let mut r: Vec<GradientStop> = Vec::new();
    let mut i: usize = 0;
    while i < v.len()
        invariant
            i <= v@.len(),
            r@ == v@.subrange(0, i as int),
        decreases v@.len() - i,
    {
        r.push(v[i]);
        i = i + 1;
    }
    proof {
        assert(r@ =~= v@);
    }
    r
}

/// Copy of a vector of bytes.
fn copy_bytes(v: &Vec<u8>) -> (r: Vec<u8>)
    ensures
        r@ == v@,
{
    let mut r: Vec<u8> = Vec::new();
    let mut i: usize = 0;
    while i < v.len()
        invariant
            i <= v@.len(),
            r@ == v@.subrange(0, i as int),
        decreases v@.len() - i,
    {
        r.push(v[i]);
        i = i + 1;
    }
    proof {
        assert(r@ =~= v@);
    }
    r
}

impl Clone for Gradient {
    fn clone(&self) -> (r: Self)
        ensures
            r@ == self@,
    {
        Gradient { stops: copy_stops(&self.stops) }
    }
}

impl View for Gradient {
    type V = Seq<GradientStop>;

    open spec fn view(&self) -> Seq<GradientStop> {
        self.stops@
    }
}

/// What a fill or stroke is painted with.
#[derive(Debug, PartialEq)]
pub enum Brush {
    Solid(Color),
    Gradient(Gradient),
}

impl Clone for Brush {
    fn clone(&self) -> (r: Self)
        ensures
            r@ == self@,
    {
        match self {
            Brush::Solid(c) => Brush::Solid(*c),
            Brush::Gradient(g) => Brush::Gradient(g.clone()),
        }
    }
}

/// Mathematical model of a brush.
pub enum BrushModel {
    Solid(Color),
    Gradient(Seq<GradientStop>),
}

impl View for Brush {
    type V = BrushModel;

    open spec fn view(&self) -> BrushModel {
        match self {
            Brush::Solid(c) => BrushModel::Solid(*c),
            Brush::Gradient(g) => BrushModel::Gradient(g@),
        }
    }
}

/// How self-intersecting fills are resolved.
#[derive(Clone, Copy, Debug, PartialEq, Eq, Structural)]
pub enum FillRule {
    NonZero,
    EvenOdd,
}

/// Stroke parameters; the width is in logical units.
#[derive(Clone, Copy, Debug, PartialEq, Eq, Structural)]
pub struct StrokeStyle {
    pub width: i64,
}

impl StrokeStyle {
    pub fn new(width: i64) -> (s: StrokeStyle)
        ensures
            s == (StrokeStyle { width }),
    {
        StrokeStyle { width }
    }
}

/// How a layer is blended over what lies below it.
#[derive(Clone, Copy, Debug, PartialEq, Eq, Structural)]
pub enum BlendMode {
    Normal,
    Multiply,
    Screen,
    Overlay,
    Darken,
    Lighten,
    ColorDodge,
    ColorBurn,
    HardLight,
    SoftLight,
    Difference,
    Exclusion,
    Hue,
    Saturation,
    Color,
    Luminosity,
    Clip,
}

/// An RGBA8 image: raw pixel bytes plus dimensions.
#[derive(Debug, PartialEq)]
pub struct Image {
    pub data: Vec<u8>,
    pub width: u32,
    pub height: u32,
}

/// Mathematical model of an image.
pub struct ImageModel {
    pub data: Seq<u8>,
    pub width: u32,
    pub height: u32,
}

impl View for Image {
    type V = ImageModel;

    open spec fn view(&self) -> ImageModel {
        ImageModel { data: self.data@, width: self.width, height: self.height }
    }
}

impl Clone for Image {
    fn clone(&self) -> (r: Self)
        ensures
            r@.data == self@.data,
            r@.width == self@.width,
            r@.height == self@.height,
    {
        Image { data: copy_bytes(&self.data), width: self.width, height: self.height }
    }
}

impl Image {
    pub fn new(data: Vec<u8>, width: u32, height: u32) -> (img: Image)
        ensures
            img@.data == data@,
            img@.width == width,
            img@.height == height,
    {
        Image { data, width, height }
    }
}

} // verus!
