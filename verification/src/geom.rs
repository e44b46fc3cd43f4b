//! Integer geometry: points, sizes, rectangles, shapes, and axis-aligned
//! affine transforms.
//!
//! Coordinates are carried as `i64` logical units.  A transform maps
//! `(x, y)` to `(sx * x + tx, sy * y + ty)`: translation and per-axis
//! scale.  Rotation is out of scope; clip regions are always the
//! axis-aligned bounding box of a transformed rectangle, so any rotated
//! content would clip against its bounding box by design.

use vstd::prelude::*;

verus! {

/// A value fits in the machine coordinate type.
pub open spec fn in_i64(x: int) -> bool {
    i64::MIN <= x <= i64::MAX
}

#[derive(Clone, Copy, Debug, PartialEq, Eq, Structural)]
pub struct Vec2 {
    pub x: i64,
    pub y: i64,
}

impl Vec2 {
    pub fn new(x: i64, y: i64) -> (r: Vec2)
        ensures
            r == (Vec2 { x, y }),
    {
        Vec2 { x, y }
    }

    pub fn zero() -> (r: Vec2)
        ensures
            r == (Vec2 { x: 0i64, y: 0i64 }),
    {
        Vec2 { x: 0, y: 0 }
    }

    /// The opposite vector.
    pub open spec fn neg_spec(self) -> Vec2 {
        Vec2 { x: (-(self.x as int)) as i64, y: (-(self.y as int)) as i64 }
    }

    pub open spec fn neg_ok(self) -> bool {
        &&& in_i64(-(self.x as int))
        &&& in_i64(-(self.y as int))
    }
}

#[derive(Clone, Copy, Debug, PartialEq, Eq, Structural)]
pub struct Point {
    pub x: i64,
    pub y: i64,
}

impl Point {
    pub fn new(x: i64, y: i64) -> (r: Point)
        ensures
            r == (Point { x, y }),
    {
        Point { x, y }
    }

    pub fn origin() -> (r: Point)
        ensures
            r == (Point { x: 0i64, y: 0i64 }),
    {
        Point { x: 0, y: 0 }
    }
}

#[derive(Clone, Copy, Debug, PartialEq, Eq, Structural)]
pub struct Size {
    pub width: i64,
    pub height: i64,
}

impl Size {
    pub fn new(width: i64, height: i64) -> (r: Size)
        ensures
            r == (Size { width, height }),
    {
        Size { width, height }
    }

    pub fn zero() -> (r: Size)
        ensures
            r == (Size { width: 0i64, height: 0i64 }),
    {
        Size { width: 0, height: 0 }
    }
}

/// An axis-aligned rectangle, given by two opposite corners.
#[derive(Clone, Copy, Debug, PartialEq, Eq, Structural)]
pub struct Rect {
    pub x0: i64,
    pub y0: i64,
    pub x1: i64,
    pub y1: i64,
}

impl Rect {
    pub fn new(x0: i64, y0: i64, x1: i64, y1: i64) -> (r: Rect)
        ensures
            r == (Rect { x0, y0, x1, y1 }),
    {
        Rect { x0, y0, x1, y1 }
    }

    pub open spec fn from_origin_size_spec(origin: Point, size: Size) -> Rect {
        Rect {
            x0: origin.x,
            y0: origin.y,
            x1: (origin.x + size.width) as i64,
            y1: (origin.y + size.height) as i64,
        }
    }

    pub fn from_origin_size(origin: Point, size: Size) -> (r: Rect)
        requires
            in_i64(origin.x + size.width),
            in_i64(origin.y + size.height),
        ensures
            r == Self::from_origin_size_spec(origin, size),
    {
        Rect {
            x0: origin.x,
            y0: origin.y,
            x1: origin.x + size.width,
            y1: origin.y + size.height,
        }
    }

    /// The same rectangle with its corners ordered.
    pub open spec fn abs_spec(self) -> Rect {
        Rect {
            x0: if self.x0 <= self.x1 { self.x0 } else { self.x1 },
            y0: if self.y0 <= self.y1 { self.y0 } else { self.y1 },
            x1: if self.x0 <= self.x1 { self.x1 } else { self.x0 },
            y1: if self.y0 <= self.y1 { self.y1 } else { self.y0 },
        }
    }

    pub fn abs(self) -> (r: Rect)
        ensures
            r == self.abs_spec(),
    {
        Rect {
            x0: if self.x0 <= self.x1 { self.x0 } else { self.x1 },
            y0: if self.y0 <= self.y1 { self.y0 } else { self.y1 },
            x1: if self.x0 <= self.x1 { self.x1 } else { self.x0 },
            y1: if self.y0 <= self.y1 { self.y1 } else { self.y0 },
        }
    }
}

#[derive(Clone, Copy, Debug, PartialEq, Eq, Structural)]
pub struct Circle {
    pub center: Point,
    pub radius: i64,
}

impl Circle {
    pub fn new(center: Point, radius: i64) -> (r: Circle)
        ensures
            r == (Circle { center, radius }),
    {
        Circle { center, radius }
    }
}

#[derive(Clone, Copy, Debug, PartialEq, Eq, Structural)]
pub struct Line {
    pub p0: Point,
    pub p1: Point,
}

impl Line {
    pub fn new(p0: Point, p1: Point) -> (r: Line)
        ensures
            r == (Line { p0, p1 }),
    {
        Line { p0, p1 }
    }
}

/// A rectangle with rounded corners; the radius only affects rendering,
/// not the bounding box.
#[derive(Clone, Copy, Debug, PartialEq, Eq, Structural)]
pub struct RoundedRect {
    pub rect: Rect,
    pub radius: i64,
}

/// One element of a polyline path.
#[derive(Clone, Copy, Debug, PartialEq, Eq, Structural)]
pub enum PathEl {
    MoveTo(Point),
    LineTo(Point),
    ClosePath,
}

/// A drawable shape.
#[derive(Debug, PartialEq)]
pub enum Shape {
    Rect(Rect),
    RoundedRect(RoundedRect),
    Circle(Circle),
    Line(Line),
    Path(Vec<PathEl>),
}

/// Copy of a vector of path elements.
fn copy_path(v: &Vec<PathEl>) -> (r: Vec<PathEl>)
    ensures
        r@ == v@,
{
    let mut r: Vec<PathEl> = Vec::new();
    let mut i: usize = 0;
    while i < v.len()
        invariant
            i <= v@.len(),
            r@ == v@.subrange(0, i as int),
        decreases v@.len() - i,
    {
        r.push(v[i]);
        i = i + 1;
    }
    proof {
        assert(r@ =~= v@);
    }
    r
}

impl Clone for Shape {
    fn clone(&self) -> (r: Self)
        ensures
            r@ == self@,
    {
        match self {
            Shape::Rect(x) => Shape::Rect(*x),
            Shape::RoundedRect(x) => Shape::RoundedRect(*x),
            Shape::Circle(x) => Shape::Circle(*x),
            Shape::Line(x) => Shape::Line(*x),
            Shape::Path(els) => Shape::Path(copy_path(els)),
        }
    }
}

/// Mathematical model of a shape: as `Shape`, with the path as a sequence.
pub enum ShapeModel {
    Rect(Rect),
    RoundedRect(RoundedRect),
    Circle(Circle),
    Line(Line),
    Path(Seq<PathEl>),
}

impl View for Shape {
    type V = ShapeModel;

    open spec fn view(&self) -> ShapeModel {
        match self {
            Shape::Rect(r) => ShapeModel::Rect(*r),
            Shape::RoundedRect(r) => ShapeModel::RoundedRect(*r),
            Shape::Circle(c) => ShapeModel::Circle(*c),
            Shape::Line(l) => ShapeModel::Line(*l),
            Shape::Path(els) => ShapeModel::Path(els@),
        }
    }
}

/// Grow a rectangle to cover one more point.
pub open spec fn rect_expand(r: Rect, p: Point) -> Rect {
    Rect {
        x0: if p.x < r.x0 { p.x } else { r.x0 },
        y0: if p.y < r.y0 { p.y } else { r.y0 },
        x1: if p.x > r.x1 { p.x } else { r.x1 },
        y1: if p.y > r.y1 { p.y } else { r.y1 },
    }
}

/// Bounding box of the points of a path, if it has any.
pub open spec fn path_bbox(els: Seq<PathEl>) -> Option<Rect>
    decreases els.len(),
{
    if els.len() == 0 {
        None
    } else {
        let rest = path_bbox(els.drop_last());
        match els.last() {
            PathEl::ClosePath => rest,
            PathEl::MoveTo(p) => Some(
                match rest {
                    None => Rect { x0: p.x, y0: p.y, x1: p.x, y1: p.y },
                    Some(r) => rect_expand(r, p),
                },
            ),
            PathEl::LineTo(p) => Some(
                match rest {
                    None => Rect { x0: p.x, y0: p.y, x1: p.x, y1: p.y },
                    Some(r) => rect_expand(r, p),
                },
            ),
        }
    }
}

/// Bounding box of a shape.  An empty path has the degenerate box at the
/// origin; a circle's box uses the magnitude of its radius.
pub open spec fn shape_bbox(s: ShapeModel) -> Rect {
    match s {
        ShapeModel::Rect(r) => r.abs_spec(),
        ShapeModel::RoundedRect(rr) => rr.rect.abs_spec(),
        ShapeModel::Circle(c) => {
            let r = if c.radius < 0 { -(c.radius as int) } else { c.radius as int };
            Rect {
                x0: (c.center.x - r) as i64,
                y0: (c.center.y - r) as i64,
                x1: (c.center.x + r) as i64,
                y1: (c.center.y + r) as i64,
            }
        },
        ShapeModel::Line(l) => {
            Rect {
                x0: if l.p0.x <= l.p1.x { l.p0.x } else { l.p1.x },
                y0: if l.p0.y <= l.p1.y { l.p0.y } else { l.p1.y },
                x1: if l.p0.x <= l.p1.x { l.p1.x } else { l.p0.x },
                y1: if l.p0.y <= l.p1.y { l.p1.y } else { l.p0.y },
            }
        },
        ShapeModel::Path(els) => match path_bbox(els) {
            None => Rect { x0: 0i64, y0: 0i64, x1: 0i64, y1: 0i64 },
            Some(r) => r,
        },
    }
}

/// The bounding box of a shape can be computed without overflow.
pub open spec fn shape_bbox_ok(s: ShapeModel) -> bool {
    match s {
        ShapeModel::Circle(c) => {
            let r = if c.radius < 0 { -(c.radius as int) } else { c.radius as int };
            &&& in_i64(r)
            &&& in_i64(c.center.x - r)
            &&& in_i64(c.center.y - r)
            &&& in_i64(c.center.x + r)
            &&& in_i64(c.center.y + r)
        },
        _ => true,
    }
}

impl Shape {
    pub fn bounding_box(&self) -> (out: Rect)
        requires
            shape_bbox_ok(self@),
        ensures
            out == shape_bbox(self@),
    {
        match self {
            Shape::Rect(r) => r.abs(),
            Shape::RoundedRect(rr) => rr.rect.abs(),
            Shape::Circle(c) => {
                let r = if c.radius < 0 { -c.radius } else { c.radius };
                Rect { x0: c.center.x - r, y0: c.center.y - r, x1: c.center.x + r, y1: c.center.y + r }
            },
            Shape::Line(l) => {
                Rect {
                    x0: if l.p0.x <= l.p1.x { l.p0.x } else { l.p1.x },
                    y0: if l.p0.y <= l.p1.y { l.p0.y } else { l.p1.y },
                    x1: if l.p0.x <= l.p1.x { l.p1.x } else { l.p0.x },
                    y1: if l.p0.y <= l.p1.y { l.p1.y } else { l.p0.y },
                }
            },
            Shape::Path(els) => {
                let mut acc: Option<Rect> = None;
                let mut i: usize = 0;
                while i < els.len()
                    invariant
                        i <= els@.len(),
                        acc == path_bbox(els@.subrange(0, i as int)),
                    decreases els@.len() - i,
                {
                    let prev = acc;
                    match els[i] {
                        PathEl::ClosePath => {},
                        PathEl::MoveTo(p) => {
                            acc = Some(
                                match prev {
                                    None => Rect { x0: p.x, y0: p.y, x1: p.x, y1: p.y },
                                    Some(r) => Rect {
                                        x0: if p.x < r.x0 { p.x } else { r.x0 },
                                        y0: if p.y < r.y0 { p.y } else { r.y0 },
                                        x1: if p.x > r.x1 { p.x } else { r.x1 },
                                        y1: if p.y > r.y1 { p.y } else { r.y1 },
                                    },
                                },
                            );
                        },
                        PathEl::LineTo(p) => {
                            acc = Some(
                                match prev {
                                    None => Rect { x0: p.x, y0: p.y, x1: p.x, y1: p.y },
                                    Some(r) => Rect {
                                        x0: if p.x < r.x0 { p.x } else { r.x0 },
                                        y0: if p.y < r.y0 { p.y } else { r.y0 },
                                        x1: if p.x > r.x1 { p.x } else { r.x1 },
                                        y1: if p.y > r.y1 { p.y } else { r.y1 },
                                    },
                                },
                            );
                        },
                    }
                    proof {
                        assert(els@.subrange(0, i + 1 as int).drop_last() =~= els@.subrange(
                            0,
                            i as int,
                        ));
                        assert(els@.subrange(0, i + 1 as int).last() == els@[i as int]);
                    }
                    i = i + 1;
                }
                proof {
                    assert(els@.subrange(0, els@.len() as int) =~= els@);
                }
                match acc {
                    None => Rect { x0: 0, y0: 0, x1: 0, y1: 0 },
                    Some(r) => r,
                }
            },
        }
    }
}

/// An axis-aligned affine transform: `(x, y)` maps to
/// `(sx * x + tx, sy * y + ty)`.
#[derive(Clone, Copy, Debug, PartialEq, Eq, Structural)]
pub struct Affine {
    pub sx: i64,
    pub sy: i64,
    pub tx: i64,
    pub ty: i64,
}

impl Affine {
    pub open spec fn identity_spec() -> Affine {
        Affine { sx: 1i64, sy: 1i64, tx: 0i64, ty: 0i64 }
    }

    pub fn identity() -> (r: Affine)
        ensures
            r == Self::identity_spec(),
    {
        Affine { sx: 1, sy: 1, tx: 0, ty: 0 }
    }

    pub open spec fn translate_spec(v: Vec2) -> Affine {
        Affine { sx: 1i64, sy: 1i64, tx: v.x, ty: v.y }
    }

    pub fn translate(v: Vec2) -> (r: Affine)
        ensures
            r == Self::translate_spec(v),
    {
        Affine { sx: 1, sy: 1, tx: v.x, ty: v.y }
    }

    pub open spec fn scale_non_uniform_spec(sx: i64, sy: i64) -> Affine {
        Affine { sx, sy, tx: 0i64, ty: 0i64 }
    }

    pub fn scale_non_uniform(sx: i64, sy: i64) -> (r: Affine)
        ensures
            r == Self::scale_non_uniform_spec(sx, sy),
    {
        Affine { sx, sy, tx: 0, ty: 0 }
    }

    /// Where the transform sends a point, over unbounded integers.
    pub open spec fn apply_x(self, x: int) -> int {
        self.sx * x + self.tx
    }

    pub open spec fn apply_y(self, y: int) -> int {
        self.sy * y + self.ty
    }

    /// This transform followed by a translation: points are first mapped
    /// by `self`, then moved by `v`.  This is how a widget's offset is
    /// folded into its parent's transform: the offset acts in the
    /// parent's already-transformed space.
    pub open spec fn then_translate_spec(self, v: Vec2) -> Affine {
        Affine { sx: self.sx, sy: self.sy, tx: (self.tx + v.x) as i64, ty: (self.ty + v.y) as i64 }
    }

    pub open spec fn then_translate_ok(self, v: Vec2) -> bool {
        &&& in_i64(self.tx + v.x)
        &&& in_i64(self.ty + v.y)
    }

    pub fn then_translate(self, v: Vec2) -> (r: Affine)
        requires
            self.then_translate_ok(v),
        ensures
            r == self.then_translate_spec(v),
    {
        Affine { sx: self.sx, sy: self.sy, tx: self.tx + v.x, ty: self.ty + v.y }
    }

    /// Composition `self ∘ inner`: points are mapped by `inner` first,
    /// then by `self`.  Matrix composition is associative but not
    /// commutative; the paint pipeline fixes the order exactly.
    pub open spec fn compose_spec(self, inner: Affine) -> Affine {
        Affine {
            sx: (self.sx * inner.sx) as i64,
            sy: (self.sy * inner.sy) as i64,
            tx: (self.sx * inner.tx + self.tx) as i64,
            ty: (self.sy * inner.ty + self.ty) as i64,
        }
    }

    pub open spec fn compose_ok(self, inner: Affine) -> bool {
        &&& in_i64(self.sx * inner.sx)
        &&& in_i64(self.sy * inner.sy)
        &&& in_i64(self.sx * inner.tx)
        &&& in_i64(self.sy * inner.ty)
        &&& in_i64(self.sx * inner.tx + self.tx)
        &&& in_i64(self.sy * inner.ty + self.ty)
    }

    pub fn compose(self, inner: Affine) -> (r: Affine)
        requires
            self.compose_ok(inner),
        ensures
            r == self.compose_spec(inner),
    {
        Affine {
            sx: self.sx * inner.sx,
            sy: self.sy * inner.sy,
            tx: self.sx * inner.tx + self.tx,
            ty: self.sy * inner.ty + self.ty,
        }
    }

    /// Axis-aligned bounding box of the transformed rectangle: each axis
    /// maps both corner coordinates and orders the results, so a negative
    /// scale still yields a well-ordered rectangle.
    pub open spec fn transform_rect_bbox_spec(self, r: Rect) -> Rect {
        let a = self.apply_x(r.x0 as int);
        let b = self.apply_x(r.x1 as int);
        let c = self.apply_y(r.y0 as int);
        let d = self.apply_y(r.y1 as int);
        Rect {
            x0: (if a <= b { a } else { b }) as i64,
            y0: (if c <= d { c } else { d }) as i64,
            x1: (if a <= b { b } else { a }) as i64,
            y1: (if c <= d { d } else { c }) as i64,
        }
    }

    pub open spec fn transform_rect_bbox_ok(self, r: Rect) -> bool {
        &&& in_i64(self.apply_x(r.x0 as int))
        &&& in_i64(self.apply_x(r.x1 as int))
        &&& in_i64(self.apply_y(r.y0 as int))
        &&& in_i64(self.apply_y(r.y1 as int))
        &&& in_i64(self.sx * r.x0)
        &&& in_i64(self.sx * r.x1)
        &&& in_i64(self.sy * r.y0)
        &&& in_i64(self.sy * r.y1)
    }

    pub fn transform_rect_bbox(self, r: Rect) -> (out: Rect)
        requires
            self.transform_rect_bbox_ok(r),
        ensures
            out == self.transform_rect_bbox_spec(r),
    {
        let a = self.sx * r.x0 + self.tx;
        let b = self.sx * r.x1 + self.tx;
        let c = self.sy * r.y0 + self.ty;
        let d = self.sy * r.y1 + self.ty;
        Rect {
            x0: if a <= b { a } else { b },
            y0: if c <= d { c } else { d },
            x1: if a <= b { b } else { a },
            y1: if c <= d { d } else { c },
        }
    }
}

/// Composing with the identity on either side leaves a transform unchanged.
pub proof fn lemma_compose_identity(t: Affine)
    ensures
        Affine::identity_spec().compose_spec(t) == t,
        t.compose_spec(Affine::identity_spec()) == t,
{
}

/// Composition is associative wherever the intermediate values fit.
pub proof fn lemma_compose_assoc(a: Affine, b: Affine, c: Affine)
    requires
        a.compose_ok(b),
        a.compose_spec(b).compose_ok(c),
        b.compose_ok(c),
        a.compose_ok(b.compose_spec(c)),
    ensures
        a.compose_spec(b).compose_spec(c) == a.compose_spec(b.compose_spec(c)),
{
    assert(a.compose_spec(b).compose_spec(c).sx == a.compose_spec(b.compose_spec(c)).sx) by (nonlinear_arith)
        requires
            a.compose_ok(b),
            a.compose_spec(b).compose_ok(c),
            b.compose_ok(c),
            a.compose_ok(b.compose_spec(c)),
    ;
    assert(a.compose_spec(b).compose_spec(c).sy == a.compose_spec(b.compose_spec(c)).sy) by (nonlinear_arith)
        requires
            a.compose_ok(b),
            a.compose_spec(b).compose_ok(c),
            b.compose_ok(c),
            a.compose_ok(b.compose_spec(c)),
    ;
    assert(a.compose_spec(b).compose_spec(c).tx == a.compose_spec(b.compose_spec(c)).tx) by (nonlinear_arith)
        requires
            a.compose_ok(b),
            a.compose_spec(b).compose_ok(c),
            b.compose_ok(c),
            a.compose_ok(b.compose_spec(c)),
    ;
    assert(a.compose_spec(b).compose_spec(c).ty == a.compose_spec(b.compose_spec(c)).ty) by (nonlinear_arith)
        requires
            a.compose_ok(b),
            a.compose_spec(b).compose_ok(c),
            b.compose_ok(c),
            a.compose_ok(b.compose_spec(c)),
    ;
}

/// Folding an offset into a transform equals composing a translation
/// after it.
pub proof fn lemma_then_translate_is_compose(t: Affine, v: Vec2)
    requires
        t.then_translate_ok(v),
    ensures
        t.then_translate_spec(v) == Affine::translate_spec(v).compose_spec(t),
{
    let c = Affine::translate_spec(v).compose_spec(t);
    assert(1 * t.sx == t.sx);
    assert(1 * t.sy == t.sy);
    assert(1 * t.tx == t.tx);
    assert(1 * t.ty == t.ty);
    assert(c.sx == t.sx);
    assert(c.sy == t.sy);
    assert(c.tx == t.then_translate_spec(v).tx);
    assert(c.ty == t.then_translate_spec(v).ty);
}

} // verus!
