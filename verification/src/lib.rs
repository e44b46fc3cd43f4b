//! A declarative 2D scene-composition core.
//!
//! Application code describes a widget tree each frame; the library turns
//! that description into an ordered list of drawing commands for a
//! GPU-backed compositor.  Geometry is carried in integer logical units so
//! that the composition algebra (how transforms and clip rectangles combine
//! across nested widgets) can be stated and proved exactly.

pub mod canvas;
pub mod container;
pub mod draw;
pub mod element;
pub mod elements;
pub mod geom;
pub mod overlay;
pub mod platform;
pub mod scene;
pub mod scroll;
pub mod stats;
pub mod text;
pub mod widget;

pub use canvas::{canvas, Canvas, CanvasElement, CanvasOp, DrawContext};
pub use container::Container;
pub use element::{Element, IntoElement};
pub use elements::{div, Div};
pub use scroll::{scroll_view, ScrollView, ScrollViewElement};
pub use widget::Widget;

use vstd::prelude::*;
use crate::geom::Affine;
use crate::geom::Rect;
use crate::geom::Size;
use crate::scene::SceneBuf;

verus! {

/// Identifier a widget may report for external bookkeeping.
pub type EntityId = u64;

pub struct EventCtx;

pub struct LayoutCtx;

/// Per-paint propagated state: the cumulative device-space transform and
/// the intended visible bounds.  Constructed fresh at the root of each
/// paint call and derived, never mutated in place, as painting descends.
#[derive(Clone, Copy, Debug, PartialEq, Eq, Structural)]
pub struct PaintCtx {
    pub transform: Affine,
    pub clip: Rect,
}

impl PaintCtx {
    /// Paint a child widget under this context.
    pub fn paint_child(&self, child: &Widget, scene: &mut SceneBuf)
        requires
            widget::paint_fits(child@, *self),
            widget::widget_wf(child@),
        ensures
            final(scene)@ == old(scene)@ + widget::paint_spec(child@, *self),
    {
        child.paint(self, scene);
    }

    /// Visibility culling is not performed: every widget is painted.
    pub fn is_visible(&self, _rect: &Rect) -> (r: bool)
        ensures
            r == true,
    {
        true
    }
}

/// The paint context painting starts from: the identity transform and a
/// clip equal to the viewport.
pub open spec fn root_ctx(viewport_width: i64, viewport_height: i64) -> PaintCtx {
    PaintCtx {
        transform: Affine::identity_spec(),
        clip: Rect { x0: 0i64, y0: 0i64, x1: viewport_width, y1: viewport_height },
    }
}

/// Paint one frame: build the widget tree the root plan describes, then
/// paint it with an identity transform and a clip equal to the viewport.
/// Re-invocable every frame; nothing carries over between calls.
pub fn paint(root: Element, viewport_width: i64, viewport_height: i64) -> (scene: SceneBuf)
    requires
        widget::paint_fits(element::build_spec(root), root_ctx(viewport_width, viewport_height)),
        widget::widget_wf(element::build_spec(root)),
    ensures
        scene@ == widget::paint_spec(
            element::build_spec(root),
            root_ctx(viewport_width, viewport_height),
        ),
{
    let root_widget = root.build();
    let mut scene = SceneBuf::new();
    let ctx = PaintCtx {
        transform: Affine::identity(),
        clip: Rect::new(0, 0, viewport_width, viewport_height),
    };
    root_widget.paint(&ctx, &mut scene);
    scene
}

/// Input events; only a redraw request exists, and none are routed yet.
pub enum Event {
    RedrawRequested,
}

/// Bounds a layout pass would negotiate within; layout is caller-driven.
pub struct BoxConstraints {
    pub min: Size,
    pub max: Size,
}

} // verus!
