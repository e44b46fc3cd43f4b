//! The widget tree and the paint pipeline.
//!
//! The widget set is closed: container, scroll viewport, canvas.  Painting
//! is an exhaustive dispatch, so the transform/clip propagation discipline
//! can be stated once, as a recursive specification over the tree, and
//! proved by case analysis.

use vstd::prelude::*;
use crate::canvas::{ops_balanced, ops_commands, ops_fit, Canvas, CanvasOp, CanvasOpModel};
use crate::container::Container;
use crate::draw::{BlendMode, BrushModel, Color, FillRule, StrokeStyle};
use crate::geom::{Affine, Rect, ShapeModel, Size, Vec2};
use crate::scene::{CommandModel, SceneBuf};
use crate::scroll::ScrollView;
use crate::{EntityId, PaintCtx};
use smallvec::SmallVec;

verus! {

/// A runtime paintable node.  The variant set is closed; each node owns
/// its children outright and the whole tree lives for a single paint call.
pub enum Widget {
    Container(Container),
    ScrollView(ScrollView),
    Canvas(Canvas),
}

/// Mathematical model of a widget tree.
pub enum WidgetModel {
    Container {
        child: Option<Box<WidgetModel>>,
        background: Option<Color>,
        border: Option<(Color, i64)>,
        offset: Vec2,
        size: Option<Size>,
    },
    ScrollView { offset: Vec2, size: Vec2, child: Option<Box<WidgetModel>> },
    Canvas { size: Size, ops: Seq<CanvasOpModel>, scene: Seq<CommandModel> },
}

pub open spec fn widget_model(w: Widget) -> WidgetModel
    decreases w,
{
    match w {
        Widget::Container(c) => container_model(c),
        Widget::ScrollView(s) => scroll_model(s),
        Widget::Canvas(c) => canvas_model(c),
    }
}

pub open spec fn container_model(c: Container) -> WidgetModel
    decreases c,
{
    WidgetModel::Container {
        child: match c.child {
            Option::None => None,
            Option::Some(b) => Some(Box::new(widget_model(*b))),
        },
        background: c.background,
        border: c.border,
        offset: c.offset,
        size: c.size,
    }
}

pub open spec fn scroll_model(s: ScrollView) -> WidgetModel
    decreases s,
{
    WidgetModel::ScrollView {
        offset: s.offset,
        size: s.size,
        child: match s.child {
            Option::None => None,
            Option::Some(b) => Some(Box::new(widget_model(*b))),
        },
    }
}

pub open spec fn canvas_model(c: Canvas) -> WidgetModel {
    WidgetModel::Canvas {
        size: c.size,
        ops: c.ops@.map(|i: int, op: CanvasOp| op@),
        scene: c.scene@,
    }
}

impl View for Widget {
    type V = WidgetModel;

    open spec fn view(&self) -> WidgetModel {
        widget_model(*self)
    }
}

impl View for Container {
    type V = WidgetModel;

    open spec fn view(&self) -> WidgetModel {
        container_model(*self)
    }
}

impl View for ScrollView {
    type V = WidgetModel;

    open spec fn view(&self) -> WidgetModel {
        scroll_model(*self)
    }
}

impl View for Canvas {
    type V = WidgetModel;

    open spec fn view(&self) -> WidgetModel {
        canvas_model(*self)
    }
}

/// The commands a container itself emits: with a size, an optional
/// background fill then an optional border stroke of `rect(0, 0, size)`
/// at the offset transform; with no size, an optional fill of the whole
/// incoming clip at the identity (the whole-window background case).
pub open spec fn container_cmds(
    background: Option<Color>,
    border: Option<(Color, i64)>,
    size: Option<Size>,
    t: Affine,
    clip: Rect,
) -> Seq<CommandModel> {
    match size {
        Option::Some(size) => {
            let rect = ShapeModel::Rect(
                Rect { x0: 0i64, y0: 0i64, x1: size.width, y1: size.height },
            );
            let bg = match background {
                Option::None => Seq::<CommandModel>::empty(),
                Option::Some(color) => seq![
                    CommandModel::Fill {
                        rule: FillRule::NonZero,
                        transform: t,
                        brush: BrushModel::Solid(color),
                        shape: rect,
                    },
                ],
            };
            let bd = match border {
                Option::None => Seq::<CommandModel>::empty(),
                Option::Some((color, width)) => seq![
                    CommandModel::Stroke {
                        style: StrokeStyle { width },
                        transform: t,
                        brush: BrushModel::Solid(color),
                        shape: rect,
                    },
                ],
            };
            bg + bd
        },
        Option::None => match background {
            Option::None => Seq::<CommandModel>::empty(),
            Option::Some(color) => seq![
                CommandModel::Fill {
                    rule: FillRule::NonZero,
                    transform: Affine::identity_spec(),
                    brush: BrushModel::Solid(color),
                    shape: ShapeModel::Rect(clip),
                },
            ],
        },
    }
}

/// The commands painting a widget emits under a paint context.
///
/// A container folds its offset into the transform, emits its own fill
/// and border, and descends into its child with the composed transform
/// and the unchanged clip.  A scroll viewport opens a layer clipped to
/// its transformed viewport, descends with the scroll offset subtracted,
/// and closes the layer.  A canvas opens a layer clipped to its
/// transformed bounds, replays its recorded operations, and closes the
/// layer.  Clips handed to children are not intersected with the incoming
/// clip: each widget pushes its own rectangle independently.
pub open spec fn paint_spec(w: WidgetModel, ctx: PaintCtx) -> Seq<CommandModel>
    decreases w,
{
    match w {
        WidgetModel::Container { child, background, border, offset, size } => {
            let t2 = ctx.transform.then_translate_spec(offset);
            let own = container_cmds(background, border, size, t2, ctx.clip);
            let below = match child {
                Option::None => Seq::<CommandModel>::empty(),
                Option::Some(b) => paint_spec(*b, PaintCtx { transform: t2, clip: ctx.clip }),
            };
            own + below
        },
        WidgetModel::ScrollView { offset, size, child } => {
            let viewport = Rect { x0: 0i64, y0: 0i64, x1: size.x, y1: size.y };
            let global_clip = ctx.transform.transform_rect_bbox_spec(viewport);
            let t2 = ctx.transform.then_translate_spec(offset.neg_spec());
            let inner = match child {
                Option::None => Seq::<CommandModel>::empty(),
                Option::Some(b) => paint_spec(
                    *b,
                    PaintCtx { transform: t2, clip: global_clip },
                ),
            };
            seq![
                CommandModel::PushLayer {
                    blend: BlendMode::Normal,
                    alpha: 255u8,
                    transform: Affine::identity_spec(),
                    clip: ShapeModel::Rect(global_clip),
                },
            ] + inner + seq![CommandModel::PopLayer]
        },
        WidgetModel::Canvas { size, ops, scene } => {
            let bounds = Rect { x0: 0i64, y0: 0i64, x1: size.width, y1: size.height };
            let global_clip = ctx.transform.transform_rect_bbox_spec(bounds);
            seq![
                CommandModel::PushLayer {
                    blend: BlendMode::Normal,
                    alpha: 255u8,
                    transform: Affine::identity_spec(),
                    clip: ShapeModel::Rect(global_clip),
                },
            ] + ops_commands(ops, ctx.transform) + seq![CommandModel::PopLayer]
        },
    }
}

/// All arithmetic a paint of `w` under `ctx` performs stays in machine
/// range.
pub open spec fn paint_fits(w: WidgetModel, ctx: PaintCtx) -> bool
    decreases w,
{
    match w {
        WidgetModel::Container { child, offset, .. } => {
            &&& ctx.transform.then_translate_ok(offset)
            &&& match child {
                Option::None => true,
                Option::Some(b) => paint_fits(
                    *b,
                    PaintCtx {
                        transform: ctx.transform.then_translate_spec(offset),
                        clip: ctx.clip,
                    },
                ),
            }
        },
        WidgetModel::ScrollView { offset, size, child } => {
            let viewport = Rect { x0: 0i64, y0: 0i64, x1: size.x, y1: size.y };
            let global_clip = ctx.transform.transform_rect_bbox_spec(viewport);
            &&& ctx.transform.transform_rect_bbox_ok(viewport)
            &&& offset.neg_ok()
            &&& ctx.transform.then_translate_ok(offset.neg_spec())
            &&& match child {
                Option::None => true,
                Option::Some(b) => paint_fits(
                    *b,
                    PaintCtx {
                        transform: ctx.transform.then_translate_spec(offset.neg_spec()),
                        clip: global_clip,
                    },
                ),
            }
        },
        WidgetModel::Canvas { size, ops, .. } => {
            let bounds = Rect { x0: 0i64, y0: 0i64, x1: size.width, y1: size.height };
            &&& ctx.transform.transform_rect_bbox_ok(bounds)
            &&& ops_fit(ops, ctx.transform)
        },
    }
}

/// Structural well-formedness of a widget tree: canvas content keeps its
/// layers balanced.
pub open spec fn widget_wf(w: WidgetModel) -> bool
    decreases w,
{
    match w {
        WidgetModel::Container { child, .. } => match child {
            Option::None => true,
            Option::Some(b) => widget_wf(*b),
        },
        WidgetModel::ScrollView { child, .. } => match child {
            Option::None => true,
            Option::Some(b) => widget_wf(*b),
        },
        WidgetModel::Canvas { ops, .. } => ops_balanced(ops),
    }
}

/// The identifiers of a widget's children, kept in a small inline vector.
#[verifier::external_body]
pub struct ChildIds {
    inner: SmallVec<[EntityId; 4]>,
}

/// What a child-identifier list holds, in order.
pub uninterp spec fn child_ids_items(v: ChildIds) -> Seq<EntityId>;

impl ChildIds {
    /// Relies on smallvec::SmallVec::new: it constructs the empty vector.
    #[verifier::external_body]
    pub fn new() -> (r: ChildIds)
        ensures
            child_ids_items(r) == Seq::<EntityId>::empty(),
    {
        ChildIds { inner: SmallVec::new() }
    }

    /// Relies on smallvec::SmallVec::len: how many items are held.
    #[verifier::external_body]
    pub fn len(&self) -> (n: usize)
        ensures
            n == child_ids_items(*self).len(),
    {
        self.inner.len()
    }
}

impl Widget {
    /// Paint this widget: emit its drawing commands, in order, after
    /// whatever the scene already holds.
    pub fn paint(&self, ctx: &PaintCtx, scene: &mut SceneBuf)
        requires
            paint_fits(self@, *ctx),
            widget_wf(self@),
        ensures
            final(scene)@ == old(scene)@ + paint_spec(self@, *ctx),
        decreases *self,
    {
        match self {
            Widget::Container(c) => c.paint(ctx, scene),
            Widget::ScrollView(s) => s.paint(ctx, scene),
            Widget::Canvas(c) => c.paint(ctx, scene),
        }
    }

    /// Widget identifiers of the children, for external bookkeeping; the
    /// built-in widgets track none.
    pub fn children(&self) -> (r: ChildIds)
        ensures
            child_ids_items(r) == Seq::<EntityId>::empty(),
    {
        match self {
            Widget::Container(c) => c.children(),
            Widget::ScrollView(s) => s.children(),
            Widget::Canvas(c) => c.children(),
        }
    }
}

} // verus!
