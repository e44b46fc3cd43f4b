//! The canvas widget: arbitrary drawing inside a clipped region.
//!
//! Canvas content is a recorded list of drawing operations.  Painting a
//! canvas opens a layer clipped to the canvas bounds (transformed into
//! device space), replays every operation under the incoming transform,
//! and closes the layer, so everything the content draws is restricted to
//! the canvas's box.

use vstd::prelude::*;
use crate::draw::{BlendMode, Brush, BrushModel, FillRule, Image, ImageModel, StrokeStyle};
use crate::geom::{shape_bbox, shape_bbox_ok, Affine, Point, Rect, Shape, ShapeModel, Size};
use crate::scene::{
    cmds_balanced, cmds_depth, cmds_retransform, cmds_retransform_fit, CommandModel, SceneBuf,
};
use crate::widget::{paint_fits, paint_spec, widget_wf, Widget, WidgetModel};
use crate::PaintCtx;
use crate::EntityId;


verus! {

/// One recorded canvas drawing operation.  Replaying an operation under a
/// placement transform yields ordinary drawing commands.
#[derive(Debug, PartialEq)]
pub enum CanvasOp {
    /// Fill a shape with a brush.
    Fill { rule: FillRule, brush: Brush, shape: Shape },
    /// Stroke the outline of a shape.
    Stroke { style: StrokeStyle, brush: Brush, shape: Shape },
    /// Open a blended layer; `transform` is composed under the canvas
    /// placement.
    PushLayer { blend: BlendMode, alpha: u8, transform: Affine, shape: Shape },
    /// Close the most recently opened layer.
    PopLayer,
    /// Draw an image; `transform` is composed under the canvas placement.
    DrawImage { image: Image, transform: Affine },
    /// Open a clip layer bounded by the shape's transformed bounding box.
    PushClipLayer { shape: Shape },
    /// Replay a previously recorded scene; `transform` is composed under
    /// the canvas placement.
    Append { scene: SceneBuf, transform: Affine },
}

/// Mathematical model of a canvas operation.
pub enum CanvasOpModel {
    Fill { rule: FillRule, brush: BrushModel, shape: ShapeModel },
    Stroke { style: StrokeStyle, brush: BrushModel, shape: ShapeModel },
    PushLayer { blend: BlendMode, alpha: u8, transform: Affine, shape: ShapeModel },
    PopLayer,
    DrawImage { image: ImageModel, transform: Affine },
    PushClipLayer { shape: ShapeModel },
    Append { scene: Seq<CommandModel>, transform: Affine },
}

impl View for CanvasOp {
    type V = CanvasOpModel;

    open spec fn view(&self) -> CanvasOpModel {
        match self {
            CanvasOp::Fill { rule, brush, shape } => CanvasOpModel::Fill {
                rule: *rule,
                brush: brush@,
                shape: shape@,
            },
            CanvasOp::Stroke { style, brush, shape } => CanvasOpModel::Stroke {
                style: *style,
                brush: brush@,
                shape: shape@,
            },
            CanvasOp::PushLayer { blend, alpha, transform, shape } => CanvasOpModel::PushLayer {
                blend: *blend,
                alpha: *alpha,
                transform: *transform,
                shape: shape@,
            },
            CanvasOp::PopLayer => CanvasOpModel::PopLayer,
            CanvasOp::DrawImage { image, transform } => CanvasOpModel::DrawImage {
                image: image@,
                transform: *transform,
            },
            CanvasOp::PushClipLayer { shape } => CanvasOpModel::PushClipLayer { shape: shape@ },
            CanvasOp::Append { scene, transform } => CanvasOpModel::Append {
                scene: scene@,
                transform: *transform,
            },
        }
    }
}

/// The commands one operation contributes when replayed under the
/// placement transform `t`.
pub open spec fn op_commands(op: CanvasOpModel, t: Affine) -> Seq<CommandModel> {
    match op {
        CanvasOpModel::Fill { rule, brush, shape } => seq![
            CommandModel::Fill { rule, transform: t, brush, shape },
        ],
        CanvasOpModel::Stroke { style, brush, shape } => seq![
            CommandModel::Stroke { style, transform: t, brush, shape },
        ],
        CanvasOpModel::PushLayer { blend, alpha, transform, shape } => seq![
            CommandModel::PushLayer {
                blend,
                alpha,
                transform: t.compose_spec(transform),
                clip: shape,
            },
        ],
        CanvasOpModel::PopLayer => seq![CommandModel::PopLayer],
        CanvasOpModel::DrawImage { image, transform } => seq![
            CommandModel::DrawImage { image, transform: t.compose_spec(transform) },
        ],
        CanvasOpModel::PushClipLayer { shape } => seq![
            CommandModel::PushLayer {
                blend: BlendMode::Clip,
                alpha: 255u8,
                transform: Affine::identity_spec(),
                clip: ShapeModel::Rect(t.transform_rect_bbox_spec(shape_bbox(shape))),
            },
        ],
        CanvasOpModel::Append { scene, transform } => cmds_retransform(
            scene,
            t.compose_spec(transform),
        ),
    }
}

/// The operation's arithmetic stays in machine range under `t`.
pub open spec fn op_fits(op: CanvasOpModel, t: Affine) -> bool {
    match op {
        CanvasOpModel::PushLayer { transform, .. } => t.compose_ok(transform),
        CanvasOpModel::DrawImage { transform, .. } => t.compose_ok(transform),
        CanvasOpModel::PushClipLayer { shape } => {
            &&& shape_bbox_ok(shape)
            &&& t.transform_rect_bbox_ok(shape_bbox(shape))
        },
        CanvasOpModel::Append { scene, transform } => {
            &&& t.compose_ok(transform)
            &&& cmds_retransform_fit(scene, t.compose_spec(transform))
        },
        _ => true,
    }
}

/// The commands a whole operation list contributes, in order.
pub open spec fn ops_commands(ops: Seq<CanvasOpModel>, t: Affine) -> Seq<CommandModel>
    decreases ops.len(),
{
    if ops.len() == 0 {
        Seq::<CommandModel>::empty()
    } else {
        ops_commands(ops.drop_last(), t) + op_commands(ops.last(), t)
    }
}

pub open spec fn ops_fit(ops: Seq<CanvasOpModel>, t: Affine) -> bool {
    forall|i: int| 0 <= i < ops.len() ==> op_fits(#[trigger] ops[i], t)
}

/// Layer depth contribution of one operation.
pub open spec fn op_depth_delta(op: CanvasOpModel) -> int {
    match op {
        CanvasOpModel::PushLayer { .. } => 1,
        CanvasOpModel::PushClipLayer { .. } => 1,
        CanvasOpModel::PopLayer => -1,
        CanvasOpModel::Append { scene, .. } => cmds_depth(scene),
        _ => 0,
    }
}

pub open spec fn ops_depth(ops: Seq<CanvasOpModel>) -> int
    decreases ops.len(),
{
    if ops.len() == 0 {
        0
    } else {
        ops_depth(ops.drop_last()) + op_depth_delta(ops.last())
    }
}

/// Canvas content must balance its layers: no prefix closes more layers
/// than it opened, the whole list closes every layer it opens, and any
/// appended scene is itself balanced.  Unbalanced content would corrupt
/// the compositor's layer stack, so it is ruled out by contract.
pub open spec fn ops_balanced(ops: Seq<CanvasOpModel>) -> bool {
    &&& ops_depth(ops) == 0
    &&& forall|i: int| 0 <= i <= ops.len() ==> ops_depth(#[trigger] ops.subrange(0, i)) >= 0
    &&& forall|i: int| 0 <= i < ops.len() ==> match #[trigger] ops[i] {
        CanvasOpModel::Append { scene, .. } => cmds_balanced(scene),
        _ => true,
    }
}

/// One operation contributes exactly its layer-depth delta to the emitted
/// commands, whatever the placement transform.
pub proof fn lemma_op_commands_depth(op: CanvasOpModel, t: Affine)
    ensures
        cmds_depth(op_commands(op, t)) == op_depth_delta(op),
{
    match op {
        CanvasOpModel::Append { scene, transform } => {
            crate::scene::lemma_cmds_retransform_depth(scene, t.compose_spec(transform));
        },
        _ => {
            let cmds = op_commands(op, t);
            assert(cmds.len() == 1);
            assert(cmds.drop_last() =~= Seq::<CommandModel>::empty());
            assert(cmds_depth(Seq::<CommandModel>::empty()) == 0);
            assert(cmds_depth(cmds) == crate::scene::cmd_depth_delta(cmds.last()));
            assert(cmds.last() == cmds[0]);
        },
    }
}

/// Replaying an operation list leaves the layer depth the list itself
/// prescribes.
pub proof fn lemma_ops_commands_depth(ops: Seq<CanvasOpModel>, t: Affine)
    ensures
        cmds_depth(ops_commands(ops, t)) == ops_depth(ops),
    decreases ops.len(),
{
    if ops.len() > 0 {
        lemma_ops_commands_depth(ops.drop_last(), t);
        lemma_op_commands_depth(ops.last(), t);
        crate::scene::lemma_cmds_depth_concat(
            ops_commands(ops.drop_last(), t),
            op_commands(ops.last(), t),
        );
    }
}

/// When no prefix of the operation list closes more layers than it opened,
/// and every appended scene is balanced, the same holds of every prefix of
/// the emitted commands.
pub proof fn lemma_ops_commands_prefix_nonneg(ops: Seq<CanvasOpModel>, t: Affine)
    requires
        forall|i: int| 0 <= i <= ops.len() ==> ops_depth(#[trigger] ops.subrange(0, i)) >= 0,
        forall|i: int| 0 <= i < ops.len() ==> match #[trigger] ops[i] {
            CanvasOpModel::Append { scene, .. } => cmds_balanced(scene),
            _ => true,
        },
    ensures
        forall|k: int| 0 <= k <= ops_commands(ops, t).len() ==> cmds_depth(
            #[trigger] ops_commands(ops, t).subrange(0, k),
        ) >= 0,
    decreases ops.len(),
{
    if ops.len() == 0 {
        assert forall|k: int| 0 <= k <= ops_commands(ops, t).len() implies cmds_depth(
            ops_commands(ops, t).subrange(0, k),
        ) >= 0 by {
            assert(ops_commands(ops, t).subrange(0, k) =~= Seq::<CommandModel>::empty());
        }
    } else {
        let ops2 = ops.drop_last();
        let last = ops.last();
        let head = ops_commands(ops2, t);
        let tail = op_commands(last, t);
        assert forall|i: int| 0 <= i <= ops2.len() implies ops_depth(
            #[trigger] ops2.subrange(0, i),
        ) >= 0 by {
            assert(ops2.subrange(0, i) =~= ops.subrange(0, i));
        }
        assert forall|i: int| 0 <= i < ops2.len() implies (match #[trigger] ops2[i] {
            CanvasOpModel::Append { scene, .. } => cmds_balanced(scene),
            _ => true,
        }) by {
            assert(ops2[i] == ops[i]);
        }
        lemma_ops_commands_prefix_nonneg(ops2, t);
        lemma_ops_commands_depth(ops2, t);
        lemma_op_commands_depth(last, t);
        assert(ops_depth(ops2) >= 0) by {
            assert(ops.subrange(0, ops.len() - 1) =~= ops2);
        }
        assert(ops_depth(ops) >= 0) by {
            assert(ops.subrange(0, ops.len() as int) =~= ops);
        }
        assert(ops_depth(ops) == ops_depth(ops2) + op_depth_delta(last));
        assert forall|k: int| 0 <= k <= ops_commands(ops, t).len() implies cmds_depth(
            ops_commands(ops, t).subrange(0, k),
        ) >= 0 by {
            if k <= head.len() {
                assert(ops_commands(ops, t).subrange(0, k) =~= head.subrange(0, k));
            } else {
                let k2 = k - head.len();
                assert(ops_commands(ops, t).subrange(0, k) =~= head + tail.subrange(0, k2));
                crate::scene::lemma_cmds_depth_concat(head, tail.subrange(0, k2));
                match last {
                    CanvasOpModel::Append { scene, transform } => {
                        let t2 = t.compose_spec(transform);
                        assert(ops[ops.len() - 1] == last);
                        assert(cmds_balanced(scene));
                        crate::scene::lemma_cmds_retransform_prefix(scene, t2, k2);
                        crate::scene::lemma_cmds_retransform_depth(scene.subrange(0, k2), t2);
                        assert(cmds_depth(scene.subrange(0, k2)) >= 0);
                    },
                    _ => {
                        assert(tail.len() == 1);
                        assert(k2 == 1);
                        assert(tail.subrange(0, k2) =~= tail);
                        if last is PopLayer {
                            assert(cmds_depth(head) + cmds_depth(tail) == ops_depth(ops));
                        }
                    },
                }
            }
        }
    }
}

/// Painting a canvas brackets everything its content draws between one
/// push of a layer clipped to the canvas's transformed bounds and the
/// matching pop.  The content's own commands are layer-balanced, so no
/// command between the pair escapes that layer: the compositor restricts
/// every draw the content issues to the canvas's box.
pub proof fn lemma_canvas_clip(
    size: Size,
    ops: Seq<CanvasOpModel>,
    recorded: Seq<CommandModel>,
    ctx: PaintCtx,
)
    requires
        ops_balanced(ops),
    ensures
        ({
            let cmds = paint_spec(WidgetModel::Canvas { size, ops, scene: recorded }, ctx);
            let bounds = Rect { x0: 0i64, y0: 0i64, x1: size.width, y1: size.height };
            let clip = ctx.transform.transform_rect_bbox_spec(bounds);
            let inner = ops_commands(ops, ctx.transform);
            &&& cmds == seq![
                CommandModel::PushLayer {
                    blend: BlendMode::Normal,
                    alpha: 255u8,
                    transform: Affine::identity_spec(),
                    clip: ShapeModel::Rect(clip),
                },
            ] + inner + seq![CommandModel::PopLayer]
            &&& cmds_balanced(inner)
        }),
{
    lemma_ops_commands_depth(ops, ctx.transform);
    lemma_ops_commands_prefix_nonneg(ops, ctx.transform);
}

/// A drawing handle bound to the placement transform of the canvas being
/// painted.  Every primitive applies that transform, composed with any
/// caller-supplied sub-transform.
#[derive(Clone, Copy)]
pub struct DrawContext {
    pub transform: Affine,
    pub size: Size,
}

impl DrawContext {
    pub fn new(ctx: &PaintCtx, size: Size) -> (r: DrawContext)
        ensures
            r.transform == ctx.transform,
            r.size == size,
    {
        DrawContext { transform: ctx.transform, size }
    }

    /// Fill a shape at the context's transform.
    pub fn fill(&self, scene: &mut SceneBuf, fill_rule: FillRule, brush: &Brush, shape: &Shape)
        ensures
            final(scene)@ == old(scene)@ + op_commands(
                CanvasOpModel::Fill { rule: fill_rule, brush: brush@, shape: shape@ },
                self.transform,
            ),
    {
        scene.fill(fill_rule, self.transform, brush, shape);
        proof {
            assert(final(scene)@ =~= old(scene)@ + op_commands(
                CanvasOpModel::Fill { rule: fill_rule, brush: brush@, shape: shape@ },
                self.transform,
            ));
        }
    }

    /// Stroke a shape's outline at the context's transform.
    pub fn stroke(&self, scene: &mut SceneBuf, style: &StrokeStyle, brush: &Brush, shape: &Shape)
        ensures
            final(scene)@ == old(scene)@ + op_commands(
                CanvasOpModel::Stroke { style: *style, brush: brush@, shape: shape@ },
                self.transform,
            ),
    {
        scene.stroke(style, self.transform, brush, shape);
        proof {
            assert(final(scene)@ =~= old(scene)@ + op_commands(
                CanvasOpModel::Stroke { style: *style, brush: brush@, shape: shape@ },
                self.transform,
            ));
        }
    }

    /// Open a blended layer; the given transform is composed under the
    /// context's.
    pub fn push_layer(
        &self,
        scene: &mut SceneBuf,
        blend: BlendMode,
        alpha: u8,
        transform: Affine,
        shape: &Shape,
    )
        requires
            self.transform.compose_ok(transform),
        ensures
            final(scene)@ == old(scene)@ + op_commands(
                CanvasOpModel::PushLayer { blend, alpha, transform, shape: shape@ },
                self.transform,
            ),
    {
        let combined = self.transform.compose(transform);
        scene.push_layer(blend, alpha, combined, shape);
        proof {
            assert(final(scene)@ =~= old(scene)@ + op_commands(
                CanvasOpModel::PushLayer { blend, alpha, transform, shape: shape@ },
                self.transform,
            ));
        }
    }

    /// Close the most recently opened layer.
    pub fn pop_layer(&self, scene: &mut SceneBuf)
        ensures
            final(scene)@ == old(scene)@ + op_commands(CanvasOpModel::PopLayer, self.transform),
    {
        scene.pop_layer();
        proof {
            assert(final(scene)@ =~= old(scene)@ + op_commands(
                CanvasOpModel::PopLayer,
                self.transform,
            ));
        }
    }

    /// Draw an image; the given transform is composed under the context's.
    pub fn draw_image(&self, scene: &mut SceneBuf, image: &Image, transform: Affine)
        requires
            self.transform.compose_ok(transform),
        ensures
            final(scene)@ == old(scene)@ + op_commands(
                CanvasOpModel::DrawImage { image: image@, transform },
                self.transform,
            ),
    {
        let combined = self.transform.compose(transform);
        scene.draw_image(image, combined);
        proof {
            assert(final(scene)@ =~= old(scene)@ + op_commands(
                CanvasOpModel::DrawImage { image: image@, transform },
                self.transform,
            ));
        }
    }

    /// Open a clip layer bounded by the shape's bounding box, transformed
    /// into device space.
    pub fn push_clip_layer(&self, scene: &mut SceneBuf, shape: &Shape)
        requires
            shape_bbox_ok(shape@),
            self.transform.transform_rect_bbox_ok(shape_bbox(shape@)),
        ensures
            final(scene)@ == old(scene)@ + op_commands(
                CanvasOpModel::PushClipLayer { shape: shape@ },
                self.transform,
            ),
    {
        let global_clip = self.transform.transform_rect_bbox(shape.bounding_box());
        scene.push_layer(BlendMode::Clip, 255, Affine::identity(), &Shape::Rect(global_clip));
        proof {
            assert(final(scene)@ =~= old(scene)@ + op_commands(
                CanvasOpModel::PushClipLayer { shape: shape@ },
                self.transform,
            ));
        }
    }

    /// Replay another canvas's recorded scene; the given transform is
    /// composed under the context's.
    pub fn append(&self, scene: &mut SceneBuf, canvas: &Canvas, transform: Affine)
        requires
            self.transform.compose_ok(transform),
            cmds_retransform_fit(canvas.scene@, self.transform.compose_spec(transform)),
        ensures
            final(scene)@ == old(scene)@ + op_commands(
                CanvasOpModel::Append { scene: canvas.scene@, transform },
                self.transform,
            ),
    {
        let combined = self.transform.compose(transform);
        scene.append(&canvas.scene, combined);
    }
}

/// The canvas widget: a declared size and recorded drawing operations,
/// plus an internal scene other canvases can replay.
#[derive(Debug, PartialEq)]
pub struct Canvas {
    pub size: Size,
    pub ops: Vec<CanvasOp>,
    pub scene: SceneBuf,
}

impl Canvas {
    pub fn new(size: Size, ops: Vec<CanvasOp>) -> (c: Canvas)
        ensures
            c.size == size,
            c.ops@ == ops@,
            c.scene@ == Seq::<CommandModel>::empty(),
    {
        Canvas { size, ops, scene: SceneBuf::new() }
    }

    /// The internal recording scene.
    pub fn get_scene(&self) -> (r: &SceneBuf)
        ensures
            r@ == self.scene@,
    {
        &self.scene
    }

    pub fn children(&self) -> (r: crate::widget::ChildIds)
        ensures
            crate::widget::child_ids_items(r) == Seq::<EntityId>::empty(),
    {
        crate::widget::ChildIds::new()
    }

    /// Paint the canvas: open a layer clipped to the canvas bounds in
    /// device space, replay every recorded operation under the incoming
    /// transform, and close the layer.
    pub fn paint(&self, ctx: &PaintCtx, scene: &mut SceneBuf)
        requires
            paint_fits(self@, *ctx),
            widget_wf(self@),
        ensures
            final(scene)@ == old(scene)@ + paint_spec(self@, *ctx),
    {
        let ghost t = ctx.transform;
        let ghost opsm = self.ops@.map(|j: int, op: CanvasOp| op@);

        let bounds = Rect::from_origin_size(Point::origin(), self.size);
        let global_clip = ctx.transform.transform_rect_bbox(bounds);
        scene.push_layer(BlendMode::Normal, 255, Affine::identity(), &Shape::Rect(global_clip));

        let ghost scene0 = scene@;
        let dc = DrawContext { transform: ctx.transform, size: self.size };
        let mut i: usize = 0;
        while i < self.ops.len()
            invariant
                i <= self.ops@.len(),
                opsm.len() == self.ops@.len(),
                opsm == self.ops@.map(|j: int, op: CanvasOp| op@),
                ops_fit(opsm, t),
                dc.transform == t,
                scene@ == scene0 + ops_commands(opsm.subrange(0, i as int), t),
            decreases self.ops@.len() - i,
        {
            assert(opsm[i as int] == self.ops@[i as int]@);
            match &self.ops[i] {
                CanvasOp::Fill { rule, brush, shape } => {
                    dc.fill(scene, *rule, brush, shape);
                },
                CanvasOp::Stroke { style, brush, shape } => {
                    dc.stroke(scene, style, brush, shape);
                },
                CanvasOp::PushLayer { blend, alpha, transform, shape } => {
                    dc.push_layer(scene, *blend, *alpha, *transform, shape);
                },
                CanvasOp::PopLayer => {
                    dc.pop_layer(scene);
                },
                CanvasOp::DrawImage { image, transform } => {
                    dc.draw_image(scene, image, *transform);
                },
                CanvasOp::PushClipLayer { shape } => {
                    dc.push_clip_layer(scene, shape);
                },
                CanvasOp::Append { scene: recorded, transform } => {
                    proof {
                        assert(opsm[i as int] == (CanvasOpModel::Append {
                            scene: recorded@,
                            transform: *transform,
                        }));
                        assert(op_fits(opsm[i as int], t));
                        assert(op_fits(
                            CanvasOpModel::Append { scene: recorded@, transform: *transform },
                            t,
                        ));
                    }
                    scene.append(recorded, dc.transform.compose(*transform));
                },
            }
            proof {
                assert(opsm.subrange(0, i + 1 as int).drop_last() =~= opsm.subrange(0, i as int));
                assert(opsm.subrange(0, i + 1 as int).last() == opsm[i as int]);
                assert(scene@ =~= scene0 + ops_commands(opsm.subrange(0, i + 1 as int), t));
            }
            i = i + 1;
        }

        proof {
            assert(opsm.subrange(0, opsm.len() as int) =~= opsm);
        }
        scene.pop_layer();
        proof {
            assert(final(scene)@ =~= old(scene)@ + paint_spec(self@, *ctx));
        }
    }
}

/// A build plan for a canvas: the recorded content plus a declared size.
pub struct CanvasElement {
    pub size: Size,
    pub ops: Vec<CanvasOp>,
}

impl CanvasElement {
    pub fn new(ops: Vec<CanvasOp>) -> (c: CanvasElement)
        ensures
            c.size == (Size { width: 0i64, height: 0i64 }),
            c.ops@ == ops@,
    {
        CanvasElement { size: Size::zero(), ops }
    }

    pub fn size(self, size: Size) -> (c: CanvasElement)
        ensures
            c.size == size,
            c.ops@ == self.ops@,
    {
        CanvasElement { size, ops: self.ops }
    }
}

impl crate::element::IntoElement for CanvasElement {
    open spec fn to_element(self) -> crate::element::Element {
        crate::element::Element::Canvas(self)
    }

    fn into_element(self) -> (e: crate::element::Element)
        ensures
            e == self.to_element(),
    {
        crate::element::Element::Canvas(self)
    }
}

/// A fresh canvas plan with the given recorded content.
pub fn canvas(ops: Vec<CanvasOp>) -> (c: CanvasElement)
    ensures
        c.size == (Size { width: 0i64, height: 0i64 }),
        c.ops@ == ops@,
{
    CanvasElement::new(ops)
}

} // verus!
