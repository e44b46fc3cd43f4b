//! The container widget: an optional child with background, border,
//! translation offset, and optional fixed size.

use vstd::prelude::*;
use crate::draw::{Brush, Color, FillRule, StrokeStyle};
use crate::geom::{Affine, Point, Rect, Shape, Size, Vec2};
use crate::scene::SceneBuf;
use crate::widget::{container_cmds, paint_fits, paint_spec, widget_wf, Widget, WidgetModel};
use crate::{EntityId, PaintCtx};


verus! {

pub struct Container {
    pub child: Option<Box<Widget>>,
    pub background: Option<Color>,
    pub border: Option<(Color, i64)>,
    pub offset: Vec2,
    pub size: Option<Size>,
}

impl Container {
    pub fn new() -> (c: Container)
        ensures
            c.child is None,
            c.background is None,
            c.border is None,
            c.offset == (Vec2 { x: 0i64, y: 0i64 }),
            c.size is None,
    {
        Container { child: None, background: None, border: None, offset: Vec2::zero(), size: None }
    }

    /// Paint the container: fold the offset into the transform; with a
    /// size, fill then stroke `rect(0, 0, size)` there (fill before
    /// stroke before child, so later draws layer on top); with no size
    /// but a background, fill the whole incoming clip at the identity;
    /// then paint the child with the composed transform and the incoming
    /// clip unchanged.
    pub fn paint(&self, ctx: &PaintCtx, scene: &mut SceneBuf)
        requires
            paint_fits(self@, *ctx),
            widget_wf(self@),
        ensures
            final(scene)@ == old(scene)@ + paint_spec(self@, *ctx),
        decreases *self,
    {
        let transform = ctx.transform.then_translate(self.offset);
        let my_ctx = PaintCtx { transform, clip: ctx.clip };
        let ghost own = container_cmds(self.background, self.border, self.size, transform, ctx.clip);

        if let Some(size) = self.size {
            let rect = Shape::Rect(Rect::from_origin_size(Point::origin(), size));
            if let Some(color) = self.background {
                scene.fill(FillRule::NonZero, transform, &Brush::Solid(color), &rect);
            }
            if let Some((color, width)) = self.border {
                scene.stroke(&StrokeStyle::new(width), transform, &Brush::Solid(color), &rect);
            }
        } else if let Some(color) = self.background {
            scene.fill(
                FillRule::NonZero,
                Affine::identity(),
                &Brush::Solid(color),
                &Shape::Rect(ctx.clip),
            );
        }
        proof {
            assert(scene@ =~= old(scene)@ + own);
        }

        if let Some(child) = &self.child {
            child.paint(&my_ctx, scene);
        }
        proof {
            assert(final(scene)@ =~= old(scene)@ + paint_spec(self@, *ctx));
        }
    }

    pub fn children(&self) -> (r: crate::widget::ChildIds)
        ensures
            crate::widget::child_ids_items(r) == Seq::<EntityId>::empty(),
    {
        crate::widget::ChildIds::new()
    }
}

/// A container with a size and a background, painted under an incoming
/// transform `T`, emits its background fill first, with transform
/// `T ∘ translate(offset)` (the offset folded into the parent transform)
/// and shape `rect(0, 0, size)`.
pub proof fn lemma_container_fill(
    child: Option<Box<WidgetModel>>,
    background: Color,
    border: Option<(Color, i64)>,
    offset: Vec2,
    size: Size,
    ctx: PaintCtx,
)
    ensures
        ({
            let cmds = paint_spec(
                WidgetModel::Container {
                    child,
                    background: Some(background),
                    border,
                    offset,
                    size: Some(size),
                },
                ctx,
            );
            &&& cmds.len() >= 1
            &&& cmds[0] == (crate::scene::CommandModel::Fill {
                rule: FillRule::NonZero,
                transform: ctx.transform.then_translate_spec(offset),
                brush: crate::draw::BrushModel::Solid(background),
                shape: crate::geom::ShapeModel::Rect(
                    Rect { x0: 0i64, y0: 0i64, x1: size.width, y1: size.height },
                ),
            })
        }),
{
    let t2 = ctx.transform.then_translate_spec(offset);
    let own = container_cmds(Some(background), border, Some(size), t2, ctx.clip);
    assert(own[0] == (crate::scene::CommandModel::Fill {
        rule: FillRule::NonZero,
        transform: t2,
        brush: crate::draw::BrushModel::Solid(background),
        shape: crate::geom::ShapeModel::Rect(
            Rect { x0: 0i64, y0: 0i64, x1: size.width, y1: size.height },
        ),
    }));
}

} // verus!
