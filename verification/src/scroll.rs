//! The scroll viewport widget: a clipped window onto a larger child,
//! shifted by a caller-driven scroll offset.

use vstd::prelude::*;
use crate::draw::BlendMode;
use crate::geom::{Affine, Point, Rect, Shape, Size, Vec2};
use crate::scene::SceneBuf;
use crate::widget::{paint_fits, paint_spec, widget_wf, Widget, WidgetModel};
use crate::{EntityId, PaintCtx};


verus! {

pub struct ScrollView {
    pub offset: Vec2,
    pub size: Vec2,
    pub child: Option<Box<Widget>>,
}

impl ScrollView {
    pub fn new(size: Vec2) -> (s: ScrollView)
        ensures
            s.offset == (Vec2 { x: 0i64, y: 0i64 }),
            s.size == size,
            s.child is None,
    {
        ScrollView { offset: Vec2::zero(), size, child: None }
    }

    pub fn with_child(self, child: Widget) -> (s: ScrollView)
        ensures
            s.offset == self.offset,
            s.size == self.size,
            s.child matches Some(b) && *b == child,
    {
        ScrollView { offset: self.offset, size: self.size, child: Some(Box::new(child)) }
    }

    /// Paint the viewport: push a clip layer over the viewport rectangle
    /// transformed into device space, paint the child with the scroll
    /// offset subtracted from the transform and the pushed rectangle as
    /// its clip, then pop the layer.  Push and pop always balance.
    pub fn paint(&self, ctx: &PaintCtx, scene: &mut SceneBuf)
        requires
            paint_fits(self@, *ctx),
            widget_wf(self@),
        ensures
            final(scene)@ == old(scene)@ + paint_spec(self@, *ctx),
        decreases *self,
    {
        let viewport = Rect::from_origin_size(
            Point::origin(),
            Size::new(self.size.x, self.size.y),
        );
        let global_clip = ctx.transform.transform_rect_bbox(viewport);

        scene.push_layer(BlendMode::Normal, 255, Affine::identity(), &Shape::Rect(global_clip));

        if let Some(child) = &self.child {
            let child_ctx = PaintCtx {
                transform: ctx.transform.then_translate(
                    Vec2::new(-self.offset.x, -self.offset.y),
                ),
                clip: global_clip,
            };
            child.paint(&child_ctx, scene);
        }

        scene.pop_layer();

        proof {
            assert(final(scene)@ =~= old(scene)@ + paint_spec(self@, *ctx));
        }
    }

    pub fn children(&self) -> (r: crate::widget::ChildIds)
        ensures
            crate::widget::child_ids_items(r) == Seq::<EntityId>::empty(),
    {
        crate::widget::ChildIds::new()
    }
}

/// A scroll viewport with viewport `size` and scroll `offset`, painted
/// under an incoming transform `T`, pushes a clip layer equal to
/// `T(rect(0, 0, size))`, paints its child with incoming transform
/// `T ∘ translate(-offset)` and that rectangle as its clip, and pops the
/// layer: push and pop always balance.
pub proof fn lemma_scroll_clip_and_child_transform(
    offset: Vec2,
    size: Vec2,
    child: Box<WidgetModel>,
    ctx: PaintCtx,
)
    ensures
        ({
            let w = WidgetModel::ScrollView { offset, size, child: Some(child) };
            let global_clip = ctx.transform.transform_rect_bbox_spec(
                Rect { x0: 0i64, y0: 0i64, x1: size.x, y1: size.y },
            );
            let child_ctx = PaintCtx {
                transform: ctx.transform.then_translate_spec(offset.neg_spec()),
                clip: global_clip,
            };
            paint_spec(w, ctx) == seq![
                crate::scene::CommandModel::PushLayer {
                    blend: BlendMode::Normal,
                    alpha: 255u8,
                    transform: Affine::identity_spec(),
                    clip: crate::geom::ShapeModel::Rect(global_clip),
                },
            ] + paint_spec(*child, child_ctx) + seq![crate::scene::CommandModel::PopLayer]
        }),
{
}

/// A build plan for a scroll viewport.
pub struct ScrollViewElement {
    pub size: Vec2,
    pub offset: Vec2,
    pub child: Option<Box<Widget>>,
}

impl ScrollViewElement {
    pub fn new() -> (s: ScrollViewElement)
        ensures
            s.size == (Vec2 { x: 0i64, y: 0i64 }),
            s.offset == (Vec2 { x: 0i64, y: 0i64 }),
            s.child is None,
    {
        ScrollViewElement { size: Vec2::zero(), offset: Vec2::zero(), child: None }
    }

    pub fn size(self, size: Vec2) -> (s: ScrollViewElement)
        ensures
            s.size == size,
            s.offset == self.offset,
            s.child == self.child,
    {
        ScrollViewElement { size, ..self }
    }

    pub fn offset(self, offset: Vec2) -> (s: ScrollViewElement)
        ensures
            s.offset == offset,
            s.size == self.size,
            s.child == self.child,
    {
        ScrollViewElement { offset, ..self }
    }

    /// Attach the viewport's child: the child plan is built immediately.
    pub fn child<C: crate::element::IntoElement>(self, child: C) -> (s: ScrollViewElement)
        ensures
            s.child matches Some(b) && crate::widget::widget_model(*b) == crate::element::build_spec(
                child.to_element(),
            ),
            s.size == self.size,
            s.offset == self.offset,
    {
        ScrollViewElement {
            size: self.size,
            offset: self.offset,
            child: Some(Box::new(child.into_element().build())),
        }
    }
}

impl crate::element::IntoElement for ScrollViewElement {
    open spec fn to_element(self) -> crate::element::Element {
        crate::element::Element::ScrollViewport(self)
    }

    fn into_element(self) -> (e: crate::element::Element)
        ensures
            e == self.to_element(),
    {
        crate::element::Element::ScrollViewport(self)
    }
}

/// A fresh scroll-viewport plan.
pub fn scroll_view() -> (s: ScrollViewElement)
    ensures
        s.size == (Vec2 { x: 0i64, y: 0i64 }),
        s.offset == (Vec2 { x: 0i64, y: 0i64 }),
        s.child is None,
{
    ScrollViewElement::new()
}

} // verus!
