//! The descriptor layer.
//!
//! An element is a single-use, declarative build plan for one widget.
//! Building consumes the element (children were already built when they
//! were attached, leaves before parents) and yields the runtime widget.

use vstd::prelude::*;
use crate::canvas::{CanvasElement, CanvasOp};
use crate::container::Container;
use crate::elements::Div;
use crate::scroll::{ScrollView, ScrollViewElement};
use crate::widget::{container_model, scroll_model, Widget, WidgetModel};

verus! {

/// A build plan for one widget; the set of plans is closed.
pub enum Element {
    Div(Div),
    ScrollViewport(ScrollViewElement),
    Canvas(CanvasElement),
}

/// The widget an element builds.
pub open spec fn build_spec(e: Element) -> WidgetModel {
    match e {
        Element::Div(d) => container_model(
            Container {
                child: d.child,
                background: d.bg,
                border: d.border,
                offset: d.offset,
                size: d.size,
            },
        ),
        Element::ScrollViewport(s) => scroll_model(
            ScrollView { offset: s.offset, size: s.size, child: s.child },
        ),
        Element::Canvas(c) => WidgetModel::Canvas {
            size: c.size,
            ops: c.ops@.map(|i: int, op: CanvasOp| op@),
            scene: Seq::empty(),
        },
    }
}

impl Element {
    /// Consume the plan and construct the widget it describes.  Total:
    /// building never fails, and no numeric field is validated.
    pub fn build(self) -> (w: Widget)
        ensures
            w@ == build_spec(self),
    {
        match self {
            Element::Div(d) => Widget::Container(
                Container {
                    child: d.child,
                    background: d.bg,
                    border: d.border,
                    offset: d.offset,
                    size: d.size,
                },
            ),
            Element::ScrollViewport(s) => Widget::ScrollView(
                ScrollView { offset: s.offset, size: s.size, child: s.child },
            ),
            Element::Canvas(c) => Widget::Canvas(crate::canvas::Canvas::new(c.size, c.ops)),
        }
    }
}

/// Anything that can be treated as an element by a containing builder;
/// this is how a container's `child` accepts any widget kind without
/// knowing its concrete type.
pub trait IntoElement: Sized {
    /// The element this value stands for.
    spec fn to_element(self) -> Element;

    fn into_element(self) -> (e: Element)
        ensures
            e == self.to_element(),
    ;
}

impl IntoElement for Element {
    open spec fn to_element(self) -> Element {
        self
    }

    fn into_element(self) -> (e: Element)
        ensures
            e == self.to_element(),
    {
        self
    }
}

} // verus!
