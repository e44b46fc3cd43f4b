//! The fluent builder for containers.

use vstd::prelude::*;
use crate::draw::Color;
use crate::element::{build_spec, Element, IntoElement};
use crate::geom::{Size, Vec2};
use crate::widget::{widget_model, Widget};

verus! {

/// A build plan for a container: every field starts unset and each fluent
/// mutator returns the updated plan.
pub struct Div {
    pub child: Option<Box<Widget>>,
    pub size: Option<Size>,
    pub bg: Option<Color>,
    pub border: Option<(Color, i64)>,
    pub offset: Vec2,
}

impl Div {
    pub fn new() -> (d: Div)
        ensures
            d.child is None,
            d.size is None,
            d.bg is None,
            d.border is None,
            d.offset == (Vec2 { x: 0i64, y: 0i64 }),
    {
        Div { child: None, size: None, bg: None, border: None, offset: Vec2::zero() }
    }

    /// Attach a child: the child plan is built immediately, leaves before
    /// parents.
    pub fn child<C: IntoElement>(self, child: C) -> (d: Div)
        ensures
            d.child matches Some(b) && widget_model(*b) == build_spec(child.to_element()),
            d.size == self.size,
            d.bg == self.bg,
            d.border == self.border,
            d.offset == self.offset,
    {
        Div {
            child: Some(Box::new(child.into_element().build())),
            size: self.size,
            bg: self.bg,
            border: self.border,
            offset: self.offset,
        }
    }

    pub fn size(self, size: Size) -> (d: Div)
        ensures
            d.size == Some(size),
            d.child == self.child,
            d.bg == self.bg,
            d.border == self.border,
            d.offset == self.offset,
    {
        Div { size: Some(size), ..self }
    }

    pub fn bg(self, color: Color) -> (d: Div)
        ensures
            d.bg == Some(color),
            d.child == self.child,
            d.size == self.size,
            d.border == self.border,
            d.offset == self.offset,
    {
        Div { bg: Some(color), ..self }
    }

    pub fn border(self, color: Color, width: i64) -> (d: Div)
        ensures
            d.border == Some((color, width)),
            d.child == self.child,
            d.size == self.size,
            d.bg == self.bg,
            d.offset == self.offset,
    {
        Div { border: Some((color, width)), ..self }
    }

    pub fn offset(self, offset: Vec2) -> (d: Div)
        ensures
            d.offset == offset,
            d.child == self.child,
            d.size == self.size,
            d.bg == self.bg,
            d.border == self.border,
    {
        Div { offset, ..self }
    }
}

impl IntoElement for Div {
    open spec fn to_element(self) -> Element {
        Element::Div(self)
    }

    fn into_element(self) -> (e: Element)
        ensures
            e == self.to_element(),
    {
        Element::Div(self)
    }
}

/// A fresh container plan.
pub fn div() -> (d: Div)
    ensures
        d.child is None,
        d.size is None,
        d.bg is None,
        d.border is None,
        d.offset == (Vec2 { x: 0i64, y: 0i64 }),
{
    Div::new()
}

} // verus!
