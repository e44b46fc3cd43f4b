use felt::canvas::{canvas, CanvasOp};
use felt::draw::{Brush, Color, FillRule, Gradient, GradientStop, Image, StrokeStyle};
use felt::element::IntoElement;
use felt::elements::div;
use felt::geom::{Affine, Circle, PathEl, Point, Rect, Shape, Size, Vec2};
use felt::scene::{Command, SceneBuf};
use felt::scroll::scroll_view;
use felt::{paint, PaintCtx, Widget};

fn identity() -> Affine {
    Affine { sx: 1, sy: 1, tx: 0, ty: 0 }
}

#[test]
fn nested_containers_emit_two_fills() {
    let red = Color::rgb(255, 0, 0);
    let blue = Color::rgb(0, 0, 255);
    let root = div().bg(red).child(div().size(Size::new(100, 50)).bg(blue));
    let scene = paint(root.into_element(), 200, 200);
    let cmds = scene.commands();
    assert_eq!(cmds.len(), 2);
    // The sizeless backdrop fills the whole clip at the identity.
    assert_eq!(
        cmds[0],
        Command::Fill {
            rule: FillRule::NonZero,
            transform: identity(),
            brush: Brush::Solid(red),
            shape: Shape::Rect(Rect::new(0, 0, 200, 200)),
        }
    );
    // The sized child fills its own rectangle, also at the identity.
    assert_eq!(
        cmds[1],
        Command::Fill {
            rule: FillRule::NonZero,
            transform: identity(),
            brush: Brush::Solid(blue),
            shape: Shape::Rect(Rect::new(0, 0, 100, 50)),
        }
    );
}

#[test]
fn container_offset_folds_into_the_fill_transform() {
    let c = Color::rgb(40, 40, 40);
    let b = Color::rgb(150, 150, 150);
    let root = div()
        .offset(Vec2::new(100, 100))
        .size(Size::new(600, 400))
        .bg(c)
        .border(b, 4);
    let scene = paint(root.into_element(), 800, 600);
    let cmds = scene.commands();
    assert_eq!(cmds.len(), 2);
    let placed = Affine { sx: 1, sy: 1, tx: 100, ty: 100 };
    assert_eq!(
        cmds[0],
        Command::Fill {
            rule: FillRule::NonZero,
            transform: placed,
            brush: Brush::Solid(c),
            shape: Shape::Rect(Rect::new(0, 0, 600, 400)),
        }
    );
    assert_eq!(
        cmds[1],
        Command::Stroke {
            style: StrokeStyle::new(4),
            transform: placed,
            brush: Brush::Solid(b),
            shape: Shape::Rect(Rect::new(0, 0, 600, 400)),
        }
    );
}

#[test]
fn nested_offsets_accumulate() {
    let c = Color::rgb(1, 2, 3);
    let root = div()
        .offset(Vec2::new(10, 20))
        .child(div().offset(Vec2::new(5, 7)).size(Size::new(10, 10)).bg(c));
    let scene = paint(root.into_element(), 100, 100);
    let cmds = scene.commands();
    assert_eq!(cmds.len(), 1);
    match &cmds[0] {
        Command::Fill { transform, .. } => {
            assert_eq!(*transform, Affine { sx: 1, sy: 1, tx: 15, ty: 27 });
        }
        other => panic!("expected a fill, got {:?}", other),
    }
}

#[test]
fn scroll_viewport_pushes_its_transformed_clip() {
    let c = Color::rgb(80, 80, 80);
    let sv = scroll_view()
        .size(Vec2::new(600, 400))
        .offset(Vec2::new(0, 150))
        .child(div().size(Size::new(500, 1200)).bg(c));
    let widget = sv.into_element().build();
    // An incoming transform with scale and translation.
    let ctx = PaintCtx {
        transform: Affine { sx: 2, sy: 3, tx: 10, ty: 20 },
        clip: Rect::new(0, 0, 800, 600),
    };
    let mut scene = SceneBuf::new();
    widget.paint(&ctx, &mut scene);
    let cmds = scene.commands();
    assert_eq!(cmds.len(), 3);
    // Clip is the viewport rect mapped into device space.
    let expected_clip = Rect::new(10, 20, 2 * 600 + 10, 3 * 400 + 20);
    match &cmds[0] {
        Command::PushLayer { transform, clip, alpha, .. } => {
            assert_eq!(*transform, identity());
            assert_eq!(*clip, Shape::Rect(expected_clip));
            assert_eq!(*alpha, 255);
        }
        other => panic!("expected a push, got {:?}", other),
    }
    // The child's placement subtracts the scroll offset after the incoming
    // transform.
    match &cmds[1] {
        Command::Fill { transform, .. } => {
            assert_eq!(*transform, Affine { sx: 2, sy: 3, tx: 10, ty: 20 - 150 });
        }
        other => panic!("expected a fill, got {:?}", other),
    }
    assert_eq!(cmds[2], Command::PopLayer);
}

#[test]
fn canvas_draws_are_bracketed_by_its_clip_layer() {
    let c = Color::rgb(200, 50, 50);
    let ops = vec![
        CanvasOp::Fill {
            rule: FillRule::NonZero,
            brush: Brush::Solid(c),
            shape: Shape::Rect(Rect::new(0, 0, 400, 50)),
        },
        CanvasOp::Fill {
            rule: FillRule::NonZero,
            brush: Brush::Solid(c),
            shape: Shape::Circle(Circle::new(Point::new(200, 100), 15)),
        },
    ];
    let widget = canvas(ops).size(Size::new(400, 1100)).into_element().build();
    let ctx = PaintCtx {
        transform: Affine { sx: 1, sy: 1, tx: 30, ty: 40 },
        clip: Rect::new(0, 0, 800, 600),
    };
    let mut scene = SceneBuf::new();
    widget.paint(&ctx, &mut scene);
    let cmds = scene.commands();
    assert_eq!(cmds.len(), 4);
    match &cmds[0] {
        Command::PushLayer { clip, .. } => {
            assert_eq!(*clip, Shape::Rect(Rect::new(30, 40, 430, 1140)));
        }
        other => panic!("expected a push, got {:?}", other),
    }
    // Every draw the content issued carries the canvas placement.
    match &cmds[1] {
        Command::Fill { transform, .. } => {
            assert_eq!(*transform, Affine { sx: 1, sy: 1, tx: 30, ty: 40 });
        }
        other => panic!("expected a fill, got {:?}", other),
    }
    assert_eq!(cmds[3], Command::PopLayer);
}

#[test]
fn canvas_push_clip_layer_uses_the_shape_bounding_box() {
    let ops = vec![
        CanvasOp::PushClipLayer {
            shape: Shape::Circle(Circle::new(Point::new(10, 10), 5)),
        },
        CanvasOp::PopLayer,
    ];
    let widget = canvas(ops).size(Size::new(100, 100)).into_element().build();
    let ctx = PaintCtx { transform: identity(), clip: Rect::new(0, 0, 100, 100) };
    let mut scene = SceneBuf::new();
    widget.paint(&ctx, &mut scene);
    let cmds = scene.commands();
    assert_eq!(cmds.len(), 4);
    match &cmds[1] {
        Command::PushLayer { clip, .. } => {
            assert_eq!(*clip, Shape::Rect(Rect::new(5, 5, 15, 15)));
        }
        other => panic!("expected a push, got {:?}", other),
    }
}

#[test]
fn scene_append_composes_placements() {
    let mut inner = SceneBuf::new();
    inner.fill(
        FillRule::NonZero,
        Affine { sx: 1, sy: 1, tx: 1, ty: 2 },
        &Brush::Solid(Color::rgb(9, 9, 9)),
        &Shape::Rect(Rect::new(0, 0, 5, 5)),
    );
    let mut outer = SceneBuf::new();
    outer.append(&inner, Affine { sx: 1, sy: 1, tx: 10, ty: 20 });
    match &outer.commands()[0] {
        Command::Fill { transform, .. } => {
            assert_eq!(*transform, Affine { sx: 1, sy: 1, tx: 11, ty: 22 });
        }
        other => panic!("expected a fill, got {:?}", other),
    }
}

#[test]
fn bounding_boxes_cover_each_shape() {
    let line = Shape::Line(felt::geom::Line::new(Point::new(5, -3), Point::new(-2, 9)));
    assert_eq!(line.bounding_box(), Rect::new(-2, -3, 5, 9));
    let path = Shape::Path(vec![
        PathEl::MoveTo(Point::new(0, 10)),
        PathEl::LineTo(Point::new(4, -6)),
        PathEl::ClosePath,
        PathEl::LineTo(Point::new(-1, 2)),
    ]);
    assert_eq!(path.bounding_box(), Rect::new(-1, -6, 4, 10));
    let empty = Shape::Path(vec![]);
    assert_eq!(empty.bounding_box(), Rect::new(0, 0, 0, 0));
    let circle = Shape::Circle(Circle::new(Point::new(0, 0), -4));
    assert_eq!(circle.bounding_box(), Rect::new(-4, -4, 4, 4));
}

#[test]
fn bbox_transform_orders_corners_under_negative_scale() {
    let t = Affine { sx: -2, sy: 1, tx: 0, ty: 0 };
    let r = t.transform_rect_bbox(Rect::new(1, 1, 3, 3));
    assert_eq!(r, Rect::new(-6, 1, -2, 3));
}

#[test]
fn composition_is_not_commutative() {
    let scale = Affine::scale_non_uniform(2, 2);
    let shift = Affine::translate(Vec2::new(5, 5));
    let a = scale.compose(shift);
    let b = shift.compose(scale);
    assert_eq!(a, Affine { sx: 2, sy: 2, tx: 10, ty: 10 });
    assert_eq!(b, Affine { sx: 2, sy: 2, tx: 5, ty: 5 });
    assert_ne!(a, b);
}

#[test]
fn widgets_report_no_child_identifiers() {
    let widget = div().size(Size::new(1, 1)).into_element().build();
    assert_eq!(widget.children().len(), 0);
    match &widget {
        Widget::Container(c) => assert_eq!(c.children().len(), 0),
        _ => panic!("expected a container"),
    }
}

#[test]
fn paint_ctx_reports_everything_visible() {
    let ctx = PaintCtx { transform: identity(), clip: Rect::new(0, 0, 10, 10) };
    assert!(ctx.is_visible(&Rect::new(500, 500, 600, 600)));
}

#[test]
fn builders_record_their_fields() {
    let d = div()
        .size(Size::new(3, 4))
        .bg(Color::rgb(1, 1, 1))
        .border(Color::rgb(2, 2, 2), 9)
        .offset(Vec2::new(-1, -2));
    assert_eq!(d.size, Some(Size::new(3, 4)));
    assert_eq!(d.bg, Some(Color::rgb(1, 1, 1)));
    assert_eq!(d.border, Some((Color::rgb(2, 2, 2), 9)));
    assert_eq!(d.offset, Vec2::new(-1, -2));
    let s = scroll_view().size(Vec2::new(8, 9)).offset(Vec2::new(0, 3));
    assert_eq!(s.size, Vec2::new(8, 9));
    assert_eq!(s.offset, Vec2::new(0, 3));
}

#[test]
fn gradient_brushes_survive_recording() {
    let g = Brush::Gradient(Gradient {
        stops: vec![
            GradientStop { offset_ppm: 0, color: Color::rgb(0, 0, 0) },
            GradientStop { offset_ppm: 1_000_000, color: Color::rgb(255, 255, 255) },
        ],
    });
    let mut scene = SceneBuf::new();
    scene.fill(FillRule::EvenOdd, identity(), &g, &Shape::Rect(Rect::new(0, 0, 1, 1)));
    match &scene.commands()[0] {
        Command::Fill { rule, brush, .. } => {
            assert_eq!(*rule, FillRule::EvenOdd);
            assert_eq!(brush, &g);
        }
        other => panic!("expected a fill, got {:?}", other),
    }
}

#[test]
fn canvas_image_and_append_ops_compose_placements() {
    let img = Image::new(vec![1, 2, 3, 4], 1, 1);
    let mut recorded = SceneBuf::new();
    recorded.fill(
        FillRule::NonZero,
        Affine { sx: 1, sy: 1, tx: 2, ty: 3 },
        &Brush::Solid(Color::rgb(5, 5, 5)),
        &Shape::Rect(Rect::new(0, 0, 1, 1)),
    );
    let ops = vec![
        CanvasOp::DrawImage { image: img.clone(), transform: Affine { sx: 1, sy: 1, tx: 7, ty: 8 } },
        CanvasOp::Append { scene: recorded, transform: Affine { sx: 1, sy: 1, tx: 100, ty: 200 } },
    ];
    let widget = canvas(ops).size(Size::new(10, 10)).into_element().build();
    let ctx = PaintCtx {
        transform: Affine { sx: 1, sy: 1, tx: 1000, ty: 2000 },
        clip: Rect::new(0, 0, 10, 10),
    };
    let mut scene = SceneBuf::new();
    widget.paint(&ctx, &mut scene);
    let cmds = scene.commands();
    assert_eq!(cmds.len(), 4);
    match &cmds[1] {
        Command::DrawImage { image, transform } => {
            assert_eq!(image, &img);
            assert_eq!(*transform, Affine { sx: 1, sy: 1, tx: 1007, ty: 2008 });
        }
        other => panic!("expected an image draw, got {:?}", other),
    }
    // The appended fill is placed under the canvas transform, then the
    // append transform, then its own.
    match &cmds[2] {
        Command::Fill { transform, .. } => {
            assert_eq!(*transform, Affine { sx: 1, sy: 1, tx: 1102, ty: 2203 });
        }
        other => panic!("expected a fill, got {:?}", other),
    }
}
