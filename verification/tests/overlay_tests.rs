use felt::draw::{Brush, Color, FillRule};
use felt::geom::{Affine, Rect, Shape};
use felt::platform::{build_benchmark_scene, build_test_scene, isqrt, AaConfig, VSync};
use felt::scene::{Command, SceneBuf};
use felt::stats::Snapshot;
use felt::text::{format_two_dec, u64_to_string, SimpleText};

fn snap(avg: u64, min: u64, max: u64, fps_milli: u64) -> Snapshot {
    Snapshot {
        fps_milli,
        frame_time_us: avg,
        frame_time_min_us: min,
        frame_time_max_us: max,
    }
}

fn draw(s: &Snapshot, vw: i64, vh: i64, samples: Vec<u64>) -> SceneBuf {
    let mut scene = SceneBuf::new();
    let mut text = SimpleText::new();
    s.draw_layer(&mut scene, &mut text, (vw, vh), &samples, VSync::On, AaConfig::Msaa16);
    scene
}

#[test]
fn decimal_formatting_is_exact() {
    assert_eq!(u64_to_string(0), "0");
    assert_eq!(u64_to_string(7), "7");
    assert_eq!(u64_to_string(12345), "12345");
    assert_eq!(u64_to_string(1000000), "1000000");
    assert_eq!(format_two_dec(16667), "16.67");
    assert_eq!(format_two_dec(16664), "16.66");
    assert_eq!(format_two_dec(16665), "16.67");
    assert_eq!(format_two_dec(1234), "1.23");
    assert_eq!(format_two_dec(999), "1.00");
    assert_eq!(format_two_dec(50), "0.05");
    assert_eq!(format_two_dec(60000), "60.00");
}

#[test]
fn panel_is_anchored_bottom_right_and_clamped() {
    // 40% of 1000 is 400; height is 70% of the width.
    let scene = draw(&snap(1000, 1000, 1000, 1_000_000), 1000, 800, vec![]);
    let cmds = scene.commands();
    assert_eq!(
        cmds[0],
        Command::Fill {
            rule: FillRule::NonZero,
            transform: Affine { sx: 1, sy: 1, tx: 600, ty: 520 },
            brush: Brush::Solid(Color::rgba(0, 0, 0, 191)),
            shape: Shape::Rect(Rect::new(0, 0, 400, 280)),
        }
    );
    // A narrow viewport still gets the 200-unit minimum width.
    let scene = draw(&snap(1000, 1000, 1000, 1_000_000), 300, 300, vec![]);
    match &scene.commands()[0] {
        Command::Fill { shape, .. } => assert_eq!(*shape, Shape::Rect(Rect::new(0, 0, 200, 140))),
        other => panic!("expected a fill, got {:?}", other),
    }
    // A wide viewport is clamped to 600.
    let scene = draw(&snap(1000, 1000, 1000, 1_000_000), 10_000, 5000, vec![]);
    match &scene.commands()[0] {
        Command::Fill { shape, .. } => assert_eq!(*shape, Shape::Rect(Rect::new(0, 0, 600, 420))),
        other => panic!("expected a fill, got {:?}", other),
    }
}

#[test]
fn labels_spell_out_the_snapshot() {
    let scene = draw(&snap(16667, 8000, 33000, 59_999), 1000, 800, vec![]);
    let cmds = scene.commands();
    let texts: Vec<String> = cmds
        .iter()
        .filter_map(|c| match c {
            Command::DrawText { text, .. } => Some(text.clone()),
            _ => None,
        })
        .collect();
    assert_eq!(
        texts,
        vec![
            "Frame Time: 16.67 ms".to_string(),
            "Frame Time (min): 8.00 ms".to_string(),
            "Frame Time (max): 33.00 ms".to_string(),
            "VSync: on".to_string(),
            "AA method: 16xMSAA".to_string(),
            "Resolution: 1000x800".to_string(),
            "FPS: 60.00".to_string(),
            // Thresholds 8.33 and 16.66 lie below the 33 ms maximum.
            "8.33".to_string(),
            "16.66".to_string(),
        ]
    );
}

#[test]
fn bars_are_colored_by_frame_time_thresholds() {
    // Max within 3x the mean, so the display maximum is the observed max.
    let samples = vec![16_667, 16_668, 33_334, 33_335];
    let scene = draw(&snap(25_000, 16_667, 33_335, 40_000), 1000, 800, samples);
    let cmds = scene.commands();
    // panel + 6 labels + fps = 8 commands before the bars.
    let colors: Vec<Color> = (8..12)
        .map(|i| match &cmds[i] {
            Command::Fill { brush: Brush::Solid(c), .. } => *c,
            other => panic!("expected a bar fill, got {:?}", other),
        })
        .collect();
    assert_eq!(colors[0], Color::rgb(100, 143, 255));
    assert_eq!(colors[1], Color::rgb(255, 176, 0));
    assert_eq!(colors[2], Color::rgb(255, 176, 0));
    assert_eq!(colors[3], Color::rgb(220, 38, 127));
}

#[test]
fn bar_height_is_the_samples_share_of_the_display_maximum() {
    // avg 10000us, max 10000us: display max is the observed max.
    let scene = draw(&snap(10_000, 5000, 10_000, 100_000), 1000, 800, vec![5000, 10_000, 20_000]);
    let cmds = scene.commands();
    // Chart height is half the panel height: 280 / 2 = 140.
    let heights: Vec<i64> = (8..11)
        .map(|i| match &cmds[i] {
            Command::Fill { shape: Shape::Rect(r), .. } => -r.y0,
            other => panic!("expected a bar fill, got {:?}", other),
        })
        .collect();
    assert_eq!(heights[0], 70); // 140 * 5000 / 10000
    assert_eq!(heights[1], 140); // full height
    assert_eq!(heights[2], 140); // capped at the display maximum
}

#[test]
fn outlier_rescale_uses_the_exact_factor() {
    // max > 3 * avg with a 376 ms mean: 1.33 * 376 ms = 500.08 ms, so the
    // display maximum rounds up to 500 ms exactly.
    let scene = draw(
        &snap(376_000, 100_000, 2_000_000, 2_659),
        1000,
        800,
        vec![250_000],
    );
    let cmds = scene.commands();
    match &cmds[8] {
        Command::Fill { shape: Shape::Rect(r), .. } => {
            // 140 * 250000 / 500000: half the 140-unit chart height.
            assert_eq!(-r.y0, 70);
        }
        other => panic!("expected a bar fill, got {:?}", other),
    }
}

#[test]
fn outlier_maximum_rescales_the_chart() {
    // max > 3 * avg: display max becomes roundUpToMultipleOf5(1.33 * 3 ms)
    // = 5 ms = 5000 us.
    let scene = draw(&snap(3000, 1000, 10_000, 333_333), 1000, 800, vec![2500]);
    let cmds = scene.commands();
    match &cmds[8] {
        Command::Fill { shape: Shape::Rect(r), .. } => {
            // 140 * 2500 / 5000
            assert_eq!(-r.y0, 70);
        }
        other => panic!("expected a bar fill, got {:?}", other),
    }
    // No threshold marker fits below 5 ms, so no marker text follows.
    let marker_texts = cmds.iter().any(|c| match c {
        Command::DrawText { text, .. } => text == "8.33",
        _ => false,
    });
    assert!(!marker_texts);
}

#[test]
fn threshold_markers_appear_below_the_display_maximum() {
    let scene = draw(&snap(20_000, 10_000, 40_000, 50_000), 1000, 800, vec![]);
    let cmds = scene.commands();
    let labels: Vec<String> = cmds
        .iter()
        .filter_map(|c| match c {
            Command::DrawText { text, .. } => Some(text.clone()),
            _ => None,
        })
        .filter(|t| t == "8.33" || t == "16.66" || t == "33.33")
        .collect();
    assert_eq!(labels, vec!["8.33", "16.66", "33.33"]);
    // Each marker label is followed by its horizontal line.
    let strokes = cmds.iter().filter(|c| matches!(c, Command::Stroke { .. })).count();
    assert_eq!(strokes, 3);
}

#[test]
fn test_scene_is_three_rectangles() {
    let mut scene = SceneBuf::new();
    build_test_scene(&mut scene, 800, 600);
    let cmds = scene.commands();
    assert_eq!(cmds.len(), 3);
    assert_eq!(
        cmds[0],
        Command::Fill {
            rule: FillRule::NonZero,
            transform: Affine { sx: 1, sy: 1, tx: 0, ty: 0 },
            brush: Brush::Solid(Color::rgb(255, 0, 0)),
            shape: Shape::Rect(Rect::new(50, 50, 250, 150)),
        }
    );
    match &cmds[1] {
        Command::Fill { shape, brush, .. } => {
            assert_eq!(*shape, Shape::Rect(Rect::new(550, 50, 750, 150)));
            assert_eq!(*brush, Brush::Solid(Color::rgb(0, 255, 0)));
        }
        other => panic!("expected a fill, got {:?}", other),
    }
    match &cmds[2] {
        Command::Fill { shape, .. } => {
            assert_eq!(*shape, Shape::Rect(Rect::new(300, 200, 500, 400)));
        }
        other => panic!("expected a fill, got {:?}", other),
    }
}

#[test]
fn benchmark_scene_lays_rectangles_in_a_grid() {
    let mut scene = SceneBuf::new();
    build_benchmark_scene(&mut scene, 800, 600, 4);
    let cmds = scene.commands();
    assert_eq!(cmds.len(), 4);
    // 2x2 grid of 400x300 cells.
    let rects: Vec<Rect> = cmds
        .iter()
        .map(|c| match c {
            Command::Fill { shape: Shape::Rect(r), .. } => *r,
            other => panic!("expected a fill, got {:?}", other),
        })
        .collect();
    assert_eq!(rects[0], Rect::new(0, 0, 400, 300));
    assert_eq!(rects[1], Rect::new(400, 0, 800, 300));
    assert_eq!(rects[2], Rect::new(0, 300, 400, 600));
    assert_eq!(rects[3], Rect::new(400, 300, 800, 600));
    // Index-derived colors.
    match &cmds[1] {
        Command::Fill { brush, .. } => {
            assert_eq!(*brush, Brush::Solid(Color::rgb(137, 211, 97)));
        }
        other => panic!("expected a fill, got {:?}", other),
    }
}

#[test]
fn integer_square_root_brackets_its_argument() {
    assert_eq!(isqrt(0), 0);
    assert_eq!(isqrt(1), 1);
    assert_eq!(isqrt(3), 1);
    assert_eq!(isqrt(4), 2);
    assert_eq!(isqrt(99), 9);
    assert_eq!(isqrt(100), 10);
    assert_eq!(isqrt(1_000_000), 1000);
}
