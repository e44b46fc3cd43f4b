//! The statistics overlay: a translucent panel anchored to the
//! bottom-right corner of the viewport, with frame-time labels and a
//! per-sample bar chart.
//!
//! All layout runs in integer logical units.  The panel width is 40% of
//! the viewport width clamped to [200, 600]; its height is 70% of that
//! width.  Each bar's height is `min(sample, displayMax) / displayMax` of
//! the chart height; `displayMax` is the observed maximum unless that
//! exceeds three times the mean, in which case it is 1.33 times the mean,
//! rounded up to a multiple of five milliseconds, so one outlier
//! cannot flatten the chart.  Threshold markers sit at 8.33, 16.66 and
//! 33.33 milliseconds whenever below `displayMax`.

use vstd::prelude::*;
use vstd::string::StringExecFns;
use crate::draw::{Brush, BrushModel, Color, FillRule, StrokeStyle};
use crate::geom::{Affine, PathEl, Point, Rect, Shape, ShapeModel, Vec2};
use crate::platform::{AaConfig, VSync};
use crate::scene::{CommandModel, SceneBuf};
use crate::stats::{round_up, round_up_spec, Snapshot, SLIDING_WINDOW_SIZE};
use crate::text::{dec_digits, format_two_dec, two_dec_label, u64_to_string, SimpleText};

verus! {

/// The solid white the overlay draws its text and markers with.
pub open spec fn overlay_white() -> Color {
    Color { r: 255u8, g: 255u8, b: 255u8, a: 255u8 }
}

/// Every layout quantity of one overlay paint, in logical units (and the
/// bar-chart scale in microseconds).
pub struct OverlayLayout {
    pub width: int,
    pub height: int,
    pub xo: int,
    pub yo: int,
    pub th: int,
    pub lm: int,
    pub tsize: int,
    pub lp: int,
    pub gmh: int,
    pub gmw: int,
    pub lmp: int,
    pub bext: int,
    pub bw: int,
    pub dmax0: int,
    pub dmax: int,
}

/// The overlay layout for a viewport and the snapshot's mean and maximum
/// frame times (microseconds).
pub open spec fn overlay_layout(vw: int, vh: int, avg: int, max: int) -> OverlayLayout {
    let w0 = vw * 2 / 5;
    let width = if w0 < 200 {
        200int
    } else if w0 > 600 {
        600int
    } else {
        w0
    };
    let height = width * 7 / 10;
    let th = height / 14;
    let gmh = height / 2;
    let lp = width / 20;
    let gmw = width - 2 * (width / 100) - lp;
    let bext = gmw / 100;
    let dmax0 = if max > 3 * avg {
        let scaled = avg * 1330 / 1000000;
        round_up_spec(if scaled == 0 { 1int } else { scaled }, 5) * 1000
    } else {
        max
    };
    OverlayLayout {
        width,
        height,
        xo: vw - width,
        yo: vh - height,
        th,
        lm: width / 100,
        tsize: th * 9 / 10,
        lp,
        gmh,
        gmw,
        lmp: width / 100 + lp,
        bext,
        bw: bext * 4 / 10,
        dmax0,
        dmax: if dmax0 == 0 {
            1int
        } else {
            dmax0
        },
    }
}

/// The layout values stay in small, machine-friendly ranges for any
/// viewport up to a hundred million logical units on a side.
pub open spec fn layout_in_range(l: OverlayLayout) -> bool {
    &&& 200 <= l.width <= 600
    &&& 140 <= l.height <= 420
    &&& 0 <= l.th <= 30
    &&& 0 <= l.lm <= 6
    &&& 0 <= l.tsize <= 30
    &&& 0 <= l.gmh <= 210
    &&& 0 <= l.gmw <= 600
    &&& 0 <= l.lmp <= 36
    &&& 0 <= l.bext <= 6
    &&& 0 <= l.bw <= 6
    &&& 1 <= l.dmax
    &&& -700 <= l.xo <= 100_000_000
    &&& -700 <= l.yo <= 100_000_000
}

pub open spec fn vsync_name(v: VSync) -> Seq<char> {
    match v {
        VSync::Off => "off"@,
        VSync::On => "on"@,
        VSync::Mailbox => "mailbox"@,
    }
}

pub open spec fn aa_name(aa: AaConfig) -> Seq<char> {
    match aa {
        AaConfig::Area => "Analytic Area"@,
        AaConfig::Msaa16 => "16xMSAA"@,
        AaConfig::Msaa8 => "8xMSAA"@,
    }
}

/// The six text labels of the overlay, top to bottom.
pub open spec fn overlay_label(
    i: int,
    snap: Snapshot,
    vw: int,
    vh: int,
    vsync: VSync,
    aa: AaConfig,
) -> Seq<char> {
    if i == 0 {
        "Frame Time: "@ + two_dec_label(snap.frame_time_us as int) + " ms"@
    } else if i == 1 {
        "Frame Time (min): "@ + two_dec_label(snap.frame_time_min_us as int) + " ms"@
    } else if i == 2 {
        "Frame Time (max): "@ + two_dec_label(snap.frame_time_max_us as int) + " ms"@
    } else if i == 3 {
        "VSync: "@ + vsync_name(vsync)
    } else if i == 4 {
        "AA method: "@ + aa_name(aa)
    } else {
        "Resolution: "@ + dec_digits(vw) + "x"@ + dec_digits(vh)
    }
}

/// The translucent panel behind the overlay.
pub open spec fn bg_cmd(l: OverlayLayout) -> CommandModel {
    CommandModel::Fill {
        rule: FillRule::NonZero,
        transform: Affine { sx: 1i64, sy: 1i64, tx: l.xo as i64, ty: l.yo as i64 },
        brush: BrushModel::Solid(Color { r: 0u8, g: 0u8, b: 0u8, a: 191u8 }),
        shape: ShapeModel::Rect(
            Rect { x0: 0i64, y0: 0i64, x1: l.width as i64, y1: l.height as i64 },
        ),
    }
}

/// The label text commands, one per label.
pub open spec fn label_cmds(
    snap: Snapshot,
    vw: int,
    vh: int,
    vsync: VSync,
    aa: AaConfig,
    l: OverlayLayout,
) -> Seq<CommandModel> {
    Seq::new(
        6,
        |i: int|
            CommandModel::DrawText {
                size: l.tsize as i64,
                transform: Affine {
                    sx: 1i64,
                    sy: 1i64,
                    tx: (l.xo + l.lm) as i64,
                    ty: (l.yo + (i + 1) * l.th) as i64,
                },
                brush: BrushModel::Solid(overlay_white()),
                text: overlay_label(i, snap, vw, vh, vsync, aa),
            },
    )
}

/// The frames-per-second readout in the panel's top-right region.
pub open spec fn fps_cmd(snap: Snapshot, l: OverlayLayout) -> CommandModel {
    CommandModel::DrawText {
        size: l.tsize as i64,
        transform: Affine {
            sx: 1i64,
            sy: 1i64,
            tx: (l.xo + l.width * 67 / 100) as i64,
            ty: (l.yo + l.th) as i64,
        },
        brush: BrushModel::Solid(overlay_white()),
        text: "FPS: "@ + two_dec_label(snap.fps_milli as int),
    }
}

/// The color of one bar: blue up to 60 fps frame times, amber up to
/// 30 fps, magenta beyond.
pub open spec fn bar_color(sample: u64) -> Color {
    if sample <= 16667 {
        Color { r: 100u8, g: 143u8, b: 255u8, a: 255u8 }
    } else if sample <= 33334 {
        Color { r: 255u8, g: 176u8, b: 0u8, a: 255u8 }
    } else {
        Color { r: 220u8, g: 38u8, b: 127u8, a: 255u8 }
    }
}

/// One bar of the chart: a rectangle whose height is the sample's share
/// of the display maximum, capped at full height.
pub open spec fn bar_cmd(i: int, sample: u64, l: OverlayLayout) -> CommandModel {
    let capped = if sample as int > l.dmax {
        l.dmax
    } else {
        sample as int
    };
    let h = l.gmh * capped / l.dmax;
    CommandModel::Fill {
        rule: FillRule::NonZero,
        transform: Affine {
            sx: 1i64,
            sy: 1i64,
            tx: (l.xo + i * l.bext + l.lmp) as i64,
            ty: (l.yo + l.gmh + 7 * l.th) as i64,
        },
        brush: BrushModel::Solid(bar_color(sample)),
        shape: ShapeModel::Rect(
            Rect { x0: 0i64, y0: (-h) as i64, x1: l.bw as i64, y1: 0i64 },
        ),
    }
}

pub open spec fn bar_cmds(samples: Seq<u64>, l: OverlayLayout) -> Seq<CommandModel> {
    Seq::new(samples.len(), |i: int| bar_cmd(i, samples[i], l))
}

/// One threshold marker: a small label and a horizontal line, drawn only
/// when the threshold lies below the display maximum.
pub open spec fn marker_cmds(t_us: int, label: Seq<char>, l: OverlayLayout) -> Seq<CommandModel> {
    if t_us < l.dmax0 {
        let tth = l.gmh / 20;
        let frac = t_us * l.gmh / l.dmax;
        seq![
            CommandModel::DrawText {
                size: tth as i64,
                transform: Affine {
                    sx: 1i64,
                    sy: 1i64,
                    tx: (l.xo + l.lm) as i64,
                    ty: (l.yo + 2 * l.gmh - frac + tth / 2) as i64,
                },
                brush: BrushModel::Solid(overlay_white()),
                text: label,
            },
            CommandModel::Stroke {
                style: StrokeStyle { width: (l.gmh / 100) as i64 },
                transform: Affine {
                    sx: 1i64,
                    sy: 1i64,
                    tx: (l.xo + l.lmp) as i64,
                    ty: (l.yo + l.gmh - frac) as i64,
                },
                brush: BrushModel::Solid(overlay_white()),
                shape: ShapeModel::Path(
                    seq![
                        PathEl::MoveTo(Point { x: 0i64, y: l.gmh as i64 }),
                        PathEl::LineTo(Point { x: l.gmw as i64, y: l.gmh as i64 }),
                    ],
                ),
            },
        ]
    } else {
        Seq::<CommandModel>::empty()
    }
}

/// Everything one overlay paint emits, in order: the translucent panel,
/// six labels, the fps readout, one bar per sample, then the threshold
/// markers.
pub open spec fn overlay_cmds(
    snap: Snapshot,
    vw: int,
    vh: int,
    samples: Seq<u64>,
    vsync: VSync,
    aa: AaConfig,
) -> Seq<CommandModel> {
    let l = overlay_layout(vw, vh, snap.frame_time_us as int, snap.frame_time_max_us as int);
    seq![bg_cmd(l)] + label_cmds(snap, vw, vh, vsync, aa, l) + seq![fps_cmd(snap, l)] + bar_cmds(
        samples,
        l,
    ) + marker_cmds(8330, "8.33"@, l) + marker_cmds(16660, "16.66"@, l) + marker_cmds(
        33330,
        "33.33"@,
        l,
    )
}

/// Emit the six labels and the fps readout.
fn emit_texts(
    scene: &mut SceneBuf,
    text: &mut SimpleText,
    snap: &Snapshot,
    viewport_width: i64,
    viewport_height: i64,
    vsync: VSync,
    aa_config: AaConfig,
    offset: Affine,
    width: i64,
    text_height: i64,
    left_margin: i64,
    text_size: i64,
    Ghost(l): Ghost<OverlayLayout>,
)
    requires
        offset == (Affine { sx: 1i64, sy: 1i64, tx: l.xo as i64, ty: l.yo as i64 }),
        width as int == l.width,
        text_height as int == l.th,
        left_margin as int == l.lm,
        text_size as int == l.tsize,
        layout_in_range(l),
        0 <= viewport_width,
        0 <= viewport_height,
    ensures
        final(scene)@ == old(scene)@ + label_cmds(
            *snap,
            viewport_width as int,
            viewport_height as int,
            vsync,
            aa_config,
            l,
        ) + seq![fps_cmd(*snap, l)],
{
    let ghost vwi = viewport_width as int;
    let ghost vhi = viewport_height as int;
    let white = Brush::Solid(Color::rgb(255, 255, 255));
    let label0 = String::from_str("Frame Time: ").concat(
        format_two_dec(snap.frame_time_us).as_str(),
    ).concat(" ms");
    let label1 = String::from_str("Frame Time (min): ").concat(
        format_two_dec(snap.frame_time_min_us).as_str(),
    ).concat(" ms");
    let label2 = String::from_str("Frame Time (max): ").concat(
        format_two_dec(snap.frame_time_max_us).as_str(),
    ).concat(" ms");
    let label3 = String::from_str("VSync: ").concat(
        match vsync {
            VSync::Off => "off",
            VSync::On => "on",
            VSync::Mailbox => "mailbox",
        },
    );
    let label4 = String::from_str("AA method: ").concat(
        match aa_config {
            AaConfig::Area => "Analytic Area",
            AaConfig::Msaa16 => "16xMSAA",
            AaConfig::Msaa8 => "8xMSAA",
        },
    );
    let label5 = String::from_str("Resolution: ").concat(
        u64_to_string(viewport_width as u64).as_str(),
    ).concat("x").concat(u64_to_string(viewport_height as u64).as_str());
    proof {
        assert(label0@ =~= overlay_label(0, *snap, vwi, vhi, vsync, aa_config));
        assert(label1@ =~= overlay_label(1, *snap, vwi, vhi, vsync, aa_config));
        assert(label2@ =~= overlay_label(2, *snap, vwi, vhi, vsync, aa_config));
        assert(label3@ =~= overlay_label(3, *snap, vwi, vhi, vsync, aa_config));
        assert(label4@ =~= overlay_label(4, *snap, vwi, vhi, vsync, aa_config));
        assert(label5@ =~= overlay_label(5, *snap, vwi, vhi, vsync, aa_config));
    }
    text.add(
        scene,
        text_size,
        Some(&white),
        offset.then_translate(Vec2::new(left_margin, 1 * text_height)),
        label0.as_str(),
    );
    text.add(
        scene,
        text_size,
        Some(&white),
        offset.then_translate(Vec2::new(left_margin, 2 * text_height)),
        label1.as_str(),
    );
    text.add(
        scene,
        text_size,
        Some(&white),
        offset.then_translate(Vec2::new(left_margin, 3 * text_height)),
        label2.as_str(),
    );
    text.add(
        scene,
        text_size,
        Some(&white),
        offset.then_translate(Vec2::new(left_margin, 4 * text_height)),
        label3.as_str(),
    );
    text.add(
        scene,
        text_size,
        Some(&white),
        offset.then_translate(Vec2::new(left_margin, 5 * text_height)),
        label4.as_str(),
    );
    text.add(
        scene,
        text_size,
        Some(&white),
        offset.then_translate(Vec2::new(left_margin, 6 * text_height)),
        label5.as_str(),
    );
    let fps_label = String::from_str("FPS: ").concat(format_two_dec(snap.fps_milli).as_str());
    text.add(
        scene,
        text_size,
        Some(&white),
        offset.then_translate(Vec2::new(width * 67 / 100, text_height)),
        fps_label.as_str(),
    );
    proof {
        assert(final(scene)@ =~= old(scene)@ + label_cmds(
            *snap,
            vwi,
            vhi,
            vsync,
            aa_config,
            l,
        ) + seq![fps_cmd(*snap, l)]);
    }
}

/// Emit one bar per sample, oldest first.
fn emit_bars(
    scene: &mut SceneBuf,
    samples: &Vec<u64>,
    offset: Affine,
    bar_extent: i64,
    graph_max_height: i64,
    left_margin_padding: i64,
    text_height: i64,
    bar_width: i64,
    dmax: u64,
    Ghost(l): Ghost<OverlayLayout>,
)
    requires
        offset == (Affine { sx: 1i64, sy: 1i64, tx: l.xo as i64, ty: l.yo as i64 }),
        bar_extent as int == l.bext,
        graph_max_height as int == l.gmh,
        left_margin_padding as int == l.lmp,
        text_height as int == l.th,
        bar_width as int == l.bw,
        dmax as int == l.dmax,
        layout_in_range(l),
        samples@.len() <= SLIDING_WINDOW_SIZE,
    ensures
        final(scene)@ == old(scene)@ + bar_cmds(samples@, l),
{
    let mut i: usize = 0;
    while i < samples.len()
        invariant
            i <= samples@.len(),
            samples@.len() <= SLIDING_WINDOW_SIZE,
            scene@ == old(scene)@ + Seq::new(i as nat, |j: int| bar_cmd(j, samples@[j], l)),
            offset == (Affine { sx: 1i64, sy: 1i64, tx: l.xo as i64, ty: l.yo as i64 }),
            bar_extent as int == l.bext,
            graph_max_height as int == l.gmh,
            left_margin_padding as int == l.lmp,
            text_height as int == l.th,
            bar_width as int == l.bw,
            dmax as int == l.dmax,
            layout_in_range(l),
        decreases samples@.len() - i,
    {
        let sample = samples[i];
        let capped: u64 = if sample > dmax {
            dmax
        } else {
            sample
        };
        proof {
            assert((graph_max_height as u128) * (capped as u128) < 0x1_0000_0000_0000_0000_0000u128)
                by (nonlinear_arith)
                requires
                    0 <= graph_max_height <= 210,
                    capped <= u64::MAX,
            ;
            assert((graph_max_height as int) * (capped as int) / (dmax as int) <= graph_max_height
                as int) by (nonlinear_arith)
                requires
                    0 <= capped <= dmax,
                    1 <= dmax,
                    0 <= graph_max_height,
            ;
            assert(0 <= (graph_max_height as int) * (capped as int) / (dmax as int))
                by (nonlinear_arith)
                requires
                    0 <= capped,
                    1 <= dmax,
                    0 <= graph_max_height,
            ;
        }
        let h128: u128 = (graph_max_height as u128) * (capped as u128) / (dmax as u128);
        let h = h128 as i64;
        proof {
            assert(0 <= (i as int) * l.bext <= 600) by (nonlinear_arith)
                requires
                    0 <= i as int <= 100,
                    0 <= l.bext <= 6,
            ;
        }
        let t1 = offset.then_translate(Vec2::new((i as i64) * bar_extent, graph_max_height));
        let t2 = t1.then_translate(Vec2::new(left_margin_padding, 7 * text_height));
        let color = if sample <= 16_667 {
            Color::rgb(100, 143, 255)
        } else if sample <= 33_334 {
            Color::rgb(255, 176, 0)
        } else {
            Color::rgb(220, 38, 127)
        };
        scene.fill(
            FillRule::NonZero,
            t2,
            &Brush::Solid(color),
            &Shape::Rect(Rect::new(0, -h, bar_width, 0)),
        );
        proof {
            assert(Seq::new((i + 1) as nat, |j: int| bar_cmd(j, samples@[j], l)) =~= Seq::new(
                i as nat,
                |j: int| bar_cmd(j, samples@[j], l),
            ).push(bar_cmd(i as int, samples@[i as int], l)));
            assert(scene@ =~= old(scene)@ + Seq::new(
                (i + 1) as nat,
                |j: int| bar_cmd(j, samples@[j], l),
            ));
        }
        i = i + 1;
    }
    proof {
        assert(Seq::new(samples@.len(), |j: int| bar_cmd(j, samples@[j], l)) =~= bar_cmds(
            samples@,
            l,
        ));
    }
}

/// Emit one threshold marker if the threshold lies below the display
/// maximum.
fn emit_marker(
    scene: &mut SceneBuf,
    text: &mut SimpleText,
    t_us: u64,
    label: &str,
    offset: Affine,
    left_margin: i64,
    left_margin_padding: i64,
    graph_max_height: i64,
    graph_max_width: i64,
    display_max: u64,
    dmax: u64,
    Ghost(l): Ghost<OverlayLayout>,
)
    requires
        offset == (Affine { sx: 1i64, sy: 1i64, tx: l.xo as i64, ty: l.yo as i64 }),
        left_margin as int == l.lm,
        left_margin_padding as int == l.lmp,
        graph_max_height as int == l.gmh,
        graph_max_width as int == l.gmw,
        display_max as int == l.dmax0,
        dmax as int == l.dmax,
        layout_in_range(l),
        t_us <= 100_000,
    ensures
        final(scene)@ == old(scene)@ + marker_cmds(t_us as int, label@, l),
{
    let thres_text_height = graph_max_height / 20;
    let thres_text_height_2 = thres_text_height / 2;
    if t_us < display_max {
        proof {
            assert(0 <= (t_us as int) * (graph_max_height as int) <= 100_000 * 210)
                by (nonlinear_arith)
                requires
                    0 <= graph_max_height <= 210,
                    0 <= t_us <= 100_000,
            ;
            assert(0 <= (t_us as int) * (graph_max_height as int) / (dmax as int) <= 100_000 * 210)
                by (nonlinear_arith)
                requires
                    0 <= graph_max_height <= 210,
                    1 <= dmax,
                    0 <= t_us <= 100_000,
            ;
        }
        let frac = (((t_us as u128) * (graph_max_height as u128)) / (dmax as u128)) as i64;
        let white = Brush::Solid(Color::rgb(255, 255, 255));
        text.add(
            scene,
            thres_text_height,
            Some(&white),
            offset.then_translate(
                Vec2::new(left_margin, 2 * graph_max_height - frac + thres_text_height_2),
            ),
            label,
        );
        scene.stroke(
            &StrokeStyle::new(graph_max_height / 100),
            offset.then_translate(Vec2::new(left_margin_padding, graph_max_height - frac)),
            &white,
            &Shape::Path(
                vec![
                    PathEl::MoveTo(Point::new(0, graph_max_height)),
                    PathEl::LineTo(Point::new(graph_max_width, graph_max_height)),
                ],
            ),
        );
        proof {
            assert(final(scene)@ =~= old(scene)@ + marker_cmds(t_us as int, label@, l));
        }
    } else {
        proof {
            assert(marker_cmds(t_us as int, label@, l) =~= Seq::<CommandModel>::empty());
            assert(final(scene)@ =~= old(scene)@ + marker_cmds(t_us as int, label@, l));
        }
    }
}

impl Snapshot {
    /// Paint the overlay for this snapshot onto the scene: panel, labels,
    /// fps readout, one bar per sample (oldest first), threshold markers.
    pub fn draw_layer(
        &self,
        scene: &mut SceneBuf,
        text: &mut SimpleText,
        viewport_size: (i64, i64),
        samples: &Vec<u64>,
        vsync: VSync,
        aa_config: AaConfig,
    )
        requires
            0 <= viewport_size.0 <= 100_000_000,
            0 <= viewport_size.1 <= 100_000_000,
            self.frame_time_us <= 1_000_000_000_000,
            samples@.len() <= SLIDING_WINDOW_SIZE,
        ensures
            final(scene)@ == old(scene)@ + overlay_cmds(
                *self,
                viewport_size.0 as int,
                viewport_size.1 as int,
                samples@,
                vsync,
                aa_config,
            ),
    {
        let (viewport_width, viewport_height) = viewport_size;
        let ghost snap = *self;
        let ghost vwi = viewport_width as int;
        let ghost vhi = viewport_height as int;
        let ghost l = overlay_layout(
            vwi,
            vhi,
            self.frame_time_us as int,
            self.frame_time_max_us as int,
        );

        let w0 = viewport_width * 2 / 5;
        let width: i64 = if w0 < 200 {
            200
        } else if w0 > 600 {
            600
        } else {
            w0
        };
        let height = width * 7 / 10;
        let x_offset = viewport_width - width;
        let y_offset = viewport_height - height;
        let offset = Affine::translate(Vec2::new(x_offset, y_offset));

        let text_height = height / 14;
        let left_margin = width / 100;
        let text_size = text_height * 9 / 10;
        let left_padding = width / 20;
        let graph_max_height = height / 2;
        let graph_max_width = width - 2 * (width / 100) - left_padding;
        let left_margin_padding = width / 100 + left_padding;
        let bar_extent = graph_max_width / (SLIDING_WINDOW_SIZE as i64);
        let bar_width = bar_extent * 4 / 10;

        let avg = self.frame_time_us;
        let maxv = self.frame_time_max_us;
        let display_max: u64 = if maxv > 3 * avg {
            let scaled128: u128 = (avg as u128) * 1330 / 1_000_000;
            proof {
                assert((avg as u128) * 1330 <= 1_000_000_000_000u128 * 1330)
                    by (nonlinear_arith)
                    requires
                        avg <= 1_000_000_000_000,
                ;
            }
            let scaled: u64 = scaled128 as u64;
            let base: usize = if scaled == 0 {
                1
            } else {
                scaled as usize
            };
            (round_up(base, 5) as u64) * 1000
        } else {
            maxv
        };
        let dmax: u64 = if display_max == 0 {
            1
        } else {
            display_max
        };

        proof {
            assert(l.width == width as int);
            assert(l.height == height as int);
            assert(l.xo == x_offset as int);
            assert(l.yo == y_offset as int);
            assert(l.th == text_height as int);
            assert(l.lm == left_margin as int);
            assert(l.tsize == text_size as int);
            assert(l.lp == left_padding as int);
            assert(l.gmh == graph_max_height as int);
            assert(l.gmw == graph_max_width as int);
            assert(l.lmp == left_margin_padding as int);
            assert(l.bext == bar_extent as int);
            assert(l.bw == bar_width as int);
            assert(l.dmax0 == display_max as int);
            assert(l.dmax == dmax as int);
            assert(layout_in_range(l));
        }

        // The translucent panel.
        scene.fill(
            FillRule::NonZero,
            offset,
            &Brush::Solid(Color::rgba(0, 0, 0, 191)),
            &Shape::Rect(Rect::new(0, 0, width, height)),
        );
        proof {
            assert(scene@ =~= old(scene)@ + seq![bg_cmd(l)]);
        }

        // The labels and the fps readout.
        emit_texts(
            scene,
            text,
            self,
            viewport_width,
            viewport_height,
            vsync,
            aa_config,
            offset,
            width,
            text_height,
            left_margin,
            text_size,
            Ghost(l),
        );
        proof {
            assert(scene@ =~= old(scene)@ + seq![bg_cmd(l)] + label_cmds(
                snap,
                vwi,
                vhi,
                vsync,
                aa_config,
                l,
            ) + seq![fps_cmd(snap, l)]);
        }

        // The bar chart.
        emit_bars(
            scene,
            samples,
            offset,
            bar_extent,
            graph_max_height,
            left_margin_padding,
            text_height,
            bar_width,
            dmax,
            Ghost(l),
        );

        // Threshold markers at 8.33, 16.66 and 33.33 milliseconds.
        emit_marker(
            scene,
            text,
            8330,
            "8.33",
            offset,
            left_margin,
            left_margin_padding,
            graph_max_height,
            graph_max_width,
            display_max,
            dmax,
            Ghost(l),
        );
        emit_marker(
            scene,
            text,
            16660,
            "16.66",
            offset,
            left_margin,
            left_margin_padding,
            graph_max_height,
            graph_max_width,
            display_max,
            dmax,
            Ghost(l),
        );
        emit_marker(
            scene,
            text,
            33330,
            "33.33",
            offset,
            left_margin,
            left_margin_padding,
            graph_max_height,
            graph_max_width,
            display_max,
            dmax,
            Ghost(l),
        );
        proof {
            assert(final(scene)@ =~= old(scene)@ + overlay_cmds(
                snap,
                vwi,
                vhi,
                samples@,
                vsync,
                aa_config,
            ));
        }
    }
}

} // verus!
