//! Renderer- and window-facing configuration, and the built-in scenes the
//! renderer can emit without an application widget tree.

use vstd::prelude::*;
use vstd::string::StringExecFns;
use crate::draw::{Brush, BrushModel, Color, FillRule};
use crate::geom::{Affine, Rect, Shape, ShapeModel};
use crate::scene::{CommandModel, SceneBuf};

verus! {

/// Controls vertical synchronization and frame presentation.
#[derive(Clone, Copy, Debug, PartialEq, Eq, Structural)]
pub enum VSync {
    /// Present immediately; lowest latency, may tear.
    Off,
    /// Wait for the display refresh; tear-free.
    On,
    /// Triple buffering: render without blocking, present the latest
    /// complete frame at refresh.
    Mailbox,
}

/// Controls when the window is redrawn.
#[derive(Clone, Copy, Debug, PartialEq, Eq, Structural)]
pub enum RedrawMode {
    /// Redraw only on window events or explicit requests.
    OnDemand,
    /// Redraw continuously at full rate.
    Continuous,
}

impl Default for RedrawMode {
    fn default() -> (r: Self)
        ensures
            r == RedrawMode::OnDemand,
    {
        RedrawMode::OnDemand
    }
}

/// The antialiasing method the compositor uses.
#[derive(Clone, Copy, Debug, PartialEq, Eq, Structural)]
pub enum AaConfig {
    Area,
    Msaa8,
    Msaa16,
}

/// Configuration options for the renderer.
#[derive(Clone, Copy, Debug, PartialEq, Eq, Structural)]
pub struct RendererOptions {
    /// Show the statistics overlay in the bottom-right corner.
    pub show_stats: bool,
    /// Vertical synchronization mode.
    pub vsync: VSync,
}

impl Default for RendererOptions {
    fn default() -> (r: Self)
        ensures
            r == (RendererOptions { show_stats: true, vsync: VSync::On }),
    {
        RendererOptions { show_stats: true, vsync: VSync::On }
    }
}

/// Options for opening a window.
pub struct WindowOptions {
    pub title: String,
    pub size: crate::geom::Size,
    pub window_decorations: Option<bool>,
    pub transparent: Option<bool>,
    pub redraw_mode: RedrawMode,
}

impl Default for WindowOptions {
    fn default() -> (r: Self)
        ensures
            r.title@ == "Felt UI"@,
            r.size == (crate::geom::Size { width: 800i64, height: 600i64 }),
            r.window_decorations is None,
            r.transparent is None,
            r.redraw_mode == RedrawMode::OnDemand,
    {
        WindowOptions {
            title: String::from_str("Felt UI"),
            size: crate::geom::Size { width: 800, height: 600 },
            window_decorations: None,
            transparent: None,
            redraw_mode: RedrawMode::OnDemand,
        }
    }
}

/// Three fixed rectangles: red top-left, green top-right, blue centered.
pub open spec fn test_scene_cmds(width: int, height: int) -> Seq<CommandModel> {
    seq![
        CommandModel::Fill {
            rule: FillRule::NonZero,
            transform: Affine::identity_spec(),
            brush: BrushModel::Solid(Color { r: 255u8, g: 0u8, b: 0u8, a: 255u8 }),
            shape: ShapeModel::Rect(Rect { x0: 50i64, y0: 50i64, x1: 250i64, y1: 150i64 }),
        },
        CommandModel::Fill {
            rule: FillRule::NonZero,
            transform: Affine::identity_spec(),
            brush: BrushModel::Solid(Color { r: 0u8, g: 255u8, b: 0u8, a: 255u8 }),
            shape: ShapeModel::Rect(
                Rect { x0: (width - 250) as i64, y0: 50i64, x1: (width - 50) as i64, y1: 150i64 },
            ),
        },
        CommandModel::Fill {
            rule: FillRule::NonZero,
            transform: Affine::identity_spec(),
            brush: BrushModel::Solid(Color { r: 0u8, g: 0u8, b: 255u8, a: 255u8 }),
            shape: ShapeModel::Rect(
                Rect {
                    x0: (width / 2 - 100) as i64,
                    y0: (height / 2 - 100) as i64,
                    x1: (width / 2 + 100) as i64,
                    y1: (height / 2 + 100) as i64,
                },
            ),
        },
    ]
}

/// Emit the fixed demonstration scene for a viewport.
pub fn build_test_scene(scene: &mut SceneBuf, width: i64, height: i64)
    requires
        0 <= width <= 100_000_000,
        0 <= height <= 100_000_000,
    ensures
        final(scene)@ == old(scene)@ + test_scene_cmds(width as int, height as int),
{
    scene.fill(
        FillRule::NonZero,
        Affine::identity(),
        &Brush::Solid(Color::rgb(255, 0, 0)),
        &Shape::Rect(Rect::new(50, 50, 250, 150)),
    );
    scene.fill(
        FillRule::NonZero,
        Affine::identity(),
        &Brush::Solid(Color::rgb(0, 255, 0)),
        &Shape::Rect(Rect::new(width - 250, 50, width - 50, 150)),
    );
    let center_x = width / 2;
    let center_y = height / 2;
    scene.fill(
        FillRule::NonZero,
        Affine::identity(),
        &Brush::Solid(Color::rgb(0, 0, 255)),
        &Shape::Rect(
            Rect::new(center_x - 100, center_y - 100, center_x + 100, center_y + 100),
        ),
    );
    proof {
        assert(final(scene)@ =~= old(scene)@ + test_scene_cmds(width as int, height as int));
    }
}

/// The integer square root: the unique `r` with `r² ≤ n < (r+1)²`.
pub open spec fn isqrt_spec(n: int) -> int {
    choose|r: int| #![trigger r * r] 0 <= r && r * r <= n && n < (r + 1) * (r + 1)
}

/// The integer square root is determined by its bounds.
pub proof fn lemma_isqrt_unique(n: int, r: int)
    requires
        0 <= r,
        r * r <= n,
        n < (r + 1) * (r + 1),
    ensures
        isqrt_spec(n) == r,
{
    assert(0 <= r && r * r <= n && n < (r + 1) * (r + 1));
    let w = isqrt_spec(n);
    assert(0 <= w && w * w <= n && n < (w + 1) * (w + 1)) by {
        assert(exists|q: int| #![trigger q * q] 0 <= q && q * q <= n && n < (q + 1) * (q + 1));
    }
    if w < r {
        assert((w + 1) * (w + 1) <= r * r) by (nonlinear_arith)
            requires
                0 <= w,
                w + 1 <= r,
        ;
        assert(false);
    }
    if r < w {
        assert((r + 1) * (r + 1) <= w * w) by (nonlinear_arith)
            requires
                0 <= r,
                r + 1 <= w,
        ;
        assert(false);
    }
}

/// Integer square root by counting up; the grid side of the benchmark
/// scene, so the count is small.
pub fn isqrt(n: usize) -> (r: usize)
    ensures
        r * r <= n,
        n < (r + 1) * (r + 1),
        r as int == isqrt_spec(n as int),
{
    let mut r: usize = 0;
    loop
        invariant
            r * r <= n,
        decreases n - r,
    {
        proof {
            assert(r < usize::MAX) by (nonlinear_arith)
                requires
                    (r as int) * (r as int) <= usize::MAX as int,
                    usize::MAX as int >= 100,
            ;
        }
        let next = r + 1;
        if next <= n / next {
            proof {
                vstd::arithmetic::div_mod::lemma_fundamental_div_mod(n as int, next as int);
                assert(next * next <= next * (n as int / next as int)) by (nonlinear_arith)
                    requires
                        next as int <= n as int / next as int,
                        0 < next,
                ;
                assert(next * (n as int / next as int) <= n) by {
                    assert(n as int == next * (n as int / next as int) + n as int % next as int);
                }
            }
            r = next;
        } else {
            proof {
                let d = next as int;
                vstd::arithmetic::div_mod::lemma_fundamental_div_mod(n as int, d);
                assert(n as int / d <= d - 1);
                assert(d * (n as int / d) <= d * (d - 1)) by (nonlinear_arith)
                    requires
                        n as int / d <= d - 1,
                        0 < d,
                ;
                assert(d * (d - 1) + d == d * d) by (nonlinear_arith);
                assert(n < (r + 1) * (r + 1));
                lemma_isqrt_unique(n as int, r as int);
            }
            return r;
        }
    }
}

/// The color of the benchmark rectangle at one index.
pub open spec fn bench_color(i: int) -> Color {
    Color {
        r: (i * 137 % 256) as u8,
        g: (i * 211 % 256) as u8,
        b: (i * 97 % 256) as u8,
        a: 255u8,
    }
}

/// One benchmark rectangle: grid cell `i` of a `cols`-wide grid of
/// `rect_width` by `rect_height` cells.
pub open spec fn bench_cmd(i: int, cols: int, rect_width: int, rect_height: int) -> CommandModel {
    let col = i % cols;
    let row = i / cols;
    CommandModel::Fill {
        rule: FillRule::NonZero,
        transform: Affine::identity_spec(),
        brush: BrushModel::Solid(bench_color(i)),
        shape: ShapeModel::Rect(
            Rect {
                x0: (col * rect_width) as i64,
                y0: (row * rect_height) as i64,
                x1: (col * rect_width + rect_width) as i64,
                y1: (row * rect_height + rect_height) as i64,
            },
        ),
    }
}

/// The whole benchmark scene: `count` rectangles in a near-square grid
/// filling the viewport, each with its index-derived color.
pub open spec fn bench_cmds(width: int, height: int, count: int) -> Seq<CommandModel> {
    let cols = isqrt_spec(count);
    let rows = (count + cols - 1) / cols;
    let rect_width = width / cols;
    let rect_height = height / rows;
    Seq::new(count as nat, |i: int| bench_cmd(i, cols, rect_width, rect_height))
}

/// Emit the benchmark scene: `count` colored rectangles in a grid.
pub fn build_benchmark_scene(scene: &mut SceneBuf, width: i64, height: i64, count: usize)
    requires
        1 <= count <= 1_000_000,
        0 <= width <= 100_000_000,
        0 <= height <= 100_000_000,
    ensures
        final(scene)@ == old(scene)@ + bench_cmds(width as int, height as int, count as int),
{
    let cols = isqrt(count);
    proof {
        assert(1 * 1 <= count) by (nonlinear_arith)
            requires
                1 <= count,
        ;
        assert(cols >= 1);
        assert(cols <= 1000) by (nonlinear_arith)
            requires
                cols * cols <= 1_000_000,
                0 <= cols,
        ;
    }
    let rows = (count + cols - 1) / cols;
    proof {
        vstd::arithmetic::div_mod::lemma_fundamental_div_mod(
            count as int + cols as int - 1,
            cols as int,
        );
        let ghost num = count as int + cols as int - 1;
        let ghost cd = cols as int;
        assert(0 <= num % cd && num % cd < cd);
        assert(rows >= 1) by (nonlinear_arith)
            requires
                num == cd * (rows as int) + num % cd,
                0 <= num % cd,
                num % cd < cd,
                1 <= cd,
                cd <= num,
        ;
        assert(rows as int <= num) by (nonlinear_arith)
            requires
                num == cd * (rows as int) + num % cd,
                0 <= num % cd,
                num % cd < cd,
                1 <= cd,
                0 <= rows as int,
        ;
        assert(rows <= count + cols);
    }
    let rect_width = width / (cols as i64);
    let rect_height = height / (rows as i64);

    let ghost colsi = cols as int;
    let ghost rowsi = rows as int;
    let ghost rw = rect_width as int;
    let ghost rh = rect_height as int;

    let mut i: usize = 0;
    while i < count
        invariant
            i <= count,
            1 <= count <= 1_000_000,
            1 <= cols <= 1000,
            1 <= rows <= 2_000_000,
            colsi == cols as int,
            rw == rect_width as int,
            rh == rect_height as int,
            0 <= rw <= 100_000_000,
            0 <= rh <= 100_000_000,
            scene@ == old(scene)@ + Seq::new(i as nat, |j: int| bench_cmd(j, colsi, rw, rh)),
        decreases count - i,
    {
        let col = i % cols;
        let row = i / cols;
        proof {
            vstd::arithmetic::div_mod::lemma_fundamental_div_mod(i as int, cols as int);
            assert(0 <= (i as int) % (cols as int));
            assert(row as int <= i as int) by (nonlinear_arith)
                requires
                    i as int == (cols as int) * (row as int) + (i as int) % (cols as int),
                    0 <= (i as int) % (cols as int),
                    1 <= cols,
                    0 <= row as int,
            ;
            assert(0 <= (col as int) * rw <= 1000 * 100_000_000) by (nonlinear_arith)
                requires
                    0 <= col as int <= 1000,
                    0 <= rw <= 100_000_000,
            ;
            assert(0 <= (row as int) * rh <= 1_000_000 * 100_000_000) by (nonlinear_arith)
                requires
                    0 <= row as int <= 1_000_000,
                    0 <= rh <= 100_000_000,
            ;
        }
        let x = (col as i64) * rect_width;
        let y = (row as i64) * rect_height;
        let color = Color::rgb(
            ((i * 137) % 256) as u8,
            ((i * 211) % 256) as u8,
            ((i * 97) % 256) as u8,
        );
        scene.fill(
            FillRule::NonZero,
            Affine::identity(),
            &Brush::Solid(color),
            &Shape::Rect(Rect::new(x, y, x + rect_width, y + rect_height)),
        );
        proof {
            assert(Seq::new((i + 1) as nat, |j: int| bench_cmd(j, colsi, rw, rh)) =~= Seq::new(
                i as nat,
                |j: int| bench_cmd(j, colsi, rw, rh),
            ).push(bench_cmd(i as int, colsi, rw, rh)));
            assert(scene@ =~= old(scene)@ + Seq::new(
                (i + 1) as nat,
                |j: int| bench_cmd(j, colsi, rw, rh),
            ));
        }
        i = i + 1;
    }
    proof {
        assert(final(scene)@ =~= old(scene)@ + bench_cmds(
            width as int,
            height as int,
            count as int,
        ));
    }
}

} // verus!
