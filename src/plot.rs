//! Projection of sampled points onto the cells of a character grid.
//!
//! A point `(x, y)` inside the logical window `[x_min, x_max] x [y_min, y_max]`
//! lands on column `round((x - x_min) / (x_max - x_min) * width)` and row
//! `round((y_max - y) / (y_max - y_min) * height)`, rounding halves away from
//! zero. Rows grow downward while y grows upward. A cell is on the grid when
//! `0 <= col < width` and `0 <= row < height`; so `(x_min, y_max)` lands on
//! the top-left cell and `(x_max, y_min)` on `(width, height)`, just off it.
use vstd::prelude::*;
use vstd::arithmetic::div_mod::{lemma_div_is_ordered, lemma_fundamental_div_mod_converse};
use vstd::seq_lib::group_filter_ensures;
use crate::fixed::MICRO;
use crate::functions::Sample;

verus! {

/// Half-width of the default display window ([-10, 10]), in micro-units.
pub const DISPLAY_HALF_SPAN: i64 = 10 * MICRO;

/// The size of the character grid.
#[derive(PartialEq, Eq, Structural, Clone, Copy, Debug)]
pub struct Viewport {
    pub width: u16,
    pub height: u16,
}

/// The logical window mapped onto the grid, in micro-units.
#[derive(PartialEq, Eq, Structural, Clone, Copy, Debug)]
pub struct Bounds {
    pub x_min: i64,
    pub x_max: i64,
    pub y_min: i64,
    pub y_max: i64,
}

/// A (column, row) position on the grid.
#[derive(PartialEq, Eq, Structural, Clone, Copy, Debug)]
pub struct PlotCell {
    pub col: i64,
    pub row: i64,
}

impl Bounds {
    /// Both axes span a non-empty interval.
    pub open spec fn wf(&self) -> bool {
        self.x_min < self.x_max && self.y_min < self.y_max
    }
}

/// `n / d` rounded to the nearest integer, halves away from zero (`d > 0`).
pub open spec fn round_ratio(n: int, d: int) -> int {
    if n >= 0 { (2 * n + d) / (2 * d) } else { -((2 * (-n) + d) / (2 * d)) }
}

/// Column that `x` projects to.
pub open spec fn col_of(x: int, vp: Viewport, b: Bounds) -> int {
    round_ratio((x - b.x_min) * vp.width, b.x_max - b.x_min)
}

/// Row that `y` projects to.
pub open spec fn row_of(y: int, vp: Viewport, b: Bounds) -> int {
    round_ratio((b.y_max - y) * vp.height, b.y_max - b.y_min)
}

/// Whether the cell `(col, row)` lies on the grid.
pub open spec fn on_grid(col: int, row: int, vp: Viewport) -> bool {
    0 <= col < vp.width && 0 <= row < vp.height
}

/// Whether a sample is finite and projects onto the grid.
pub open spec fn visible(p: Sample, vp: Viewport, b: Bounds) -> bool {
    &&& p.y is Some
    &&& on_grid(col_of(p.x as int, vp, b), row_of(p.y.unwrap() as int, vp, b), vp)
}

/// The cell a finite sample projects to.
pub open spec fn cell_of(p: Sample, vp: Viewport, b: Bounds) -> PlotCell {
    PlotCell {
        col: col_of(p.x as int, vp, b) as i64,
        row: row_of(p.y.unwrap() as int, vp, b) as i64,
    }
}

/// The cells of the visible samples, in the order of the samples.
pub open spec fn series_of(points: Seq<Sample>, vp: Viewport, b: Bounds) -> Seq<PlotCell> {
    points.filter(|p: Sample| visible(p, vp, b)).map_values(|p: Sample| cell_of(p, vp, b))
}

/// `n / d` rounded half away from zero, for the magnitudes a projection produces.
fn round_div(n: i128, d: i128) -> (r: i128)
    requires
        0 < d <= 0x1_0000_0000_0000_0000,
        -0x1_0000_0000_0000_0000_0000 <= n <= 0x1_0000_0000_0000_0000_0000,
    ensures
        r == round_ratio(n as int, d as int),
        -0x1_0000_0000_0000_0000_0000 <= r <= 0x1_0000_0000_0000_0000_0000,
{
    let m: i128 = if n >= 0 { n } else { -n };
    let q = (2 * m + d) / (2 * d);
    proof {
        lemma_div_is_ordered(2 * m + d, 2 * (2 * m + d), 2 * d);
        assert(2 * (2 * m + d) / (2 * d) <= 2 * m + d) by (nonlinear_arith)
            requires d > 0, 2 * m + d >= 0;
        lemma_div_is_ordered(0, 2 * m + d, 2 * d);
        assert(q <= m) by (nonlinear_arith)
            requires q == (2 * m + d) / (2 * d), m >= 0, d >= 1;
    }
    if n >= 0 { q } else { -q }
}

/// Column and row of `(x, y)`, without narrowing.
fn cell_coords(x: i64, y: i64, vp: &Viewport, b: &Bounds) -> (r: (i128, i128))
    requires
        b.wf(),
    ensures
        r.0 == col_of(x as int, *vp, *b),
        r.1 == row_of(y as int, *vp, *b),
{
    let dx = x as i128 - b.x_min as i128;
    let dy = b.y_max as i128 - y as i128;
    let w = vp.width as i128;
    let h = vp.height as i128;
    assert(-0x1_0000_0000_0000_0000_0000 <= dx * w <= 0x1_0000_0000_0000_0000_0000) by (nonlinear_arith)
        requires -0x1_0000_0000_0000_0000 <= dx <= 0x1_0000_0000_0000_0000, 0 <= w <= 0xffff;
    assert(-0x1_0000_0000_0000_0000_0000 <= dy * h <= 0x1_0000_0000_0000_0000_0000) by (nonlinear_arith)
        requires -0x1_0000_0000_0000_0000 <= dy <= 0x1_0000_0000_0000_0000, 0 <= h <= 0xffff;
    let col = round_div(dx * w, b.x_max as i128 - b.x_min as i128);
    let row = round_div(dy * h, b.y_max as i128 - b.y_min as i128);
    (col, row)
}

/// The grid cell that `(x, y)` projects to.
pub fn project(x: i64, y: i64, viewport: &Viewport, bounds: &Bounds) -> (r: PlotCell)
    requires
        bounds.wf(),
        i64::MIN <= col_of(x as int, *viewport, *bounds) <= i64::MAX,
        i64::MIN <= row_of(y as int, *viewport, *bounds) <= i64::MAX,
    ensures
        r.col == col_of(x as int, *viewport, *bounds),
        r.row == row_of(y as int, *viewport, *bounds),
{
    let (col, row) = cell_coords(x, y, viewport, bounds);
    PlotCell { col: col as i64, row: row as i64 }
}

/// The cells of the finite samples of `points` that land on the grid, in order.
pub fn project_series(points: &Vec<Sample>, viewport: &Viewport, bounds: &Bounds) -> (r: Vec<PlotCell>)
    requires
        bounds.wf(),
    ensures
        r@ == series_of(points@, *viewport, *bounds),
{
    let ghost vp = *viewport;
    let ghost b = *bounds;
    let ghost keep = |p: Sample| visible(p, vp, b);
    let ghost cell = |p: Sample| cell_of(p, vp, b);
    let mut out: Vec<PlotCell> = Vec::new();
    let mut i: usize = 0;
    while i < points.len()
        invariant
            bounds.wf(),
            vp == *viewport,
            b == *bounds,
            keep == (|p: Sample| visible(p, vp, b)),
            cell == (|p: Sample| cell_of(p, vp, b)),
            i <= points.len(),
            out@ == points@.subrange(0, i as int).filter(keep).map_values(cell),
        decreases points.len() - i,
    {
        let p = points[i];
        let ghost before = points@.subrange(0, i as int);
        proof {
            assert(points@.subrange(0, i + 1) =~= before.push(p));
            before.lemma_filter_push(p, keep);
        }
        if let Some(y) = p.y {
            let (col, row) = cell_coords(p.x, y, viewport, bounds);
            if 0 <= col && col < viewport.width as i128 && 0 <= row && row < viewport.height as i128 {
                out.push(PlotCell { col: col as i64, row: row as i64 });
                assert(out@ =~= before.filter(keep).push(p).map_values(cell));
            } else {
                assert(!keep(p));
            }
        } else {
            assert(!keep(p));
        }
        i = i + 1;
    }
    assert(points@.subrange(0, points.len() as int) =~= points@);
    out
}

/// Projecting the window's corners: `(x_min, y_max)` lands on cell `(0, 0)`
/// and `(x_max, y_min)` on `(width, height)`.
pub proof fn lemma_corners(vp: Viewport, b: Bounds)
    requires
        b.wf(),
    ensures
        col_of(b.x_min as int, vp, b) == 0,
        row_of(b.y_max as int, vp, b) == 0,
        col_of(b.x_max as int, vp, b) == vp.width,
        row_of(b.y_min as int, vp, b) == vp.height,
{
    let dx = b.x_max - b.x_min;
    let dy = b.y_max - b.y_min;
    assert(0 * (vp.width as int) == 0);
    assert(0 * (vp.height as int) == 0);
    lemma_fundamental_div_mod_converse(dx, 2 * dx, 0, dx);
    lemma_fundamental_div_mod_converse(dy, 2 * dy, 0, dy);
    assert(2 * (dx * vp.width) + dx == vp.width * (2 * dx) + dx) by (nonlinear_arith);
    assert(2 * (dy * vp.height) + dy == vp.height * (2 * dy) + dy) by (nonlinear_arith);
    assert(dx * vp.width >= 0) by (nonlinear_arith) requires dx > 0;
    assert(dy * vp.height >= 0) by (nonlinear_arith) requires dy > 0;
    lemma_fundamental_div_mod_converse(2 * (dx * vp.width) + dx, 2 * dx, vp.width as int, dx);
    lemma_fundamental_div_mod_converse(2 * (dy * vp.height) + dy, 2 * dy, vp.height as int, dy);
}

/// A projected series holds exactly one cell per visible sample, and each of
/// its cells lies on the grid: points off the window are left out.
pub proof fn lemma_series_on_grid(points: Seq<Sample>, vp: Viewport, b: Bounds)
    ensures
        series_of(points, vp, b).len() == points.filter(|p: Sample| visible(p, vp, b)).len(),
        forall|i: int|
            0 <= i < series_of(points, vp, b).len() ==> on_grid(
                #[trigger] series_of(points, vp, b)[i].col as int,
                series_of(points, vp, b)[i].row as int,
                vp,
            ),
{
    broadcast use group_filter_ensures;
    let keep = |p: Sample| visible(p, vp, b);
    let kept = points.filter(keep);
    assert forall|i: int| 0 <= i < series_of(points, vp, b).len() implies on_grid(
        #[trigger] series_of(points, vp, b)[i].col as int,
        series_of(points, vp, b)[i].row as int,
        vp,
    ) by {
        assert(keep(kept[i]));
    }
}

/// A series of samples drawn against a logical window.
pub struct PlotWidget {
    pub data: Vec<Sample>,
    pub bounds: Bounds,
}

impl PlotWidget {
    /// A widget over the display window `[-10, 10] x [-10, 10]`.
    pub fn new(data: Vec<Sample>) -> (r: PlotWidget)
        ensures
            r.data@ == data@,
            r.bounds.x_min == -DISPLAY_HALF_SPAN,
            r.bounds.x_max == DISPLAY_HALF_SPAN,
            r.bounds.y_min == -DISPLAY_HALF_SPAN,
            r.bounds.y_max == DISPLAY_HALF_SPAN,
    {
        PlotWidget {
            data,
            bounds: Bounds {
                x_min: -DISPLAY_HALF_SPAN,
                x_max: DISPLAY_HALF_SPAN,
                y_min: -DISPLAY_HALF_SPAN,
                y_max: DISPLAY_HALF_SPAN,
            },
        }
    }

    /// The cells to mark on a grid of the given size.
    pub fn plot_cells(&self, area: &Viewport) -> (r: Vec<PlotCell>)
        requires
            self.bounds.wf(),
        ensures
            r@ == series_of(self.data@, *area, self.bounds),
    {
        project_series(&self.data, area, &self.bounds)
    }
}

} // verus!
