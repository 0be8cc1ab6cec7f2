//! The affine mapping from data coordinates to pixel coordinates.
//!
//! A transform is derived from the current canvas size and the bounding
//! extent of the node set, leaving a fixed margin on every side for axis
//! labels. A degenerate extent (all nodes sharing an axis coordinate) is
//! widened symmetrically to one data unit, so that single-point or collinear
//! node sets still map to finite pixel positions. Pixel results are in
//! milli-pixels.

use vstd::prelude::*;
use crate::node::Node;
use crate::node::NodeV;
use crate::node::all_wf;
use crate::COORD_LIMIT;
use crate::GRID_MARGIN;
use crate::MAX_CANVAS;
use crate::NUM_SQUARES;
use crate::SCALE;

verus! {

/// Least x coordinate over a nonempty node sequence.
pub open spec fn spec_min_x(s: Seq<NodeV>) -> int
    recommends
        s.len() > 0,
    decreases s.len(),
{
    if s.len() <= 1 {
        s[0].coords.x as int
    } else {
        let rest = spec_min_x(s.drop_last());
        let last = s.last().coords.x as int;
        if last < rest {
            last
        } else {
            rest
        }
    }
}

/// Greatest x coordinate over a nonempty node sequence.
pub open spec fn spec_max_x(s: Seq<NodeV>) -> int
    recommends
        s.len() > 0,
    decreases s.len(),
{
    if s.len() <= 1 {
        s[0].coords.x as int
    } else {
        let rest = spec_max_x(s.drop_last());
        let last = s.last().coords.x as int;
        if last > rest {
            last
        } else {
            rest
        }
    }
}

/// Least y coordinate over a nonempty node sequence.
pub open spec fn spec_min_y(s: Seq<NodeV>) -> int
    recommends
        s.len() > 0,
    decreases s.len(),
{
    if s.len() <= 1 {
        s[0].coords.y as int
    } else {
        let rest = spec_min_y(s.drop_last());
        let last = s.last().coords.y as int;
        if last < rest {
            last
        } else {
            rest
        }
    }
}

/// Greatest y coordinate over a nonempty node sequence.
pub open spec fn spec_max_y(s: Seq<NodeV>) -> int
    recommends
        s.len() > 0,
    decreases s.len(),
{
    if s.len() <= 1 {
        s[0].coords.y as int
    } else {
        let rest = spec_max_y(s.drop_last());
        let last = s.last().coords.y as int;
        if last > rest {
            last
        } else {
            rest
        }
    }
}

/// The four extremes bound every node of the sequence, and over a
/// well-formed sequence they stay within the coordinate bound.
pub proof fn lemma_bounds(s: Seq<NodeV>)
    requires
        s.len() > 0,
    ensures
        forall|i: int|
            0 <= i < s.len() ==> spec_min_x(s) <= (#[trigger] s[i]).coords.x <= spec_max_x(s),
        forall|i: int|
            0 <= i < s.len() ==> spec_min_y(s) <= (#[trigger] s[i]).coords.y <= spec_max_y(s),
        all_wf(s) ==> -COORD_LIMIT <= spec_min_x(s) <= spec_max_x(s) <= COORD_LIMIT,
        all_wf(s) ==> -COORD_LIMIT <= spec_min_y(s) <= spec_max_y(s) <= COORD_LIMIT,
    decreases s.len(),
{
    if s.len() == 1 {
        assert(s[0].wf() ==> -COORD_LIMIT <= s[0].coords.x <= COORD_LIMIT);
    } else {
        let t = s.drop_last();
        lemma_bounds(t);
        assert(all_wf(s) ==> all_wf(t)) by {
            if all_wf(s) {
                assert forall|i: int| 0 <= i < t.len() implies (#[trigger] t[i]).wf() by {
                    assert(t[i] == s[i]);
                }
            }
        }
        assert(s.last() == s[s.len() - 1]);
        assert(all_wf(s) ==> s[s.len() - 1].wf());
        assert forall|i: int|
            0 <= i < s.len() implies spec_min_x(s) <= (#[trigger] s[i]).coords.x <= spec_max_x(s)
            && spec_min_y(s) <= s[i].coords.y <= spec_max_y(s) by {
            if i < s.len() - 1 {
                assert(s[i] == t[i]);
                assert(spec_min_x(t) <= t[i].coords.x <= spec_max_x(t));
                assert(spec_min_y(t) <= t[i].coords.y <= spec_max_y(t));
            }
        }
    }
}

/// The transform from data coordinates to pixel coordinates for one canvas
/// size and one bounding extent, margins already accounted for. `min_x`,
/// `min_y`, `range_x` and `range_y` are the (possibly widened) extent in
/// milli-units; `width` and `height` are the canvas size in pixels.
#[derive(Clone, Copy, Debug, PartialEq, Eq, Structural)]
pub struct ScaleCtx {
    pub min_x: i64,
    pub min_y: i64,
    pub range_x: i64,
    pub range_y: i64,
    pub width: i64,
    pub height: i64,
}

/// Widen a degenerate extent: a zero range becomes one data unit, centered
/// on the shared coordinate; any other extent is kept as it is.
pub open spec fn spec_adjust(min: int, max: int) -> (int, int) {
    if max - min == 0 {
        (min - SCALE / 2, SCALE as int)
    } else {
        (min, max - min)
    }
}

/// The transform that `ScaleCtx::new` derives from a canvas size and a
/// nonempty node sequence.
pub open spec fn spec_scale_ctx(width: int, height: int, s: Seq<NodeV>) -> ScaleCtx {
    let x = spec_adjust(spec_min_x(s), spec_max_x(s));
    let y = spec_adjust(spec_min_y(s), spec_max_y(s));
    ScaleCtx {
        min_x: x.0 as i64,
        min_y: y.0 as i64,
        range_x: x.1 as i64,
        range_y: y.1 as i64,
        width: width as i64,
        height: height as i64,
    }
}

impl ScaleCtx {
    /// Positive ranges, an extent within the coordinate bound, and a canvas
    /// that the margins fit into.
    pub open spec fn wf(self) -> bool {
        0 < self.range_x <= 2 * COORD_LIMIT && 0 < self.range_y <= 2 * COORD_LIMIT
            && -(COORD_LIMIT + SCALE / 2) <= self.min_x && self.min_x + self.range_x <= COORD_LIMIT
            + SCALE / 2 && -(COORD_LIMIT + SCALE / 2) <= self.min_y && self.min_y + self.range_y
            <= COORD_LIMIT + SCALE / 2 && 2 * GRID_MARGIN < self.width <= MAX_CANVAS && 2
            * GRID_MARGIN < self.height <= MAX_CANVAS
    }
}

/// The horizontal pixel position of data coordinate `c` under `ctx`, in
/// milli-pixels: the left margin plus the coordinate's offset into the
/// extent, scaled to the drawable width.
pub open spec fn spec_x_pixel(ctx: ScaleCtx, c: int) -> int {
    GRID_MARGIN * 1000 + (c - ctx.min_x) * ((ctx.width - 2 * GRID_MARGIN) * 1000) / ctx.range_x as int
}

/// The vertical pixel position of data coordinate `c` under `ctx`, in
/// milli-pixels; the y axis is inverted, so data-up maps to pixel-up.
pub open spec fn spec_y_pixel(ctx: ScaleCtx, c: int) -> int {
    (ctx.height - GRID_MARGIN) * 1000 - (c - ctx.min_y) * ((ctx.height - 2 * GRID_MARGIN) * 1000)
        / ctx.range_y as int
}

/// For `0 <= diff <= range`, scaling `diff` by `dm / range` stays within
/// `[0, dm]`.
proof fn lemma_scale_div_bound(diff: int, dm: int, range: int)
    by (nonlinear_arith)
    requires
        0 <= diff <= range,
        0 < range,
        0 <= dm,
    ensures
        0 <= diff * dm / range <= dm,
{
}

/// Every coordinate within a transform's extent maps into the drawable band
/// `[GRID_MARGIN, width - GRID_MARGIN]` of the x axis, in milli-pixels.
pub proof fn lemma_x_pixel_in_bounds(ctx: ScaleCtx, c: int)
    requires
        ctx.wf(),
        ctx.min_x <= c <= ctx.min_x + ctx.range_x,
    ensures
        GRID_MARGIN * 1000 <= spec_x_pixel(ctx, c) <= (ctx.width - GRID_MARGIN) * 1000,
{
    lemma_scale_div_bound(c - ctx.min_x, (ctx.width - 2 * GRID_MARGIN) * 1000, ctx.range_x as int);
}

/// Every coordinate within a transform's extent maps into the drawable band
/// `[GRID_MARGIN, height - GRID_MARGIN]` of the y axis, in milli-pixels.
pub proof fn lemma_y_pixel_in_bounds(ctx: ScaleCtx, c: int)
    requires
        ctx.wf(),
        ctx.min_y <= c <= ctx.min_y + ctx.range_y,
    ensures
        GRID_MARGIN * 1000 <= spec_y_pixel(ctx, c) <= (ctx.height - GRID_MARGIN) * 1000,
{
    lemma_scale_div_bound(c - ctx.min_y, (ctx.height - 2 * GRID_MARGIN) * 1000, ctx.range_y as int);
}

/// The bounding extent of a nonempty node set: least x, greatest x, least y,
/// greatest y, in milli-units.
pub fn get_bounds(nodes: &Vec<Node>) -> (r: (i64, i64, i64, i64))
    requires
        nodes.len() > 0,
    ensures
        r.0 == spec_min_x(nodes.deep_view()),
        r.1 == spec_max_x(nodes.deep_view()),
        r.2 == spec_min_y(nodes.deep_view()),
        r.3 == spec_max_y(nodes.deep_view()),
{
    let ghost s = nodes.deep_view();
    let first = &nodes[0];
    let mut min_x = first.coords.x;
    let mut max_x = first.coords.x;
    let mut min_y = first.coords.y;
    let mut max_y = first.coords.y;
    let n = nodes.len();
    proof {
        assert(s.take(1) =~= seq![s[0]]);
    }
    for i in 1..n
        invariant
            n == nodes.len() == s.len(),
            s == nodes.deep_view(),
            1 <= i <= n,
            min_x == spec_min_x(s.take(i as int)),
            max_x == spec_max_x(s.take(i as int)),
            min_y == spec_min_y(s.take(i as int)),
            max_y == spec_max_y(s.take(i as int)),
    {
        let node = &nodes[i];
        proof {
            assert(s.take(i + 1).drop_last() =~= s.take(i as int));
            assert(s.take(i + 1).last() == s[i as int]);
        }
        if node.coords.x < min_x {
            min_x = node.coords.x;
        }
        if node.coords.x > max_x {
            max_x = node.coords.x;
        }
        if node.coords.y < min_y {
            min_y = node.coords.y;
        }
        if node.coords.y > max_y {
            max_y = node.coords.y;
        }
    }
    proof {
        assert(s.take(n as int) =~= s);
    }
    (min_x, max_x, min_y, max_y)
}

impl ScaleCtx {
    /// Derive the transform for a canvas of `width` by `height` pixels and
    /// the given nonempty node set, widening a degenerate extent to one
    /// data unit.
    pub fn new(width: i64, height: i64, nodes: &Vec<Node>) -> (r: Self)
        requires
            nodes.len() > 0,
            all_wf(nodes.deep_view()),
            2 * GRID_MARGIN < width <= MAX_CANVAS,
            2 * GRID_MARGIN < height <= MAX_CANVAS,
        ensures
            r == spec_scale_ctx(width as int, height as int, nodes.deep_view()),
            r.wf(),
    {
        proof {
            lemma_bounds(nodes.deep_view());
        }
        let (min_x, max_x, min_y, max_y) = get_bounds(nodes);
        let (min_x, range_x) = if max_x - min_x == 0 {
            (min_x - SCALE / 2, SCALE)
        } else {
            (min_x, max_x - min_x)
        };
        let (min_y, range_y) = if max_y - min_y == 0 {
            (min_y - SCALE / 2, SCALE)
        } else {
            (min_y, max_y - min_y)
        };
        ScaleCtx { min_x, min_y, range_x, range_y, width, height }
    }

    /// Map a data x coordinate within the extent to its pixel position, in
    /// milli-pixels; the result always lies inside the horizontal margins.
    pub fn x_coord_to_pixel(&self, coord: i64) -> (r: i64)
        requires
            self.wf(),
            self.min_x <= coord <= self.min_x + self.range_x,
        ensures
            r == spec_x_pixel(*self, coord as int),
            GRID_MARGIN * 1000 <= r <= (self.width - GRID_MARGIN) * 1000,
    {
        let diff = coord - self.min_x;
        let dm = (self.width - 2 * GRID_MARGIN) * 1000;
        proof {
            assert(diff as int * dm as int <= 2 * COORD_LIMIT * (MAX_CANVAS * 1000))
                by (nonlinear_arith)
                requires
                    0 <= diff as int <= 2 * COORD_LIMIT,
                    0 <= dm as int <= MAX_CANVAS * 1000,
            ;
            lemma_x_pixel_in_bounds(*self, coord as int);
        }
        GRID_MARGIN * 1000 + diff * dm / self.range_x
    }

    /// Map a data y coordinate within the extent to its pixel position, in
    /// milli-pixels; the y axis is inverted and the result always lies
    /// inside the vertical margins.
    pub fn y_coord_to_pixel(&self, coord: i64) -> (r: i64)
        requires
            self.wf(),
            self.min_y <= coord <= self.min_y + self.range_y,
        ensures
            r == spec_y_pixel(*self, coord as int),
            GRID_MARGIN * 1000 <= r <= (self.height - GRID_MARGIN) * 1000,
    {
        let diff = coord - self.min_y;
        let dm = (self.height - 2 * GRID_MARGIN) * 1000;
        proof {
            assert(diff as int * dm as int <= 2 * COORD_LIMIT * (MAX_CANVAS * 1000))
                by (nonlinear_arith)
                requires
                    0 <= diff as int <= 2 * COORD_LIMIT,
                    0 <= dm as int <= MAX_CANVAS * 1000,
            ;
            lemma_y_pixel_in_bounds(*self, coord as int);
        }
        (self.height - GRID_MARGIN) * 1000 - diff * dm / self.range_y
    }
}

/// The data x coordinate of vertical grid line `i` of `NUM_SQUARES + 1`,
/// evenly spaced over the extent.
pub open spec fn spec_x_grid_coord(ctx: ScaleCtx, i: int) -> int {
    ctx.min_x + i * ctx.range_x / NUM_SQUARES as int
}

/// The data y coordinate of horizontal grid line `i` of `NUM_SQUARES + 1`,
/// evenly spaced over the extent.
pub open spec fn spec_y_grid_coord(ctx: ScaleCtx, i: int) -> int {
    ctx.min_y + i * ctx.range_y / NUM_SQUARES as int
}

impl ScaleCtx {
    /// The data x coordinate of vertical grid line `i`; it stays within the
    /// extent.
    pub fn x_grid_coord(&self, i: i64) -> (r: i64)
        requires
            self.wf(),
            0 <= i <= NUM_SQUARES,
        ensures
            r == spec_x_grid_coord(*self, i as int),
            self.min_x <= r <= self.min_x + self.range_x,
    {
        proof {
            assert(0 <= i as int * self.range_x as int <= NUM_SQUARES as int * self.range_x as int)
                by (nonlinear_arith)
                requires
                    0 <= i as int <= NUM_SQUARES as int,
                    0 <= self.range_x as int,
            ;
            assert(i as int * self.range_x as int / NUM_SQUARES as int <= self.range_x as int) by {
                vstd::arithmetic::div_mod::lemma_div_is_ordered(
                    i as int * self.range_x as int,
                    NUM_SQUARES as int * self.range_x as int,
                    NUM_SQUARES as int,
                );
                vstd::arithmetic::div_mod::lemma_div_multiples_vanish(
                    self.range_x as int,
                    NUM_SQUARES as int,
                );
            }
        }
        self.min_x + i * self.range_x / NUM_SQUARES
    }

    /// The data y coordinate of horizontal grid line `i`; it stays within
    /// the extent.
    pub fn y_grid_coord(&self, i: i64) -> (r: i64)
        requires
            self.wf(),
            0 <= i <= NUM_SQUARES,
        ensures
            r == spec_y_grid_coord(*self, i as int),
            self.min_y <= r <= self.min_y + self.range_y,
    {
        proof {
            assert(0 <= i as int * self.range_y as int <= NUM_SQUARES as int * self.range_y as int)
                by (nonlinear_arith)
                requires
                    0 <= i as int <= NUM_SQUARES as int,
                    0 <= self.range_y as int,
            ;
            assert(i as int * self.range_y as int / NUM_SQUARES as int <= self.range_y as int) by {
                vstd::arithmetic::div_mod::lemma_div_is_ordered(
                    i as int * self.range_y as int,
                    NUM_SQUARES as int * self.range_y as int,
                    NUM_SQUARES as int,
                );
                vstd::arithmetic::div_mod::lemma_div_multiples_vanish(
                    self.range_y as int,
                    NUM_SQUARES as int,
                );
            }
        }
        self.min_y + i * self.range_y / NUM_SQUARES
    }
}

/// Every node of a nonempty set lies within the extent of the transform
/// that `spec_scale_ctx` derives for it, even after a degenerate extent is
/// widened.
pub proof fn lemma_nodes_in_extent(width: int, height: int, s: Seq<NodeV>, i: int)
    requires
        s.len() > 0,
        all_wf(s),
        0 <= i < s.len(),
    ensures
        spec_scale_ctx(width, height, s).min_x <= s[i].coords.x <= spec_scale_ctx(width, height, s).min_x
            + spec_scale_ctx(width, height, s).range_x,
        spec_scale_ctx(width, height, s).min_y <= s[i].coords.y <= spec_scale_ctx(width, height, s).min_y
            + spec_scale_ctx(width, height, s).range_y,
{
    lemma_bounds(s);
}

/// The derived transform of any nonempty, well-formed node set is well
/// formed, for any canvas that the margins fit into.
pub proof fn lemma_scale_ctx_wf(width: int, height: int, s: Seq<NodeV>)
    requires
        s.len() > 0,
        all_wf(s),
        2 * GRID_MARGIN < width <= MAX_CANVAS,
        2 * GRID_MARGIN < height <= MAX_CANVAS,
    ensures
        spec_scale_ctx(width, height, s).wf(),
{
    lemma_bounds(s);
}

/// Every node's coordinates map into the drawable band
/// `[GRID_MARGIN, size - GRID_MARGIN]` on both axes: the x pixel of every
/// node lies within the horizontal margins and the y pixel within the
/// vertical ones, for any nonempty well-formed node set and any canvas that
/// the margins fit into.
pub proof fn lemma_node_pixels_in_bounds(width: int, height: int, s: Seq<NodeV>, i: int)
    requires
        s.len() > 0,
        all_wf(s),
        2 * GRID_MARGIN < width <= MAX_CANVAS,
        2 * GRID_MARGIN < height <= MAX_CANVAS,
        0 <= i < s.len(),
    ensures
        GRID_MARGIN * 1000 <= spec_x_pixel(spec_scale_ctx(width, height, s), s[i].coords.x as int)
            <= (width - GRID_MARGIN) * 1000,
        GRID_MARGIN * 1000 <= spec_y_pixel(spec_scale_ctx(width, height, s), s[i].coords.y as int)
            <= (height - GRID_MARGIN) * 1000,
{
    let ctx = spec_scale_ctx(width, height, s);
    lemma_scale_ctx_wf(width, height, s);
    lemma_nodes_in_extent(width, height, s, i);
    lemma_x_pixel_in_bounds(ctx, s[i].coords.x as int);
    lemma_y_pixel_in_bounds(ctx, s[i].coords.y as int);
}

} // verus!
