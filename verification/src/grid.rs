//! The grid renderer: a pure function from canvas size and node snapshot to
//! a sequence of drawing commands.
//!
//! The commands are for an abstract immediate-mode 2-D surface supplied by
//! the host: grid lines and axis labels spanning the data's bounding extent,
//! then one filled circle per node, colored by battery level. An empty node
//! set renders nothing. Pixel positions are in milli-pixels.

use vstd::prelude::*;
use crate::colors::battery_colors;
use crate::colors::spec_battery_colors;
use crate::colors::Rgb;
use crate::label::format_coord;
use crate::label::spec_format_coord;
use crate::node::all_wf;
use crate::node::Node;
use crate::node::NodeV;
use crate::scale::lemma_nodes_in_extent;
use crate::scale::spec_scale_ctx;
use crate::scale::spec_x_grid_coord;
use crate::scale::spec_x_pixel;
use crate::scale::spec_y_grid_coord;
use crate::scale::spec_y_pixel;
use crate::scale::ScaleCtx;
use crate::GRID_MARGIN;
use crate::MAX_CANVAS;
use crate::NODE_RADIUS;
use crate::NUM_SQUARES;
use crate::TEXT_PADDING;

verus! {

/// One drawing primitive for the host's 2-D surface. Positions, widths and
/// radii are in milli-pixels; colors are in milli-units per component.
#[derive(Debug, PartialEq)]
pub enum DrawCmd {
    Line { x1: i64, y1: i64, x2: i64, y2: i64, color: Rgb, width: i64 },
    Text { x: i64, y: i64, text: String },
    Circle { x: i64, y: i64, radius: i64, color: Rgb },
}

/// The mathematical value of a `DrawCmd`.
pub ghost enum DrawCmdV {
    Line { x1: i64, y1: i64, x2: i64, y2: i64, color: Rgb, width: i64 },
    Text { x: i64, y: i64, text: Seq<char> },
    Circle { x: i64, y: i64, radius: i64, color: Rgb },
}

impl View for DrawCmd {
    type V = DrawCmdV;

    open spec fn view(&self) -> DrawCmdV {
        match self {
            DrawCmd::Line { x1, y1, x2, y2, color, width } => DrawCmdV::Line {
                x1: *x1,
                y1: *y1,
                x2: *x2,
                y2: *y2,
                color: *color,
                width: *width,
            },
            DrawCmd::Text { x, y, text } => DrawCmdV::Text { x: *x, y: *y, text: text@ },
            DrawCmd::Circle { x, y, radius, color } => DrawCmdV::Circle {
                x: *x,
                y: *y,
                radius: *radius,
                color: *color,
            },
        }
    }
}

impl DeepView for DrawCmd {
    type V = DrawCmdV;

    open spec fn deep_view(&self) -> DrawCmdV {
        self@
    }
}

/// The light grey of the grid lines.
pub open spec fn spec_grid_color() -> Rgb {
    Rgb { r: 800, g: 800, b: 800 }
}

/// The two commands of vertical grid line `i`: the line itself and its
/// label, placed under the lower margin.
pub open spec fn spec_vline_pair(ctx: ScaleCtx, i: int) -> Seq<DrawCmdV> {
    let coord = spec_x_grid_coord(ctx, i);
    let xp = spec_x_pixel(ctx, coord);
    seq![
        DrawCmdV::Line {
            x1: xp as i64,
            y1: (GRID_MARGIN * 1000) as i64,
            x2: xp as i64,
            y2: ((ctx.height - GRID_MARGIN) * 1000) as i64,
            color: spec_grid_color(),
            width: 1000,
        },
        DrawCmdV::Text {
            x: (xp - TEXT_PADDING) as i64,
            y: (ctx.height * 1000 - GRID_MARGIN * 1000 / 2) as i64,
            text: spec_format_coord(coord),
        },
    ]
}

/// The two commands of horizontal grid line `i`: the line itself and its
/// label, placed at the left edge.
pub open spec fn spec_hline_pair(ctx: ScaleCtx, i: int) -> Seq<DrawCmdV> {
    let coord = spec_y_grid_coord(ctx, i);
    let yp = spec_y_pixel(ctx, coord);
    seq![
        DrawCmdV::Line {
            x1: (GRID_MARGIN * 1000) as i64,
            y1: yp as i64,
            x2: ((ctx.width - GRID_MARGIN) * 1000) as i64,
            y2: yp as i64,
            color: spec_grid_color(),
            width: 1000,
        },
        DrawCmdV::Text { x: TEXT_PADDING, y: yp as i64, text: spec_format_coord(coord) },
    ]
}

/// The commands of the first `n` vertical grid lines, in order.
pub open spec fn spec_vline_cmds(ctx: ScaleCtx, n: int) -> Seq<DrawCmdV>
    decreases n,
{
    if n <= 0 {
        Seq::empty()
    } else {
        spec_vline_cmds(ctx, n - 1) + spec_vline_pair(ctx, n - 1)
    }
}

/// The commands of the first `n` horizontal grid lines, in order.
pub open spec fn spec_hline_cmds(ctx: ScaleCtx, n: int) -> Seq<DrawCmdV>
    decreases n,
{
    if n <= 0 {
        Seq::empty()
    } else {
        spec_hline_cmds(ctx, n - 1) + spec_hline_pair(ctx, n - 1)
    }
}

/// The marker of node `i`: a filled circle at the node's pixel position,
/// colored by its battery level.
pub open spec fn spec_node_cmd(ctx: ScaleCtx, nv: NodeV) -> DrawCmdV {
    DrawCmdV::Circle {
        x: spec_x_pixel(ctx, nv.coords.x as int) as i64,
        y: spec_y_pixel(ctx, nv.coords.y as int) as i64,
        radius: NODE_RADIUS,
        color: spec_battery_colors(nv.battery as int),
    }
}

/// The markers of the first `n` nodes, in order.
pub open spec fn spec_node_cmds(ctx: ScaleCtx, s: Seq<NodeV>, n: int) -> Seq<DrawCmdV>
    decreases n,
{
    if n <= 0 {
        Seq::empty()
    } else {
        spec_node_cmds(ctx, s, n - 1) + seq![spec_node_cmd(ctx, s[n - 1])]
    }
}

/// Everything one render of canvas `width` by `height` over node snapshot
/// `s` draws: nothing for an empty snapshot; otherwise the vertical grid
/// lines with their labels, the horizontal ones, then one marker per node.
pub open spec fn spec_render(width: int, height: int, s: Seq<NodeV>) -> Seq<DrawCmdV> {
    if s.len() == 0 {
        Seq::empty()
    } else {
        let ctx = spec_scale_ctx(width, height, s);
        spec_vline_cmds(ctx, NUM_SQUARES + 1) + spec_hline_cmds(ctx, NUM_SQUARES + 1)
            + spec_node_cmds(ctx, s, s.len() as int)
    }
}

/// Render one frame: the exact command sequence that `spec_render` gives
/// for this canvas size and node snapshot. An empty snapshot renders
/// nothing.
pub fn render(width: i64, height: i64, nodes: &Vec<Node>) -> (r: Vec<DrawCmd>)
    requires
        all_wf(nodes.deep_view()),
        2 * GRID_MARGIN < width <= MAX_CANVAS,
        2 * GRID_MARGIN < height <= MAX_CANVAS,
    ensures
        r.deep_view() == spec_render(width as int, height as int, nodes.deep_view()),
        nodes.len() == 0 ==> r.len() == 0,
{
    let ghost s = nodes.deep_view();
    let mut cmds: Vec<DrawCmd> = Vec::new();
    if nodes.len() == 0 {
        assert(cmds.deep_view() =~= spec_render(width as int, height as int, s));
        return cmds;
    }
    let ctx = ScaleCtx::new(width, height, nodes);
    let n_lines = NUM_SQUARES + 1;
    for i in 0..n_lines
        invariant
            ctx.wf(),
            ctx == spec_scale_ctx(width as int, height as int, s),
            n_lines == NUM_SQUARES + 1,
            cmds.deep_view() == spec_vline_cmds(ctx, i as int),
    {
        let coord = ctx.x_grid_coord(i);
        let xp = ctx.x_coord_to_pixel(coord);
        cmds.push(
            DrawCmd::Line {
                x1: xp,
                y1: GRID_MARGIN * 1000,
                x2: xp,
                y2: (ctx.height - GRID_MARGIN) * 1000,
                color: Rgb { r: 800, g: 800, b: 800 },
                width: 1000,
            },
        );
        cmds.push(
            DrawCmd::Text {
                x: xp - TEXT_PADDING,
                y: ctx.height * 1000 - GRID_MARGIN * 1000 / 2,
                text: format_coord(coord),
            },
        );
        assert(cmds.deep_view() =~= spec_vline_cmds(ctx, i + 1));
    }
    for i in 0..n_lines
        invariant
            ctx.wf(),
            ctx == spec_scale_ctx(width as int, height as int, s),
            n_lines == NUM_SQUARES + 1,
            cmds.deep_view() == spec_vline_cmds(ctx, NUM_SQUARES + 1) + spec_hline_cmds(
                ctx,
                i as int,
            ),
    {
        let coord = ctx.y_grid_coord(i);
        let yp = ctx.y_coord_to_pixel(coord);
        cmds.push(
            DrawCmd::Line {
                x1: GRID_MARGIN * 1000,
                y1: yp,
                x2: (ctx.width - GRID_MARGIN) * 1000,
                y2: yp,
                color: Rgb { r: 800, g: 800, b: 800 },
                width: 1000,
            },
        );
        cmds.push(DrawCmd::Text { x: TEXT_PADDING, y: yp, text: format_coord(coord) });
        proof {
            let a = spec_vline_cmds(ctx, NUM_SQUARES + 1);
            let b = spec_hline_cmds(ctx, i as int);
            let p = spec_hline_pair(ctx, i as int);
            assert(a + (b + p) =~= (a + b) + p);
            assert(cmds.deep_view() =~= (a + b) + p);
        }
    }
    let n = nodes.len();
    for i in 0..n
        invariant
            ctx.wf(),
            ctx == spec_scale_ctx(width as int, height as int, s),
            n == nodes.len() == s.len(),
            s == nodes.deep_view(),
            s.len() > 0,
            all_wf(s),
            2 * GRID_MARGIN < width <= MAX_CANVAS,
            2 * GRID_MARGIN < height <= MAX_CANVAS,
            cmds.deep_view() == spec_vline_cmds(ctx, NUM_SQUARES + 1) + spec_hline_cmds(
                ctx,
                NUM_SQUARES + 1,
            ) + spec_node_cmds(ctx, s, i as int),
    {
        let node = &nodes[i];
        proof {
            lemma_nodes_in_extent(width as int, height as int, s, i as int);
        }
        let xp = ctx.x_coord_to_pixel(node.coords.x);
        let yp = ctx.y_coord_to_pixel(node.coords.y);
        let color = battery_colors(node.battery);
        cmds.push(DrawCmd::Circle { x: xp, y: yp, radius: NODE_RADIUS, color });
        proof {
            let ab = spec_vline_cmds(ctx, NUM_SQUARES + 1) + spec_hline_cmds(ctx, NUM_SQUARES + 1);
            let c = spec_node_cmds(ctx, s, i as int);
            let p = seq![spec_node_cmd(ctx, s[i as int])];
            assert(ab + (c + p) =~= (ab + c) + p);
            assert(cmds.deep_view() =~= (ab + c) + p);
        }
    }
    cmds
}

/// Rendering is deterministic: two renders of the same canvas size and the
/// same node snapshot produce identical drawing command sequences, so a
/// render may be re-invoked on every frame without change of output.
pub proof fn lemma_render_deterministic(
    width: int,
    height: int,
    s: Seq<NodeV>,
    c1: Seq<DrawCmdV>,
    c2: Seq<DrawCmdV>,
)
    requires
        c1 == spec_render(width, height, s),
        c2 == spec_render(width, height, s),
    ensures
        c1 == c2,
{
}

} // verus!
