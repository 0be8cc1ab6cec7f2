//! The timer-driven simulation: a three-state run control and the per-tick
//! mutation of the node registry.
//!
//! Each tick reads the current run state once. `Paused` changes nothing;
//! `Running` perturbs every node by uniform random draws; `Reset` restores
//! the initial configuration and hands the run state back to `Paused`. The
//! host requests a repaint after every tick, whatever the state.
//!
//! A random draw is modeled as an integer in `[0, SCALE)` milli-units, one
//! thousandth of a unit each. Under `Running`, a node's battery moves by
//! `(draw - SCALE/2) * 3` milli-units, floored at zero; while the battery
//! stays positive each coordinate moves by `draw * 5` milli-units — the
//! walk is biased upward by design, not symmetric. Batteries and positions
//! saturate at their machine bounds.

use vstd::prelude::*;
use crate::node::all_wf;
use crate::node::Coords;
use crate::node::Node;
use crate::node::NodeRegistry;
use crate::node::NodeV;
use crate::node::RegistryV;
use crate::BATTERY_LIMIT;
use crate::COORD_LIMIT;
use crate::SCALE;

verus! {

/// The three-way run control state, owned by the host's controls and read
/// once per tick.
#[derive(Clone, Copy, Debug, PartialEq, Eq, Structural)]
pub enum RunState {
    Paused,
    Running,
    Reset,
}

/// The four uniform draws one node consumes in one `Running` tick: one for
/// the battery and one per coordinate.
pub ghost struct Draw {
    pub b: i64,
    pub x: i64,
    pub y: i64,
    pub z: i64,
}

/// Every component of the draw lies in `[0, SCALE)`.
pub open spec fn draw_ok(d: Draw) -> bool {
    0 <= d.b < SCALE && 0 <= d.x < SCALE && 0 <= d.y < SCALE && 0 <= d.z < SCALE
}

/// Every draw of the sequence is in range.
pub open spec fn draws_ok(ds: Seq<Draw>) -> bool {
    forall|i: int| 0 <= i < ds.len() ==> draw_ok(#[trigger] ds[i])
}

/// Relies on rand::random_range: a uniform draw from the given nonempty
/// range, always within it.
#[verifier::external_body]
fn random_milli() -> (r: i64)
    ensures
        0 <= r < SCALE,
{
    rand::random_range(0..1000)
}

/// A coordinate after moving up from `v`, saturated at the coordinate bound.
pub open spec fn spec_clamp_coord(v: int) -> i64 {
    if v > COORD_LIMIT {
        COORD_LIMIT
    } else {
        v as i64
    }
}

/// One node after one `Running` tick with draw `d`: the battery moves by
/// `(d.b - SCALE/2) * 3` milli-units, floored at zero and saturated at
/// `BATTERY_LIMIT`; if the new battery is positive, each coordinate moves
/// up by five times its draw, saturated at `COORD_LIMIT`; a node whose new
/// battery is zero keeps its position. The name never changes.
pub open spec fn spec_step_node(n: NodeV, d: Draw) -> NodeV {
    let moved = n.battery + (d.b - SCALE / 2) * 3;
    let battery = if moved < 0 {
        0
    } else if moved > BATTERY_LIMIT {
        BATTERY_LIMIT
    } else {
        moved as i64
    };
    if battery > 0 {
        NodeV {
            name: n.name,
            coords: Coords {
                x: spec_clamp_coord(n.coords.x + d.x * 5),
                y: spec_clamp_coord(n.coords.y + d.y * 5),
                z: spec_clamp_coord(n.coords.z + d.z * 5),
            },
            battery,
        }
    } else {
        NodeV { name: n.name, coords: n.coords, battery }
    }
}

/// Advance one node by one `Running` tick with the four draws given.
pub fn step_node(node: &Node, r_b: i64, r_x: i64, r_y: i64, r_z: i64) -> (r: Node)
    requires
        node@.wf(),
        0 <= r_b < SCALE,
        0 <= r_x < SCALE,
        0 <= r_y < SCALE,
        0 <= r_z < SCALE,
    ensures
        r@ == spec_step_node(node@, Draw { b: r_b, x: r_x, y: r_y, z: r_z }),
        r@.wf(),
{
    let moved = node.battery + (r_b - SCALE / 2) * 3;
    let battery = if moved < 0 {
        0
    } else if moved > BATTERY_LIMIT {
        BATTERY_LIMIT
    } else {
        moved
    };
    let coords = if battery > 0 {
        Coords {
            x: clamp_coord(node.coords.x + r_x * 5),
            y: clamp_coord(node.coords.y + r_y * 5),
            z: clamp_coord(node.coords.z + r_z * 5),
        }
    } else {
        node.coords
    };
    Node { name: node.name.clone(), coords, battery }
}

fn clamp_coord(v: i64) -> (r: i64)
    ensures
        r == spec_clamp_coord(v as int),
{
    if v > COORD_LIMIT {
        COORD_LIMIT
    } else {
        v
    }
}

/// Every node of the snapshot after one `Running` tick with one draw per
/// node.
pub open spec fn spec_tick_nodes(s: Seq<NodeV>, ds: Seq<Draw>) -> Seq<NodeV>
    recommends
        ds.len() == s.len(),
{
    Seq::new(s.len(), |i: int| spec_step_node(s[i], ds[i]))
}

/// Run one tick of the simulation over the registry, dispatching on the run
/// state read for this tick, and give back the run state that follows it:
/// `Paused` mutates nothing; `Running` advances every node by fresh uniform
/// draws; `Reset` restores the initial configuration exactly and falls back
/// to `Paused`. The initial configuration itself never changes. The host
/// should repaint after every tick, whatever the state was.
pub fn tick(reg: &mut NodeRegistry, state: RunState) -> (next: RunState)
    requires
        old(reg)@.wf(),
    ensures
        final(reg)@.wf(),
        final(reg)@.init == old(reg)@.init,
        state == RunState::Paused ==> final(reg)@ == old(reg)@ && next == RunState::Paused,
        state == RunState::Reset ==> final(reg)@.nodes == old(reg)@.init && next
            == RunState::Paused,
        state == RunState::Running ==> next == RunState::Running && exists|ds: Seq<Draw>|
            ds.len() == old(reg)@.nodes.len() && #[trigger] draws_ok(ds) && final(reg)@.nodes
                == spec_tick_nodes(old(reg)@.nodes, ds),
{
    match state {
        RunState::Paused => RunState::Paused,
        RunState::Running => {
            let n = reg.len();
            let ghost s0 = reg@.nodes;
            let ghost mut ds: Seq<Draw> = Seq::empty();
            for i in 0..n
                invariant
                    reg@.wf(),
                    reg@.init == old(reg)@.init,
                    reg@.nodes.len() == n == s0.len(),
                    s0 == old(reg)@.nodes,
                    ds.len() == i,
                    draws_ok(ds),
                    forall|k: int|
                        0 <= k < i ==> reg@.nodes[k] == spec_step_node(s0[k], #[trigger] ds[k]),
                    forall|k: int| i <= k < n ==> reg@.nodes[k] == #[trigger] s0[k],
            {
                let r_b = random_milli();
                let r_x = random_milli();
                let r_y = random_milli();
                let r_z = random_milli();
                let stepped = step_node(reg.get(i), r_b, r_x, r_y, r_z);
                proof {
                    ds = ds.push(Draw { b: r_b, x: r_x, y: r_y, z: r_z });
                }
                reg.set_node(i, stepped);
            }
            proof {
                assert(reg@.nodes =~= spec_tick_nodes(s0, ds));
            }
            RunState::Running
        },
        RunState::Reset => {
            reg.reset();
            RunState::Paused
        },
    }
}

/// The step of one `Running` tick that leaves a node's battery at zero
/// leaves its position exactly where it was.
pub proof fn lemma_dead_node_stops(n: NodeV, d: Draw)
    requires
        spec_step_node(n, d).battery == 0,
    ensures
        spec_step_node(n, d).coords == n.coords,
{
}

/// A node after a whole sequence of `Running` ticks, one draw per tick.
pub open spec fn spec_step_chain(n: NodeV, ds: Seq<Draw>) -> NodeV
    decreases ds.len(),
{
    if ds.len() == 0 {
        n
    } else {
        spec_step_node(spec_step_chain(n, ds.drop_last()), ds.last())
    }
}

/// A node whose battery is at zero keeps its exact position over any
/// sequence of `Running` ticks whose battery draws stay at or below the
/// midpoint, and its battery stays at zero throughout; such draws can only
/// push the battery down, and a node at zero battery never moves.
pub proof fn lemma_dead_node_keeps_position(n: NodeV, ds: Seq<Draw>)
    requires
        n.battery == 0,
        draws_ok(ds),
        forall|i: int| 0 <= i < ds.len() ==> (#[trigger] ds[i]).b <= SCALE / 2,
    ensures
        spec_step_chain(n, ds).coords == n.coords,
        spec_step_chain(n, ds).battery == 0,
    decreases ds.len(),
{
    if ds.len() > 0 {
        let t = ds.drop_last();
        assert(forall|i: int| 0 <= i < t.len() ==> t[i] == #[trigger] ds[i]);
        lemma_dead_node_keeps_position(n, t);
    }
}

/// The registries along a run: `states[0]` is where the run begins, each
/// later one comes out of one `Running` tick over its predecessor, with the
/// draws of that tick.
pub open spec fn running_chain_ok(states: Seq<RegistryV>, dss: Seq<Seq<Draw>>) -> bool {
    states.len() == dss.len() + 1 && forall|k: int|
        0 <= k < dss.len() ==> (#[trigger] states[k + 1]).init == states[k].init && states[k
            + 1].nodes == spec_tick_nodes(states[k].nodes, dss[k])
}

proof fn lemma_chain_keeps_init(states: Seq<RegistryV>, dss: Seq<Seq<Draw>>, k: int)
    requires
        running_chain_ok(states, dss),
        0 <= k < states.len(),
    ensures
        states[k].init == states[0].init,
    decreases k,
{
    if k > 0 {
        lemma_chain_keeps_init(states, dss, k - 1);
        assert(states[(k - 1) + 1].init == states[k - 1].init);
    }
}

/// After any sequence of `Running` ticks from a registry, a `Reset` tick —
/// which replaces the live nodes by the then-current initial configuration —
/// yields exactly the initial configuration the run began with; the run
/// state after the `Reset` tick is `Paused` by `tick`'s contract.
pub proof fn lemma_reset_restores_initial(
    states: Seq<RegistryV>,
    dss: Seq<Seq<Draw>>,
    after_reset: RegistryV,
)
    requires
        running_chain_ok(states, dss),
        after_reset.nodes == states.last().init,
        after_reset.init == states.last().init,
    ensures
        after_reset.nodes == states[0].init,
        after_reset.init == states[0].init,
{
    lemma_chain_keeps_init(states, dss, states.len() - 1);
}

} // verus!
