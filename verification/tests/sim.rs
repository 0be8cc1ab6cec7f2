use nexus_sim::node::initial_nodes;
use nexus_sim::node::Coords;
use nexus_sim::node::Node;
use nexus_sim::node::NodeRegistry;
use nexus_sim::sim::step_node;
use nexus_sim::sim::tick;
use nexus_sim::sim::RunState;

fn two_node_config() -> Vec<Node> {
    vec![
        Node { name: "A".to_string(), coords: Coords { x: 0, y: 0, z: 0 }, battery: 100000 },
        Node { name: "B".to_string(), coords: Coords { x: 10000, y: 0, z: 0 }, battery: 0 },
    ]
}

#[test]
fn step_with_midpoint_draws() {
    // One Running tick with every draw at the midpoint (one half): the live
    // node keeps its battery and shifts by 2.5 units per axis; the dead node
    // stays dead and does not move.
    let config = two_node_config();
    let a = step_node(&config[0], 500, 500, 500, 500);
    assert_eq!(a.battery, 100000);
    assert_eq!(a.coords, Coords { x: 2500, y: 2500, z: 2500 });
    assert_eq!(a.name, "A");
    let b = step_node(&config[1], 500, 500, 500, 500);
    assert_eq!(b.battery, 0);
    assert_eq!(b.coords, Coords { x: 10000, y: 0, z: 0 });
    assert_eq!(b.name, "B");
}

#[test]
fn step_floors_battery_at_zero() {
    let node = Node { name: "C".to_string(), coords: Coords { x: 7, y: 8, z: 9 }, battery: 100 };
    // the lowest draw takes the battery down by 1.5 units, well below zero
    let stepped = step_node(&node, 0, 500, 500, 500);
    assert_eq!(stepped.battery, 0);
    assert_eq!(stepped.coords, Coords { x: 7, y: 8, z: 9 });
}

#[test]
fn step_can_revive_a_dead_node() {
    // a draw above the midpoint raises the battery from zero, and the node
    // moves again
    let node = Node { name: "C".to_string(), coords: Coords { x: 0, y: 0, z: 0 }, battery: 0 };
    let stepped = step_node(&node, 999, 100, 200, 300);
    assert_eq!(stepped.battery, (999 - 500) * 3);
    assert_eq!(stepped.coords, Coords { x: 500, y: 1000, z: 1500 });
}

#[test]
fn paused_tick_changes_nothing() {
    let mut reg = NodeRegistry::new(initial_nodes());
    let before: Vec<Node> = reg.snapshot().clone();
    let next = tick(&mut reg, RunState::Paused);
    assert_eq!(next, RunState::Paused);
    assert_eq!(*reg.snapshot(), before);
}

#[test]
fn reset_tick_restores_initial_config_and_pauses() {
    let mut reg = NodeRegistry::new(initial_nodes());
    let mut state = RunState::Running;
    for _ in 0..5 {
        state = tick(&mut reg, state);
        assert_eq!(state, RunState::Running);
    }
    state = tick(&mut reg, RunState::Reset);
    assert_eq!(state, RunState::Paused);
    assert_eq!(*reg.snapshot(), initial_nodes());
}

#[test]
fn running_tick_moves_within_the_draw_bounds() {
    // Exercises the random draws through the public tick: every change must
    // stay within what in-range draws allow. A full battery cannot fall to
    // zero in one tick, so the node must move, upward only, by less than
    // five units per axis; the battery moves by at most 1.5 units.
    let mut reg = NodeRegistry::new(two_node_config());
    let next = tick(&mut reg, RunState::Running);
    assert_eq!(next, RunState::Running);
    let nodes = reg.snapshot();
    assert_eq!(nodes.len(), 2);
    let a = &nodes[0];
    assert_eq!(a.name, "A");
    assert!(100000 - 1500 <= a.battery && a.battery <= 100000 + 1497);
    assert!(0 <= a.coords.x && a.coords.x < 5000);
    assert!(0 <= a.coords.y && a.coords.y < 5000);
    assert!(0 <= a.coords.z && a.coords.z < 5000);
    let b = &nodes[1];
    assert_eq!(b.name, "B");
    // the dead node's battery can rise by at most 1.5 units; wherever it
    // lands, a battery that stays at zero pins the position
    assert!(b.battery <= 1497);
    if b.battery == 0 {
        assert_eq!(b.coords, Coords { x: 10000, y: 0, z: 0 });
    } else {
        assert!(10000 <= b.coords.x && b.coords.x < 15000);
    }
}

#[test]
fn registry_set_node_replaces_one_entry() {
    let mut reg = NodeRegistry::new(two_node_config());
    assert_eq!(reg.len(), 2);
    let replacement =
        Node { name: "B".to_string(), coords: Coords { x: 1, y: 2, z: 3 }, battery: 42 };
    reg.set_node(1, replacement);
    assert_eq!(reg.get(0).name, "A");
    assert_eq!(reg.get(1).coords, Coords { x: 1, y: 2, z: 3 });
    assert_eq!(reg.get(1).battery, 42);
    // the initial configuration is untouched: reset brings the old entry back
    reg.reset();
    assert_eq!(*reg.snapshot(), two_node_config());
}

#[test]
fn initial_nodes_match_the_seed_configuration() {
    let nodes = initial_nodes();
    assert_eq!(nodes.len(), 5);
    assert_eq!(nodes[0].name, "Node 1");
    assert_eq!(nodes[0].coords, Coords { x: 1000, y: 1000, z: 0 });
    assert_eq!(nodes[0].battery, 100000);
    assert_eq!(nodes[1].name, "Node 2");
    assert_eq!(nodes[1].coords, Coords { x: 100000, y: 0, z: 0 });
    assert_eq!(nodes[1].battery, 75000);
    assert_eq!(nodes[2].battery, 0);
    assert_eq!(nodes[3].battery, 10);
    assert_eq!(nodes[4].name, "Node 5");
    assert_eq!(nodes[4].coords, Coords { x: -30000, y: -40000, z: 0 });
}
