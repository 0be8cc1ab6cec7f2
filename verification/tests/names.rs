use nexus_sim::label::battery_label;
use nexus_sim::label::coords_label;
use nexus_sim::label::format_milli;
use nexus_sim::node::initial_nodes;
use nexus_sim::node::sorted_names;
use nexus_sim::node::str_lex_le;
use nexus_sim::node::Coords;
use nexus_sim::node::Node;
use nexus_sim::node::NodeRegistry;

#[test]
fn names_sort_lexicographically() {
    let nodes = vec![
        Node { name: "delta".to_string(), coords: Coords { x: 0, y: 0, z: 0 }, battery: 0 },
        Node { name: "alpha".to_string(), coords: Coords { x: 0, y: 0, z: 0 }, battery: 0 },
        Node { name: "charlie".to_string(), coords: Coords { x: 0, y: 0, z: 0 }, battery: 0 },
        Node { name: "alpha".to_string(), coords: Coords { x: 0, y: 0, z: 0 }, battery: 0 },
    ];
    let names = sorted_names(&nodes);
    assert_eq!(names, vec!["alpha", "alpha", "charlie", "delta"]);
}

#[test]
fn initial_names_are_already_in_order() {
    let names = sorted_names(&initial_nodes());
    assert_eq!(names, vec!["Node 1", "Node 2", "Node 3", "Node 4", "Node 5"]);
}

#[test]
fn string_order_is_by_code_point() {
    assert!(str_lex_le("", "a"));
    assert!(str_lex_le("Node 1", "Node 2"));
    assert!(!str_lex_le("Node 2", "Node 1"));
    assert!(str_lex_le("Node", "Node 1"));
    assert!(str_lex_le("abc", "abc"));
    // upper case precedes lower case by code point
    assert!(str_lex_le("Zeta", "alpha"));
}

#[test]
fn registry_find_by_name() {
    let reg = NodeRegistry::new(initial_nodes());
    let node = reg.find("Node 2").expect("Node 2 is in the registry");
    assert_eq!(node.coords, Coords { x: 100000, y: 0, z: 0 });
    assert_eq!(node.battery, 75000);
    assert!(reg.find("Node 9").is_none());
}

#[test]
fn milli_values_print_in_shortest_form() {
    assert_eq!(format_milli(1000), "1");
    assert_eq!(format_milli(0), "0");
    assert_eq!(format_milli(-30000), "-30");
    assert_eq!(format_milli(10), "0.01");
    assert_eq!(format_milli(2500), "2.5");
    assert_eq!(format_milli(1), "0.001");
    assert_eq!(format_milli(-1234), "-1.234");
}

#[test]
fn node_panel_labels() {
    let c = Coords { x: 1000, y: 1000, z: 0 };
    assert_eq!(coords_label(&c), "(1, 1, 0)");
    let d = Coords { x: -30000, y: -40000, z: 10 };
    assert_eq!(coords_label(&d), "(-30, -40, 0.01)");
    assert_eq!(battery_label(100000), "100%");
    assert_eq!(battery_label(10), "0%");
    assert_eq!(battery_label(75000), "75%");
    assert_eq!(battery_label(500), "1%");
}
