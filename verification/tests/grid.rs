use nexus_sim::colors::Rgb;
use nexus_sim::grid::render;
use nexus_sim::grid::DrawCmd;
use nexus_sim::node::initial_nodes;
use nexus_sim::node::Coords;
use nexus_sim::node::Node;

#[test]
fn empty_node_set_renders_nothing() {
    let nodes: Vec<Node> = Vec::new();
    let cmds = render(800, 600, &nodes);
    assert_eq!(cmds.len(), 0);
}

#[test]
fn render_is_idempotent() {
    let nodes = initial_nodes();
    let first = render(800, 600, &nodes);
    let second = render(800, 600, &nodes);
    assert_eq!(first, second);
}

#[test]
fn command_counts_and_order() {
    let nodes = initial_nodes();
    let cmds = render(800, 600, &nodes);
    // 11 vertical lines and 11 horizontal ones, each with a label, then one
    // circle per node.
    assert_eq!(cmds.len(), 44 + nodes.len());
    for pair in cmds[..44].chunks(2) {
        assert!(matches!(pair[0], DrawCmd::Line { .. }));
        assert!(matches!(pair[1], DrawCmd::Text { .. }));
    }
    for cmd in &cmds[44..] {
        assert!(matches!(cmd, DrawCmd::Circle { .. }));
    }
}

#[test]
fn single_node_frame_in_detail() {
    let nodes = vec![Node {
        name: "A".to_string(),
        coords: Coords { x: 5000, y: 5000, z: 0 },
        battery: 100000,
    }];
    let cmds = render(800, 600, &nodes);
    // First vertical grid line: at the left margin, spanning the vertical
    // drawable band, in light grey.
    assert_eq!(
        cmds[0],
        DrawCmd::Line {
            x1: 45_000,
            y1: 45_000,
            x2: 45_000,
            y2: 555_000,
            color: Rgb { r: 800, g: 800, b: 800 },
            width: 1000,
        }
    );
    // Its label: the extent was widened to [4.50, 5.50].
    assert_eq!(
        cmds[1],
        DrawCmd::Text { x: 45_000 - 5000, y: 600_000 - 22_500, text: "4.50".to_string() }
    );
    // First horizontal grid line is the bottom of the drawable band.
    assert_eq!(
        cmds[22],
        DrawCmd::Line {
            x1: 45_000,
            y1: 555_000,
            x2: 755_000,
            y2: 555_000,
            color: Rgb { r: 800, g: 800, b: 800 },
            width: 1000,
        }
    );
    assert_eq!(cmds[23], DrawCmd::Text { x: 5000, y: 555_000, text: "4.50".to_string() });
    // The node marker: centered, fully charged, so pure green.
    assert_eq!(
        cmds[44],
        DrawCmd::Circle {
            x: 400_000,
            y: 300_000,
            radius: 5000,
            color: Rgb { r: 0, g: 1000, b: 0 },
        }
    );
}

#[test]
fn marker_colors_follow_battery() {
    let nodes = vec![
        Node { name: "dead".to_string(), coords: Coords { x: 0, y: 0, z: 0 }, battery: 0 },
        Node { name: "low".to_string(), coords: Coords { x: 1000, y: 1000, z: 0 }, battery: 500 },
        Node { name: "half".to_string(), coords: Coords { x: 2000, y: 2000, z: 0 }, battery: 50000 },
    ];
    let cmds = render(800, 600, &nodes);
    let colors: Vec<Rgb> = cmds[44..]
        .iter()
        .map(|c| match c {
            DrawCmd::Circle { color, .. } => *color,
            _ => panic!("expected a circle"),
        })
        .collect();
    assert_eq!(colors[0], Rgb { r: 0, g: 0, b: 0 });
    assert_eq!(colors[1], Rgb { r: 500, g: 0, b: 0 });
    assert_eq!(colors[2], Rgb { r: 500, g: 500, b: 0 });
}
