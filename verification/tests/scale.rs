use nexus_sim::node::initial_nodes;
use nexus_sim::node::Coords;
use nexus_sim::node::Node;
use nexus_sim::scale::get_bounds;
use nexus_sim::scale::ScaleCtx;

fn single_node() -> Vec<Node> {
    vec![Node {
        name: "A".to_string(),
        coords: Coords { x: 5000, y: 5000, z: 0 },
        battery: 100000,
    }]
}

#[test]
fn bounds_of_initial_nodes() {
    let nodes = initial_nodes();
    let (min_x, max_x, min_y, max_y) = get_bounds(&nodes);
    assert_eq!(min_x, -30000);
    assert_eq!(max_x, 100000);
    assert_eq!(min_y, -40000);
    assert_eq!(max_y, 1000);
}

#[test]
fn degenerate_extent_is_widened_and_centered() {
    // Canvas 800 by 600 with a single node: both ranges are zero and must be
    // replaced by one data unit, putting the node at the canvas center.
    let nodes = single_node();
    let ctx = ScaleCtx::new(800, 600, &nodes);
    assert_eq!(ctx.min_x, 4500);
    assert_eq!(ctx.range_x, 1000);
    assert_eq!(ctx.min_y, 4500);
    assert_eq!(ctx.range_y, 1000);
    assert_eq!(ctx.x_coord_to_pixel(5000), 400_000);
    assert_eq!(ctx.y_coord_to_pixel(5000), 300_000);
}

#[test]
fn node_pixels_stay_inside_margins() {
    let nodes = initial_nodes();
    let ctx = ScaleCtx::new(800, 600, &nodes);
    for node in nodes.iter() {
        let xp = ctx.x_coord_to_pixel(node.coords.x);
        let yp = ctx.y_coord_to_pixel(node.coords.y);
        assert!(45_000 <= xp && xp <= (800 - 45) * 1000);
        assert!(45_000 <= yp && yp <= (600 - 45) * 1000);
    }
}

#[test]
fn extreme_coordinates_map_to_margin_edges() {
    let nodes = initial_nodes();
    let ctx = ScaleCtx::new(800, 600, &nodes);
    // min maps to the left margin, max to the right one, exactly.
    assert_eq!(ctx.x_coord_to_pixel(-30000), 45_000);
    assert_eq!(ctx.x_coord_to_pixel(100000), (800 - 45) * 1000);
    // the y axis is inverted: min maps to the bottom edge.
    assert_eq!(ctx.y_coord_to_pixel(-40000), (600 - 45) * 1000);
    assert_eq!(ctx.y_coord_to_pixel(1000), 45_000);
}

#[test]
fn grid_coords_divide_the_extent() {
    let nodes = single_node();
    let ctx = ScaleCtx::new(800, 600, &nodes);
    assert_eq!(ctx.x_grid_coord(0), 4500);
    assert_eq!(ctx.x_grid_coord(3), 4800);
    assert_eq!(ctx.x_grid_coord(10), 5500);
    assert_eq!(ctx.y_grid_coord(0), 4500);
    assert_eq!(ctx.y_grid_coord(10), 5500);
}

#[test]
fn x_pixel_scales_linearly() {
    let mut nodes = single_node();
    nodes.push(Node {
        name: "B".to_string(),
        coords: Coords { x: 15000, y: 7000, z: 0 },
        battery: 50000,
    });
    // extent: x in [5000, 15000], y in [5000, 7000]; canvas 800 by 600.
    let ctx = ScaleCtx::new(800, 600, &nodes);
    assert_eq!(ctx.range_x, 10000);
    assert_eq!(ctx.range_y, 2000);
    assert_eq!(ctx.x_coord_to_pixel(5000), 45_000);
    assert_eq!(ctx.x_coord_to_pixel(10000), 45_000 + 355_000);
    assert_eq!(ctx.x_coord_to_pixel(15000), 755_000);
}
