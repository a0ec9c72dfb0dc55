use graphcalc::graph::Graph;
use graphcalc::zoom::{ZoomState, SCALE_ONE};

#[test]
fn scenario_reject_below_floor() {
    // From neutral zoom, a scroll delta of +4.0 aims at 1.0 + 4.0 * (-0.5)
    // = -1.0, below the floor: rejected, nothing changes, no redraw.
    let mut z = ZoomState::new();
    assert_eq!(z.scale, SCALE_ONE);
    let redraw = z.update(4000);
    assert!(!redraw);
    assert_eq!(z.scale, SCALE_ONE);
}

#[test]
fn scenario_accept_doubles_scale() {
    // From neutral zoom, a scroll delta of -2.0 aims at 1.0 + (-2.0) * (-0.5)
    // = 2.0, at or above the floor: accepted, and a redraw is called for.
    let mut z = ZoomState::new();
    let redraw = z.update(-2000);
    assert!(redraw);
    assert_eq!(z.scale, 2 * SCALE_ONE);
}

#[test]
fn zoom_floor_boundary_is_accepted() {
    // A candidate exactly at the floor counts as accepted.
    let mut z = ZoomState::new();
    let redraw = z.update(0);
    assert!(redraw);
    assert_eq!(z.scale, SCALE_ONE);
}

#[test]
fn zoom_just_below_floor_is_rejected() {
    let mut z = ZoomState::new();
    let redraw = z.update(1);
    assert!(!redraw);
    assert_eq!(z.scale, SCALE_ONE);
}

#[test]
fn repeated_zoom_accumulates() {
    let mut z = ZoomState::new();
    assert!(z.update(-2000));
    assert!(z.update(-2000));
    assert_eq!(z.scale, 3 * SCALE_ONE);
}

#[test]
fn viewport_carries_extent_and_scale_factor() {
    let mut g = Graph::new();
    let vp = g.viewport(800, 600).unwrap();
    assert_eq!(vp.width, 800);
    assert_eq!(vp.height, 600);
    // 20 px grid pitch at neutral zoom: 20000 milli-pixels per unit.
    assert_eq!(vp.scale_factor, 20000);
    assert_eq!(g.scale_factor(), 20000);

    assert!(g.update_scale(-2000));
    let vp = g.viewport(800, 600).unwrap();
    assert_eq!(vp.scale_factor, 40000);
}

#[test]
fn viewport_rejects_unplaceable_extents() {
    let g = Graph::new();
    assert!(g.viewport(-1, 600).is_none());
    assert!(g.viewport(800, 2000000).is_none());
    assert!(g.viewport(800, 600).is_some());
}

#[test]
fn graph_update_scale_leaves_registry_alone() {
    let mut g = Graph::new();
    g.add_graph(String::from("f"));
    let redraw = g.update_scale(-2000);
    assert!(redraw);
    assert_eq!(g.zoom.scale, 2 * SCALE_ONE);
    assert_eq!(g.entries.len(), 1);
    assert_eq!(g.entries[0].func_name, "f");

    let redraw = g.update_scale(i64::MAX / 2);
    assert!(!redraw);
    assert_eq!(g.zoom.scale, 2 * SCALE_ONE);
}
