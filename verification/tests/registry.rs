use graphcalc::color::{palette, Color, PALETTE_LEN};
use graphcalc::graph::{Graph, GraphEntry};
use graphcalc::zoom::SCALE_ONE;

#[test]
fn scenario_fresh_registry_first_two_colors() {
    let mut g = Graph::new();
    g.add_graph(String::from("f"));
    g.add_graph(String::from("g"));
    assert_eq!(g.entries.len(), 2);
    assert_eq!(g.entries[0].func_name, "f");
    assert_eq!(g.entries[1].func_name, "g");
    assert_eq!(g.entries[0].rgb, palette(0));
    assert_eq!(g.entries[1].rgb, palette(1));
}

#[test]
fn registry_colors_follow_palette_order() {
    let mut g = Graph::new();
    for i in 0..40 {
        g.add_graph(format!("f{}", i));
    }
    for i in 0..40 {
        assert_eq!(g.entries[i].rgb, palette(i % PALETTE_LEN));
    }
}

#[test]
fn registry_color_cycles_past_palette_end() {
    let mut g = Graph::new();
    for i in 0..(PALETTE_LEN + 2) {
        g.add_graph(format!("f{}", i));
    }
    assert_eq!(g.entries[PALETTE_LEN].rgb, palette(0));
    assert_eq!(g.entries[PALETTE_LEN + 1].rgb, palette(1));
}

#[test]
fn add_graph_keeps_existing_entries_and_zoom() {
    let mut g = Graph::new();
    g.add_graph(String::from("first"));
    let first_color = g.entries[0].rgb;
    g.add_graph(String::from("second"));
    assert_eq!(g.entries.len(), 2);
    assert_eq!(g.entries[0].func_name, "first");
    assert_eq!(g.entries[0].rgb, first_color);
    assert_eq!(g.zoom.scale, SCALE_ONE);
}

#[test]
fn palette_first_and_last_values() {
    assert_eq!(palette(0), Color { r: 26, g: 188, b: 156 });
    assert_eq!(palette(1), Color { r: 46, g: 204, b: 113 });
    assert_eq!(palette(2), Color { r: 52, g: 152, b: 219 });
    assert_eq!(palette(15), Color { r: 192, g: 57, b: 43 });
}

#[test]
fn entry_builder_sets_name_then_color() {
    let e = GraphEntry::from_name(String::from("h"));
    assert_eq!(e.func_name, "h");
    assert_eq!(e.rgb, Color { r: 0, g: 0, b: 0 });
    let e = e.rgb(Color { r: 1, g: 2, b: 3 });
    assert_eq!(e.func_name, "h");
    assert_eq!(e.rgb, Color { r: 1, g: 2, b: 3 });
}
