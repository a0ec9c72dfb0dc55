use graphcalc::transform::{from_screen, to_screen, ScreenPoint, Viewport};

fn vp(width: i64, height: i64, scale_factor: i64) -> Viewport {
    Viewport { width, height, scale_factor }
}

#[test]
fn to_screen_centers_the_origin() {
    let v = vp(800, 600, 20000);
    let p = to_screen(0, 0, &v);
    assert_eq!(p, ScreenPoint { sx: 400000000, sy: 300000000 });
}

#[test]
fn to_screen_scales_and_inverts_y() {
    let v = vp(800, 600, 20000);
    // x = 1.0, y = 2.0 at 20 px per unit: 20 px right of center,
    // 40 px above center (up on screen means smaller sy).
    let p = to_screen(1000, 2000, &v);
    assert_eq!(p.sx, 400000000 + 20000000);
    assert_eq!(p.sy, 300000000 - 40000000);
}

#[test]
fn round_trip_recovers_math_points() {
    let v = vp(800, 600, 20000);
    for &(x, y) in &[
        (0i64, 0i64),
        (1000, 2000),
        (-50000, 50000),
        (49996, -123),
        (7, -7),
    ] {
        let p = to_screen(x, y, &v);
        let (rx, ry) = from_screen(p, &v);
        assert_eq!((rx, ry), (x, y));
    }
}

#[test]
fn round_trip_other_way_on_exact_points() {
    // A screen position whose offsets from the center are multiples of the
    // scale factor maps back and forth exactly.
    let v = vp(100, 100, 7);
    let p = ScreenPoint { sx: 50000000 + 7 * 3, sy: 50000000 - 7 * 9 };
    let (x, y) = from_screen(p, &v);
    assert_eq!((x, y), (3, 9));
    assert_eq!(to_screen(x, y, &v), p);
}
