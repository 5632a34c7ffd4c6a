use draw_lr::Coordinates;
use draw_lr::extension::CoordOptions;
use draw_lr::extension::PreconditionViolation;
use draw_lr::extension::create_riders;
use draw_lr::extension::function_lines;
use draw_lr::extension::polygon_lines;
use draw_lr::extension::thick_polygon_lines;
use draw_lr::trig::cos_micro;
use draw_lr::trig::sin_micro;

#[test]
fn circle_functions_hit_the_axis_points() {
    assert_eq!(cos_micro(0), 1_000_000);
    assert_eq!(sin_micro(0), 0);
    assert_eq!(cos_micro(3_141_593), -1_000_000);
    assert_eq!(sin_micro(1_570_796), 1_000_000);
}

#[test]
fn circle_functions_are_periodic_and_bounded() {
    for a in [-7_000_000i64, -1, 0, 123_456, 3_141_593, 9_999_999] {
        let c = cos_micro(a);
        let s = sin_micro(a);
        assert!((-1_000_000..=1_000_000).contains(&c));
        assert!((-1_000_000..=1_000_000).contains(&s));
        assert_eq!(c, cos_micro(a + 6_283_185));
        assert_eq!(s, sin_micro(a + 6_283_185));
    }
}

#[test]
fn zero_riders_yield_empty_sequence() {
    let riders = create_riders(0, CoordOptions::Rand, CoordOptions::Rand, None).unwrap();
    assert!(riders.is_empty());
}

#[test]
fn explicit_and_default_coordinates_pass_through() {
    let p = Coordinates { x: 7_000_000, y: -3_000_000 };
    let riders = create_riders(
        2,
        CoordOptions::Other(Some(p)),
        CoordOptions::Other(None),
        Some(5),
    )
    .unwrap();
    assert_eq!(riders.len(), 2);
    for r in &riders {
        assert_eq!(r.start_position, p);
        assert_eq!(r.start_velocity, Coordinates { x: 0, y: 0 });
        assert_eq!(r.remountable, 5);
    }
}

#[test]
fn evenly_spaced_riders_interpolate_from_min_to_max() {
    let min = Coordinates { x: 0, y: -4_000_000 };
    let max = Coordinates { x: 9_000_000, y: 5_000_000 };
    let riders = create_riders(
        4,
        CoordOptions::EvenlySpaced(min, max),
        CoordOptions::Other(None),
        None,
    )
    .unwrap();
    assert_eq!(riders.len(), 4);
    assert_eq!(riders[0].start_position, min);
    assert_eq!(riders[1].start_position, Coordinates { x: 3_000_000, y: -1_000_000 });
    assert_eq!(riders[2].start_position, Coordinates { x: 6_000_000, y: 2_000_000 });
    assert_eq!(riders[3].start_position, max);
    for w in riders.windows(2) {
        assert!(w[0].start_position.x <= w[1].start_position.x);
        assert!(w[0].start_position.y <= w[1].start_position.y);
    }
}

#[test]
fn unordered_box_is_a_precondition_violation() {
    let min = Coordinates { x: 1_000_000, y: 0 };
    let max = Coordinates { x: 0, y: 0 };
    let r = create_riders(
        2,
        CoordOptions::EvenlySpaced(min, max),
        CoordOptions::Other(None),
        None,
    );
    assert_eq!(r, Err(PreconditionViolation));
    let r2 = create_riders(3, CoordOptions::Rand, CoordOptions::RandRange(min, max), None);
    assert_eq!(r2, Err(PreconditionViolation));
}

#[test]
fn random_riders_stay_in_their_boxes() {
    let min = Coordinates { x: -2_000_000, y: 1_000_000 };
    let max = Coordinates { x: 2_000_000, y: 1_500_000 };
    let riders = create_riders(
        20,
        CoordOptions::Rand,
        CoordOptions::RandRange(min, max),
        Some(1),
    )
    .unwrap();
    assert_eq!(riders.len(), 20);
    for r in &riders {
        assert!((-10_000_000..=10_000_000).contains(&r.start_position.x));
        assert!((-10_000_000..=10_000_000).contains(&r.start_position.y));
        assert!((min.x..=max.x).contains(&r.start_velocity.x));
        assert!((min.y..=max.y).contains(&r.start_velocity.y));
        assert_eq!(r.remountable, 1);
    }
}

#[test]
fn polygon_lines_form_a_closed_loop_of_sides_segments() {
    let lines = polygon_lines(6, 100, None, None, 1);
    assert_eq!(lines.len(), 6);
    for i in 0..6 {
        let next = (i + 1) % 6;
        assert_eq!(lines[i].x2, lines[next].x1);
        assert_eq!(lines[i].y2, lines[next].y1);
        assert!(lines[i].flipped);
        assert!(lines[i].left_extended);
        assert!(lines[i].right_extended);
        assert_eq!(lines[i].id, None);
        assert_eq!(lines[i].kind, 1);
    }
}

#[test]
fn polygon_vertices_sit_near_the_circle() {
    let c = Coordinates { x: 3_000_000, y: -5_000_000 };
    let lines = polygon_lines(12, 100, Some(c), Some(200_000), 1);
    for l in &lines {
        let dx = (l.x1 - c.x) as f64 / 1_000_000.0;
        let dy = (l.y1 - c.y) as f64 / 1_000_000.0;
        let dist = (dx * dx + dy * dy).sqrt();
        assert!((dist - 100.0).abs() < 0.5, "distance {dist}");
    }
}

#[test]
fn thick_polygon_concatenates_growing_radii() {
    let thick = thick_polygon_lines(3, 10, None, None, 2, 4);
    assert_eq!(thick.len(), 6);
    let inner = polygon_lines(3, 10, None, None, 4);
    let outer = polygon_lines(3, 11, None, None, 4);
    assert_eq!(&thick[..3], &inner[..]);
    assert_eq!(&thick[3..], &outer[..]);
    let empty = thick_polygon_lines(3, 10, None, None, 0, 4);
    assert!(empty.is_empty());
}

#[test]
fn function_lines_sample_a_continuous_polyline() {
    let lines = function_lines(|x: i64| x, 0, 2, Some(3), None);
    assert_eq!(lines.len(), 4);
    let xs: Vec<(i64, i64)> = lines.iter().map(|l| (l.x1, l.x2)).collect();
    assert_eq!(
        xs,
        vec![(0, 666_666), (666_666, 333_333), (333_333, 1_666_666), (1_666_666, 1_333_333)],
    );
    for l in &lines {
        assert_eq!(l.y1, l.x1);
        assert_eq!(l.y2, l.x2);
        assert_eq!(l.kind, 1);
        assert_eq!(l.id, None);
        assert!(!l.flipped && !l.left_extended && !l.right_extended);
    }
    for w in lines.windows(2) {
        assert_eq!(w[0].x2, w[1].x1);
        assert_eq!(w[0].y2, w[1].y1);
    }
}

#[test]
fn function_lines_default_iterations_and_degenerate_ranges() {
    let lines = function_lines(|x: i64| 0, 0, 1, None, Some(3));
    assert_eq!(lines.len(), 9);
    for l in &lines {
        assert_eq!(l.kind, 3);
        assert_eq!(l.y1, 0);
        assert_eq!(l.y2, 0);
    }
    assert!(function_lines(|x: i64| x, 5, 5, None, None).is_empty());
    assert!(function_lines(|x: i64| x, 5, 2, None, None).is_empty());
    assert!(function_lines(|x: i64| x, 0, 3, Some(1), None).is_empty());
    assert!(function_lines(|x: i64| x, 0, 3, Some(0), None).is_empty());
}
