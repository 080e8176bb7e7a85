use boilert::history::SensorHistory;

#[test]
fn new_track_is_all_seed_values() {
    let h = SensorHistory::new(21_500, 96, 0);
    assert_eq!(h.len(), 96);
    for i in 0..96 {
        assert_eq!(h.point(i), 21_500);
    }
    assert_eq!(h.last_update(), 0);
}

#[test]
fn length_invariant_survives_many_additions() {
    let mut h = SensorHistory::new(0, 96, 0);
    for i in 0..500u64 {
        h.add_point(i as i64, i);
        assert_eq!(h.len(), 96);
    }
    assert_eq!(h.last_update(), 499);
}

#[test]
fn sliding_window_keeps_seeds_then_added_values() {
    // Fewer additions than the capacity: the oldest seeds remain, followed
    // by the added values in order.
    let mut h = SensorHistory::new(1_000, 4, 0);
    h.add_point(7, 1);
    h.add_point(8, 2);
    assert_eq!(h.len(), 4);
    assert_eq!(h.point(0), 1_000);
    assert_eq!(h.point(1), 1_000);
    assert_eq!(h.point(2), 7);
    assert_eq!(h.point(3), 8);
}

#[test]
fn sliding_window_keeps_last_n_added_values() {
    // More additions than the capacity: exactly the last four, in order.
    let mut h = SensorHistory::new(1_000, 4, 0);
    for (i, v) in [7i64, 8, 9, 10, 11].iter().enumerate() {
        h.add_point(*v, i as u64);
    }
    assert_eq!(h.len(), 4);
    assert_eq!(h.point(0), 8);
    assert_eq!(h.point(1), 9);
    assert_eq!(h.point(2), 10);
    assert_eq!(h.point(3), 11);
}

#[test]
fn render_path_clamps_heights() {
    let mut h = SensorHistory::new(0, 4, 0);
    h.add_point(0, 1); // 0 degrees -> y = 100 (in millis: 100_000)
    h.add_point(100_000, 2); // 100 degrees -> y = 0
    h.add_point(150_000, 3); // 150 degrees clamps to y = 0
    h.add_point(-50_000, 4); // -50 degrees clamps to y = 100
    let path = h.render_path();
    assert_eq!(path.len(), 4);
    assert_eq!(path[0], (0, 100_000));
    assert_eq!(path[1], (1, 0));
    assert_eq!(path[2], (2, 0));
    assert_eq!(path[3], (3, 100_000));
}

#[test]
fn render_path_length_equals_track_length() {
    let h = SensorHistory::new(42_000, 96, 0);
    assert_eq!(h.render_path().len(), 96);
}

#[test]
fn svg_path_of_two_points() {
    let h = SensorHistory::new(0, 2, 0);
    assert_eq!(h.to_svg_path(), "M 0 100.000 L 1 100.000 ");
}

#[test]
fn svg_path_mixed_heights() {
    let mut h = SensorHistory::new(0, 2, 0);
    h.add_point(25_000, 1);
    h.add_point(100_000, 2);
    // 25 degrees -> y 75, 100 degrees -> y 0.
    assert_eq!(h.to_svg_path(), "M 0 75.000 L 1 0.000 ");
}
