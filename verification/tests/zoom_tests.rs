use iced_graphs::zoom::{Zoom, ZOOM_MAX_DEFAULT, ZOOM_MIN_DEFAULT, ZOOM_ONE};

#[test]
fn default_zoom_is_one() {
    assert_eq!(Zoom::default(), Zoom::Value(ZOOM_ONE));
}

#[test]
fn new_clamps_up_to_minimum() {
    assert_eq!(Zoom::new(0), Zoom::Value(ZOOM_MIN_DEFAULT));
    assert_eq!(Zoom::new(7), Zoom::Value(7));
}

#[test]
fn is_value_and_is_full() {
    assert!(Zoom::Value(10).is_value());
    assert!(!Zoom::Value(10).is_full());
    assert!(Zoom::Full.is_full());
    assert!(!Zoom::Full.is_value());
}

#[test]
fn value_or_uses_default_for_full_view() {
    assert_eq!(Zoom::Value(30).value_or(99), 30);
    assert_eq!(Zoom::Full.value_or(99), 99);
}

#[test]
fn five_decrements_from_one_never_reach_full_view() {
    // 1.0 -> 0.9 -> 0.8 -> 0.7 -> 0.6 -> 0.5 with the 0.1 minimum
    let mut z = Zoom::Value(10);
    let expected = [9u32, 8, 7, 6, 5];
    for e in expected {
        z = z.decrement_with_limits(1);
        assert_eq!(z, Zoom::Value(e));
    }
}

#[test]
fn decrement_from_minimum_collapses_to_full_view() {
    assert_eq!(Zoom::Value(1).decrement_with_limits(1), Zoom::Full);
    assert_eq!(Zoom::Value(3).decrement_with_limits(3), Zoom::Full);
    // one step above the minimum collapses too: 0.2 - 0.1 <= 0.1
    assert_eq!(Zoom::Value(2).decrement_with_limits(1), Zoom::Full);
}

#[test]
fn increment_from_full_view_lands_on_the_minimum() {
    assert_eq!(Zoom::Full.increment(), Zoom::Value(ZOOM_MIN_DEFAULT));
    assert_eq!(Zoom::Full.increment_with_limits(50), Zoom::Value(ZOOM_MIN_DEFAULT));
}

#[test]
fn decrement_from_full_view_stays_full() {
    assert_eq!(Zoom::Full.decrement(), Zoom::Full);
}

#[test]
fn fine_steps_below_one_and_coarse_steps_above() {
    // 0.5 -> 0.6
    assert_eq!(Zoom::Value(5).increment(), Zoom::Value(6));
    // 0.9 -> 1.0, never past 1.0 by a fine step
    assert_eq!(Zoom::Value(9).increment(), Zoom::Value(10));
    // 1.0 -> 2.0
    assert_eq!(Zoom::Value(10).increment(), Zoom::Value(20));
    // 3.0 -> 2.0
    assert_eq!(Zoom::Value(30).decrement(), Zoom::Value(20));
    // 1.5 -> 1.0, coarse steps floor at 1.0
    assert_eq!(Zoom::Value(15).decrement(), Zoom::Value(10));
}

#[test]
fn repeated_increments_never_exceed_max() {
    let mut z = Zoom::Value(1);
    for _ in 0..50 {
        z = z.increment_with_limits(ZOOM_MAX_DEFAULT);
        match z {
            Zoom::Value(v) => assert!(v <= ZOOM_MAX_DEFAULT),
            Zoom::Full => panic!("increment must never land on full view"),
        }
    }
    assert_eq!(z, Zoom::Value(ZOOM_MAX_DEFAULT));
}

#[test]
fn decrements_with_a_minimum_above_one_floor_at_the_working_factor() {
    // a minimum of 2.5x cannot stop the coarse step: 3.0x steps to 2.0x,
    // below the minimum but never below the 1.0x working factor, and the
    // next step collapses to full view
    let mut z = Zoom::Value(40);
    let expected = [Zoom::Value(30), Zoom::Value(20), Zoom::Full, Zoom::Full];
    for e in expected {
        z = z.decrement_with_limits(25);
        assert_eq!(z, e);
        if let Zoom::Value(v) = z {
            assert!(v >= 10);
        }
    }
}

#[test]
fn repeated_decrements_never_go_below_min_except_full_view() {
    let mut z = Zoom::Value(100);
    for _ in 0..50 {
        z = z.decrement_with_limits(3);
        if let Zoom::Value(v) = z {
            assert!(v >= 3);
        }
    }
    assert_eq!(z, Zoom::Full);
}
