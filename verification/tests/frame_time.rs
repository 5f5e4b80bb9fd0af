//! Tests for the frame-time tracker.

use std::time::Duration;

use horizon_engine::time::Time;

#[test]
fn new_tracker_starts_at_zero() {
    let t = Time::new();
    assert_eq!(t.frame_count(), 0);
    assert_eq!(t.delta(), Duration::ZERO);
    assert_eq!(t.elapsed(), Duration::ZERO);
}

#[test]
fn update_counts_frames() {
    let mut t = Time::new();
    t.update();
    t.update();
    t.update();
    assert_eq!(t.frame_count(), 3);
}

#[test]
fn elapsed_accumulates_deltas() {
    let mut t = Time::new();
    t.update();
    let first = t.elapsed();
    t.update();
    // The monotonic clock never goes backwards, so elapsed time can
    // only grow, and the latest step never exceeds the total.
    assert!(t.elapsed() >= first);
    assert!(t.delta() <= t.elapsed());
}

#[test]
fn default_is_a_fresh_tracker() {
    let t = Time::default();
    assert_eq!(t.frame_count(), 0);
    assert_eq!(t.delta(), Duration::ZERO);
}
