use perf_overlay::clock::to_u64_nanos;
use perf_overlay::watch::Watch;

#[test]
fn interval_is_time_between_readings() {
    let mut w = Watch::new(3);
    w.start_at(1, 100);
    w.stop_at(1, 350);
    w.update();
    assert_eq!(w.durations(), &vec![0, 250, 0]);
}

#[test]
fn clock_reading_earlier_than_start_gives_zero() {
    let mut w = Watch::new(2);
    w.start_at(0, 500);
    w.stop_at(0, 400);
    w.update();
    assert_eq!(w.durations()[0], 0);
}

#[test]
fn real_clock_interval_is_close_to_elapsed_time() {
    let mut w = Watch::new(1);
    let outer = std::time::Instant::now();
    w.start(0);
    let inner = std::time::Instant::now();
    while inner.elapsed() < std::time::Duration::from_millis(3) {}
    w.stop(0);
    let total = outer.elapsed().as_nanos() as u64;
    w.update();
    let d = w.durations()[0];
    assert!(d >= 3_000_000, "{}", d);
    assert!(d <= total, "{} > {}", d, total);
}

#[test]
fn skipped_frame_carries_duration_forward() {
    let mut w = Watch::new(2);
    w.start_at(0, 10);
    w.stop_at(0, 40);
    w.start_at(1, 10);
    w.stop_at(1, 15);
    w.update();
    assert_eq!(w.durations(), &vec![30, 5]);
    w.start_at(1, 100);
    w.stop_at(1, 107);
    w.update();
    assert_eq!(w.durations(), &vec![30, 7]);
    w.update();
    assert_eq!(w.durations(), &vec![30, 7]);
}

#[test]
fn second_start_keeps_first_timestamp() {
    let mut w = Watch::new(1);
    w.start_at(0, 10);
    w.start_at(0, 20);
    assert!(w.is_running(0));
    w.update();
    assert_eq!(w.durations()[0], 0);
    w.stop_at(0, 25);
    w.update();
    assert_eq!(w.durations()[0], 15);
}

#[test]
fn stop_without_start_is_ignored() {
    let mut w = Watch::new(1);
    w.start_at(0, 0);
    w.stop_at(0, 9);
    w.update();
    w.stop_at(0, 50);
    w.update();
    assert_eq!(w.durations()[0], 9);
    assert!(!w.is_running(0));
}

#[test]
fn out_of_range_index_is_ignored() {
    let mut w = Watch::new(2);
    w.start_at(2, 0);
    w.stop_at(2, 10);
    w.start(7);
    w.stop(7);
    w.update();
    assert_eq!(w.durations(), &vec![0, 0]);
    assert_eq!(w.size(), 2);
    assert!(!w.is_running(2));
}

#[test]
fn last_interval_of_a_frame_wins() {
    let mut w = Watch::new(1);
    w.start_at(0, 0);
    w.stop_at(0, 4);
    w.start_at(0, 10);
    w.stop_at(0, 11);
    w.update();
    assert_eq!(w.durations()[0], 1);
}

#[test]
fn interval_may_span_frames() {
    let mut w = Watch::new(1);
    w.start_at(0, 100);
    w.update();
    assert!(w.is_running(0));
    w.stop_at(0, 160);
    w.update();
    assert_eq!(w.durations()[0], 60);
}

#[test]
fn nanos_saturate_at_u64_max() {
    assert_eq!(to_u64_nanos(12), 12);
    assert_eq!(to_u64_nanos(u64::MAX as u128), u64::MAX);
    assert_eq!(to_u64_nanos(u64::MAX as u128 + 5), u64::MAX);
}
