use perf_overlay::monitor::{DrawCall, PerformanceMonitor, HISTORY_SIZE, WATCHPOINTS_SIZE};

#[test]
fn hidden_overlay_draws_nothing_then_full_history() {
    let mut m = PerformanceMonitor::new();
    assert!(!m.show);
    for f in 0..10u64 {
        m.watch.start_at(0, 1000 * f);
        m.watch.stop_at(0, 1000 * f + f + 1);
        m.update();
        assert_eq!(m.draw(), None);
    }
    m.toggle_show();
    assert!(m.show);
    let call = m.draw().unwrap();
    assert_eq!(call, DrawCall { index_count: 40, instance_count: 1 });
    assert_eq!(m.graph.history(0), vec![6, 7, 8, 9, 10]);
    assert_eq!(m.graph.history(1), vec![0, 0, 0, 0, 0]);
    let ys: Vec<u64> = m.graph.vertices()[0..5].iter().map(|p| p.y).collect();
    assert_eq!(ys, vec![6, 7, 8, 9, 10]);
}

#[test]
fn monitor_sizes() {
    let m = PerformanceMonitor::new();
    assert_eq!(m.watch.size(), WATCHPOINTS_SIZE);
    assert_eq!(m.graph.series(), WATCHPOINTS_SIZE);
    assert_eq!(m.graph.capacity(), HISTORY_SIZE);
    assert_eq!(m.graph.vertices().len(), WATCHPOINTS_SIZE * HISTORY_SIZE);
}

#[test]
fn toggling_twice_hides_again() {
    let mut m = PerformanceMonitor::new();
    m.toggle_show();
    assert!(m.draw().is_some());
    m.toggle_show();
    assert_eq!(m.draw(), None);
}

#[test]
fn slow_frame_is_clamped_in_chart() {
    let mut m = PerformanceMonitor::new();
    m.watch.start_at(1, 0);
    m.watch.stop_at(1, 80_000_000);
    m.update();
    assert_eq!(m.graph.history(1), vec![80_000_000]);
    assert_eq!(m.graph.vertices()[9].y, perf_overlay::monitor::CHART_CEILING);
}
