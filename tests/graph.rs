use perf_overlay::graph::{palette_color, ChartPoint, Graph, Rgb, MAX_POINTS};
use perf_overlay::watch::Watch;

fn frame(g: &mut Graph, samples: Vec<u64>) {
    g.push_sample(&samples);
    g.rebuild_geometry();
}

#[test]
fn scenario_fifo_window_of_four() {
    let mut g = Graph::new(3, 4, 1000).unwrap();
    for x in 1..=4u64 {
        frame(&mut g, vec![x, 0, 0]);
    }
    assert_eq!(g.history(0), vec![1, 2, 3, 4]);
    frame(&mut g, vec![5, 0, 0]);
    assert_eq!(g.history(0), vec![2, 3, 4, 5]);
    assert_eq!(g.history(1), vec![0, 0, 0, 0]);
}

#[test]
fn history_never_exceeds_capacity() {
    let mut g = Graph::new(2, 3, 1000).unwrap();
    assert_eq!(g.history(0), Vec::<u64>::new());
    for x in 0..10u64 {
        g.push_sample(&vec![x, 100 + x]);
        assert!(g.history(0).len() <= 3);
        assert!(g.history(1).len() <= 3);
    }
    assert_eq!(g.history(0), vec![7, 8, 9]);
    assert_eq!(g.history(1), vec![107, 108, 109]);
}

#[test]
fn vertex_count_stays_fixed() {
    let mut g = Graph::new(5, 5, 1000).unwrap();
    assert_eq!(g.vertices().len(), 25);
    assert_eq!(g.colors().len(), 25);
    for x in 0..12u64 {
        frame(&mut g, vec![x; 5]);
        assert_eq!(g.vertices().len(), 25);
        assert_eq!(g.colors().len(), 25);
        assert_eq!(g.indices().len(), 40);
    }
}

#[test]
fn rebuild_twice_gives_same_geometry() {
    let mut g = Graph::new(2, 3, 1000).unwrap();
    frame(&mut g, vec![4, 9]);
    g.push_sample(&vec![6, 2]);
    g.rebuild_geometry();
    let first = g.vertices().clone();
    g.rebuild_geometry();
    assert_eq!(g.vertices(), &first);
}

#[test]
fn fresh_chart_is_flat() {
    let g = Graph::new(2, 3, 1000).unwrap();
    let want: Vec<ChartPoint> = (0..6u64).map(|v| ChartPoint { x: v % 3, y: 0 }).collect();
    assert_eq!(g.vertices(), &want);
}

#[test]
fn partial_history_is_right_aligned() {
    let mut g = Graph::new(1, 3, 1000).unwrap();
    frame(&mut g, vec![7]);
    assert_eq!(
        g.vertices(),
        &vec![ChartPoint { x: 0, y: 0 }, ChartPoint { x: 1, y: 0 }, ChartPoint { x: 2, y: 7 }]
    );
    frame(&mut g, vec![8]);
    assert_eq!(
        g.vertices(),
        &vec![ChartPoint { x: 0, y: 0 }, ChartPoint { x: 1, y: 7 }, ChartPoint { x: 2, y: 8 }]
    );
}

#[test]
fn push_alone_leaves_vertices_stale() {
    let mut g = Graph::new(1, 2, 1000).unwrap();
    g.push_sample(&vec![5]);
    assert_eq!(g.vertices(), &vec![ChartPoint { x: 0, y: 0 }, ChartPoint { x: 1, y: 0 }]);
    g.rebuild_geometry();
    assert_eq!(g.vertices(), &vec![ChartPoint { x: 0, y: 0 }, ChartPoint { x: 1, y: 5 }]);
}

#[test]
fn heights_are_clamped_to_ceiling() {
    let mut g = Graph::new(1, 2, 10).unwrap();
    frame(&mut g, vec![15]);
    frame(&mut g, vec![10]);
    assert_eq!(g.vertices(), &vec![ChartPoint { x: 0, y: 10 }, ChartPoint { x: 1, y: 10 }]);
    assert_eq!(g.history(0), vec![15, 10]);
}

#[test]
fn second_series_follows_first() {
    let mut g = Graph::new(2, 2, 1000).unwrap();
    frame(&mut g, vec![1, 2]);
    frame(&mut g, vec![3, 4]);
    assert_eq!(
        g.vertices(),
        &vec![
            ChartPoint { x: 0, y: 1 },
            ChartPoint { x: 1, y: 3 },
            ChartPoint { x: 0, y: 2 },
            ChartPoint { x: 1, y: 4 },
        ]
    );
}

#[test]
fn each_series_has_its_own_color() {
    let g = Graph::new(3, 2, 1000).unwrap();
    let c = g.colors();
    assert_eq!(c[0], c[1]);
    assert_eq!(c[2], c[3]);
    assert_ne!(c[1], c[2]);
    assert_ne!(c[3], c[4]);
    assert_eq!(c[4], palette_color(2));
    assert_eq!(palette_color(0), Rgb { r: 230, g: 25, b: 75 });
    assert_eq!(palette_color(9), palette_color(1));
}

#[test]
fn segments_join_consecutive_points_of_a_series() {
    let g = Graph::new(2, 3, 1000).unwrap();
    assert_eq!(g.indices(), &vec![0, 1, 1, 2, 3, 4, 4, 5]);
}

#[test]
fn single_slot_chart_has_no_segments() {
    let mut g = Graph::new(3, 1, 1000).unwrap();
    assert_eq!(g.indices().len(), 0);
    frame(&mut g, vec![1, 2, 3]);
    frame(&mut g, vec![4, 5, 6]);
    assert_eq!(g.history(2), vec![6]);
    assert_eq!(g.vertices()[1], ChartPoint { x: 0, y: 5 });
}

#[test]
fn construction_fails_without_series_or_slots() {
    assert!(Graph::new(0, 4, 1000).is_none());
    assert!(Graph::new(4, 0, 1000).is_none());
    assert!(Graph::new(MAX_POINTS + 1, 1, 1000).is_none());
    assert!(Graph::new(4097, 4096, 1000).is_none());
    assert!(Graph::new(usize::MAX, 2, 1000).is_none());
    let g = Graph::new(4096, 4096, 1000).unwrap();
    assert_eq!(g.series(), 4096);
    assert_eq!(g.capacity(), 4096);
}

#[test]
fn watch_feeds_graph() {
    let mut w = Watch::new(2);
    let mut g = Graph::new(2, 3, 1000).unwrap();
    w.start_at(0, 10);
    w.stop_at(0, 30);
    w.update();
    w.update_viewer(&mut g);
    w.start_at(1, 0);
    w.stop_at(1, 5);
    w.update();
    w.update_viewer(&mut g);
    assert_eq!(g.history(0), vec![20, 20]);
    assert_eq!(g.history(1), vec![0, 5]);
    assert_eq!(g.vertices()[2], ChartPoint { x: 2, y: 20 });
    assert_eq!(g.vertices()[5], ChartPoint { x: 2, y: 5 });
}
