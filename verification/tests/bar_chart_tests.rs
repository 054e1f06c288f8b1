use iced_graphs::bar_graph::drawing::BarGeometry;
use iced_graphs::bar_graph::state::BarGraphState;
use iced_graphs::bar_graph::BarGraph;
use iced_graphs::binning::BinAggregator;
use iced_graphs::cache::GeometryCache;
use iced_graphs::geometry::{PointPx, RectPx, SizePx};
use iced_graphs::interaction::{BarInteraction, GraphAction, GraphEvent};
use iced_graphs::zoom::Zoom;

fn bounds(width: i64, height: i64) -> SizePx {
    SizePx { width, height }
}

fn at(x: i64, y: i64) -> Option<PointPx> {
    Some(PointPx { x, y })
}

#[test]
fn cursor_in_the_third_bar_hits_index_two() {
    // ten visible bars over a width of 100: bar width 10, cursor at 2.5
    // bar widths from the left
    let graph = BarGraph::new(vec![1i64, 2, 3, 4, 5, 6, 7, 8, 9, 10]);
    let mut state = BarGraphState::default();
    let mut cache: GeometryCache<BarGeometry> = GeometryCache::new();
    assert_eq!(graph.visible_bar_count(10), 10);
    let action = graph.update(
        &mut state,
        &mut cache,
        &GraphEvent::CursorMoved,
        &bounds(100, 140),
        at(25, 50),
    );
    assert!(matches!(action, Some(GraphAction::Publish(BarInteraction::BarHovered(2)))));
    assert_eq!(state.hovered_bar, Some(2));
}

#[test]
fn hover_change_invalidates_the_cache() {
    let graph = BarGraph::new(vec![1i64, 2, 3, 4]);
    let mut state = BarGraphState::default();
    let mut cache: GeometryCache<BarGeometry> = GeometryCache::new();
    let b = bounds(100, 140);
    graph.draw(&state, &mut cache, b, None);
    assert!(cache.get(&b).is_some());
    let action = graph.update(&mut state, &mut cache, &GraphEvent::CursorMoved, &b, at(10, 50));
    assert!(matches!(action, Some(GraphAction::Publish(BarInteraction::BarHovered(0)))));
    // the transition changed the hovered bar, so the cache must be cleared
    assert!(cache.get(&b).is_none());
}

#[test]
fn unchanged_hover_keeps_the_cache() {
    let graph = BarGraph::new(vec![1i64, 2, 3, 4]);
    let mut state = BarGraphState::default();
    let mut cache: GeometryCache<BarGeometry> = GeometryCache::new();
    let b = bounds(100, 140);
    graph.update(&mut state, &mut cache, &GraphEvent::CursorMoved, &b, at(10, 50));
    graph.draw(&state, &mut cache, b, at(10, 50));
    assert!(cache.get(&b).is_some());
    // the same bar stays hovered: no state change, no invalidation
    let action = graph.update(&mut state, &mut cache, &GraphEvent::CursorMoved, &b, at(12, 60));
    assert!(action.is_none());
    assert!(cache.get(&b).is_some());
}

#[test]
fn cursor_leaving_the_frame_clears_the_hover() {
    let graph = BarGraph::new(vec![1i64, 2, 3, 4]);
    let mut state = BarGraphState::default();
    let mut cache: GeometryCache<BarGeometry> = GeometryCache::new();
    let b = bounds(100, 140);
    graph.update(&mut state, &mut cache, &GraphEvent::CursorMoved, &b, at(10, 50));
    assert_eq!(state.hovered_bar, Some(0));
    graph.draw(&state, &mut cache, b, at(10, 50));
    let action = graph.update(&mut state, &mut cache, &GraphEvent::CursorMoved, &b, None);
    assert!(matches!(action, Some(GraphAction::Redraw)));
    assert_eq!(state.hovered_bar, None);
    assert!(cache.get(&b).is_none());
}

#[test]
fn click_publishes_the_hovered_bar() {
    let graph = BarGraph::new(vec![1i64, 2, 3, 4]);
    let mut state = BarGraphState::default();
    let mut cache: GeometryCache<BarGeometry> = GeometryCache::new();
    let b = bounds(100, 140);
    let action = graph.update(&mut state, &mut cache, &GraphEvent::LeftPressed, &b, at(10, 50));
    assert!(action.is_none());
    graph.update(&mut state, &mut cache, &GraphEvent::CursorMoved, &b, at(30, 50));
    let action = graph.update(&mut state, &mut cache, &GraphEvent::LeftPressed, &b, at(30, 50));
    assert!(matches!(action, Some(GraphAction::Publish(BarInteraction::BarClicked(1)))));
}

#[test]
fn wheel_scroll_steps_the_bar_zoom_and_invalidates() {
    let graph = BarGraph::new(vec![1i64, 2, 3, 4]);
    let mut state = BarGraphState::default();
    let mut cache: GeometryCache<BarGeometry> = GeometryCache::new();
    let b = bounds(100, 140);
    graph.draw(&state, &mut cache, b, None);
    let action = graph.update(
        &mut state,
        &mut cache,
        &GraphEvent::WheelScrolled { upward: true },
        &b,
        at(10, 50),
    );
    assert!(matches!(
        action,
        Some(GraphAction::PublishAndCapture(BarInteraction::ZoomChanged(Zoom::Value(20))))
    ));
    assert_eq!(state.zoom, Zoom::Value(20));
    assert!(cache.get(&b).is_none());
    // scrolling down returns to 1.0x
    let action = graph.update(
        &mut state,
        &mut cache,
        &GraphEvent::WheelScrolled { upward: false },
        &b,
        at(10, 50),
    );
    assert!(matches!(
        action,
        Some(GraphAction::PublishAndCapture(BarInteraction::ZoomChanged(Zoom::Value(10))))
    ));
    assert_eq!(state.zoom, Zoom::Value(10));
}

#[test]
fn wheel_scroll_away_from_the_bar_chart_does_nothing() {
    let graph = BarGraph::new(vec![1i64, 2, 3, 4]);
    let mut state = BarGraphState::default();
    let mut cache: GeometryCache<BarGeometry> = GeometryCache::new();
    let b = bounds(100, 140);
    graph.draw(&state, &mut cache, b, None);
    let action = graph.update(
        &mut state,
        &mut cache,
        &GraphEvent::WheelScrolled { upward: true },
        &b,
        None,
    );
    assert!(action.is_none());
    assert_eq!(state.zoom, Zoom::Value(10));
    assert!(cache.get(&b).is_some());
}

#[test]
fn bar_zoom_windows_recent_samples_before_binning() {
    // 30 samples with a window base of 10 at 1.0x: the last ten samples,
    // one bar each
    let data: Vec<i64> = (0..30).collect();
    let graph = BarGraph::new(data).base_items(10);
    let mut state = BarGraphState::default();
    let geom = graph.compute_geometry(&state, bounds(100, 140), None);
    assert_eq!(geom.bins, (20..30).collect::<Vec<i64>>());
    // zooming out by one step (0.9x) widens the window to eleven samples
    let mut cache: GeometryCache<BarGeometry> = GeometryCache::new();
    let b = bounds(100, 140);
    let action = graph.update(
        &mut state,
        &mut cache,
        &GraphEvent::WheelScrolled { upward: false },
        &b,
        at(10, 50),
    );
    assert!(matches!(
        action,
        Some(GraphAction::PublishAndCapture(BarInteraction::ZoomChanged(Zoom::Value(9))))
    ));
    let geom = graph.compute_geometry(&state, b, None);
    assert_eq!(geom.bins, (19..30).collect::<Vec<i64>>());
    // full view shows every sample
    let full = BarGraphState::new(Zoom::Full);
    let geom = graph.compute_geometry(&full, b, None);
    assert_eq!(geom.bins.len(), 30);
}

#[test]
fn negative_bars_render_no_height() {
    let graph = BarGraph::new(vec![-10i64, 20]);
    let state = BarGraphState::default();
    let geom = graph.compute_geometry(&state, bounds(100, 140), None);
    assert_eq!(geom.bins, vec![-10, 20]);
    // a negative value scales below zero and clamps to an empty bar
    assert_eq!(geom.bars[0].height, 0);
    assert_eq!(geom.bars[0].y, 100);
    assert_eq!(geom.bars[1].height, 100);
}

#[test]
fn bar_empty_data_draws_nothing_and_does_not_panic() {
    let graph = BarGraph::new(Vec::<i64>::new());
    let state = BarGraphState::default();
    let geom = graph.compute_geometry(&state, bounds(100, 140), None);
    assert!(geom.bins.is_empty());
    assert!(geom.bars.is_empty());
    assert!(geom.scale_lines.is_empty());
    assert!(geom.hover.is_none());
    assert!(geom.average_line.is_none());
    let mut state = BarGraphState::default();
    let mut cache: GeometryCache<BarGeometry> = GeometryCache::new();
    let action = graph.update(
        &mut state,
        &mut cache,
        &GraphEvent::CursorMoved,
        &bounds(100, 140),
        at(10, 50),
    );
    assert!(action.is_none());
    // a stale hover on an empty chart is cleared: no hits exist
    state.hovered_bar = Some(3);
    graph.draw(&state, &mut cache, bounds(100, 140), None);
    let action = graph.update(
        &mut state,
        &mut cache,
        &GraphEvent::CursorMoved,
        &bounds(100, 140),
        at(10, 50),
    );
    assert!(matches!(action, Some(GraphAction::Redraw)));
    assert_eq!(state.hovered_bar, None);
    assert!(cache.get(&bounds(100, 140)).is_none());
}

#[test]
fn all_zero_values_draw_nothing() {
    let graph = BarGraph::new(vec![0i64, 0, 0]);
    let state = BarGraphState::default();
    let geom = graph.compute_geometry(&state, bounds(100, 140), None);
    assert!(geom.bars.is_empty());
    assert_eq!(geom.max_value, 0);
}

#[test]
fn two_bar_layout_is_exact() {
    let graph = BarGraph::new(vec![10i64, 20]);
    let state = BarGraphState::default();
    let geom = graph.compute_geometry(&state, bounds(100, 140), None);
    assert_eq!(geom.bins, vec![10, 20]);
    assert_eq!(geom.max_value, 20);
    assert_eq!(geom.average, 15);
    assert_eq!(geom.bars.len(), 2);
    assert_eq!(geom.bars[0], RectPx { x: 2, y: 50, width: 45, height: 50 });
    assert_eq!(geom.bars[1], RectPx { x: 52, y: 0, width: 45, height: 100 });
    // six scale lines from the top to the zero baseline
    assert_eq!(geom.scale_lines.len(), 6);
    assert_eq!(geom.scale_lines[0].y, 0);
    assert_eq!(geom.scale_lines[0].value, 20);
    assert_eq!(geom.scale_lines[1].y, 20);
    assert_eq!(geom.scale_lines[1].value, 16);
    assert_eq!(geom.scale_lines[5].y, 100);
    assert_eq!(geom.scale_lines[5].value, 0);
    assert_eq!(geom.baseline_y, 100);
    assert_eq!(geom.vertical_line_xs, vec![0, 100]);
    assert_eq!(geom.index_label_xs, vec![25, 75]);
    let avg = geom.average_line.expect("average line is drawn with labels on");
    assert_eq!(avg.y, 25);
    assert_eq!(avg.value, 15);
}

#[test]
fn hover_overlay_covers_the_bar_under_the_cursor() {
    let graph = BarGraph::new(vec![10i64, 20]);
    let state = BarGraphState::default();
    let geom = graph.compute_geometry(&state, bounds(100, 140), at(25, 50));
    let hover = geom.hover.expect("cursor over the first bar");
    assert_eq!(hover.index, 0);
    assert_eq!(hover.overlay, RectPx { x: 0, y: 0, width: 50, height: 100 });
    assert_eq!(hover.value, 10);
    assert_eq!(hover.label_position, PointPx { x: 25, y: 50 });
    assert!(hover.label_above);
}

#[test]
fn cursor_below_the_chart_area_hovers_nothing() {
    let graph = BarGraph::new(vec![10i64, 20]);
    let state = BarGraphState::default();
    // y = 120 lies in the bottom margin
    let geom = graph.compute_geometry(&state, bounds(100, 140), at(25, 120));
    assert!(geom.hover.is_none());
}

#[test]
fn zero_valued_bar_keeps_a_visible_sliver() {
    let graph = BarGraph::new(vec![0i64, 10]);
    let state = BarGraphState::default();
    let geom = graph.compute_geometry(&state, bounds(100, 140), None);
    assert_eq!(geom.bars[0].height, 3);
    assert_eq!(geom.bars[1].height, 100);
    // a hovered zero bar pins its label above the baseline
    let geom = graph.compute_geometry(&state, bounds(100, 140), at(10, 50));
    let hover = geom.hover.expect("cursor over the zero bar");
    assert_eq!(hover.value, 0);
    assert_eq!(hover.label_position, PointPx { x: 10, y: 85 });
}

#[test]
fn sum_aggregator_bins_add_up_in_the_geometry() {
    let graph = BarGraph::new(vec![1i64, 2, 3, 4, 5, 6])
        .bins(3)
        .bin_aggregator(BinAggregator::Sum);
    let state = BarGraphState::default();
    let geom = graph.compute_geometry(&state, bounds(120, 140), None);
    assert_eq!(geom.bins, vec![3, 7, 11]);
    assert_eq!(geom.bins.iter().sum::<i64>(), 21);
}

#[test]
fn grid_and_labels_can_be_switched_off() {
    let graph = BarGraph::new(vec![10i64, 20]).show_grid(false).show_labels(false);
    let state = BarGraphState::default();
    let geom = graph.compute_geometry(&state, bounds(100, 140), None);
    assert!(geom.scale_lines.is_empty());
    assert!(geom.vertical_line_xs.is_empty());
    assert_eq!(geom.baseline_y, 0);
    assert!(geom.index_label_xs.is_empty());
    assert!(geom.average_line.is_none());
    // the bars themselves are still drawn
    assert_eq!(geom.bars.len(), 2);
}

#[test]
fn cache_is_keyed_by_the_frame_size() {
    let graph = BarGraph::new(vec![1i64, 2, 3]);
    let state = BarGraphState::default();
    let mut cache: GeometryCache<BarGeometry> = GeometryCache::new();
    let small = bounds(100, 140);
    let large = bounds(200, 180);
    graph.draw(&state, &mut cache, small, None);
    assert!(cache.get(&small).is_some());
    assert!(cache.get(&large).is_none());
    graph.draw(&state, &mut cache, large, None);
    assert!(cache.get(&large).is_some());
    assert!(cache.get(&small).is_none());
}

#[test]
fn bar_builders_configure_the_chart() {
    let graph = BarGraph::new(vec![1i64])
        .bar_width(4)
        .base_bars(20)
        .base_items(30)
        .show_grid(false)
        .show_labels(true)
        .bin_aggregator(BinAggregator::Max);
    assert_eq!(graph.bar_width, 4);
    assert_eq!(graph.base_bars, 20);
    assert_eq!(graph.base_items, 30);
    assert!(!graph.show_grid);
    assert!(graph.show_labels);
    assert!(matches!(graph.bin_aggregator, BinAggregator::Max));
    let graph = graph.bins(0);
    assert_eq!(graph.base_bars, 1);
}

#[test]
fn default_state_has_no_hover_and_one_x_zoom() {
    let state = BarGraphState::default();
    assert_eq!(state.zoom, Zoom::Value(10));
    assert_eq!(state.hovered_bar, None);
    let state = BarGraphState::new(Zoom::Full);
    assert_eq!(state.zoom, Zoom::Full);
}
