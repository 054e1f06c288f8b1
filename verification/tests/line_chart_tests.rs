use iced_graphs::cache::GeometryCache;
use iced_graphs::geometry::{PointPx, SizePx};
use iced_graphs::interaction::{GraphAction, GraphEvent, GraphInteraction, LineInteraction};
use iced_graphs::line_graph::drawing::LineGeometry;
use iced_graphs::line_graph::state::{LineGraphState, PanMode};
use iced_graphs::line_graph::LineGraph;
use iced_graphs::zoom::Zoom;

fn bounds(width: i64, height: i64) -> SizePx {
    SizePx { width, height }
}

fn at(x: i64, y: i64) -> Option<PointPx> {
    Some(PointPx { x, y })
}

// Two samples on a 140x140 frame: a 60x60 chart area with points placed at
// (40, 100) and (100, 40).
fn two_point_graph() -> LineGraph<i64, iced_graphs::mapper::DefaultMap> {
    LineGraph::new(vec![0i64, 10])
}

#[test]
fn points_are_placed_on_the_chart_area() {
    let graph = two_point_graph();
    let state = LineGraphState::default();
    let geom = graph.compute_geometry(&state, bounds(140, 140));
    assert_eq!(geom.start_index, 0);
    assert_eq!(geom.values, vec![0, 10]);
    assert_eq!(geom.points, vec![PointPx { x: 40, y: 100 }, PointPx { x: 100, y: 40 }]);
    assert_eq!(geom.min_value, 0);
    assert_eq!(geom.max_value, 10);
    assert_eq!(geom.average, 5);
    assert!(geom.points_shown);
    assert_eq!(geom.hovered, None);
}

#[test]
fn cursor_at_a_point_center_hovers_that_point() {
    let graph = two_point_graph();
    let mut state = LineGraphState::default();
    let mut cache: GeometryCache<LineGeometry> = GeometryCache::new();
    let b = bounds(140, 140);
    graph.draw(&state, &mut cache, b);
    let action = graph.update(&mut state, &mut cache, &GraphEvent::CursorMoved, &b, at(100, 40));
    assert!(matches!(action, Some(GraphAction::Publish(LineInteraction::PointHovered(1)))));
    assert_eq!(state.hovered_point, Some(1));
    // the hover change invalidated the cache
    assert!(cache.get(&b).is_none());
}

#[test]
fn nearby_cursor_hits_within_twenty_pixels_only() {
    let graph = two_point_graph();
    let mut state = LineGraphState::default();
    let mut cache: GeometryCache<LineGeometry> = GeometryCache::new();
    let b = bounds(140, 140);
    // five pixels away: a hit
    assert_eq!(graph.find_nearest_point(PointPx { x: 95, y: 40 }, b, &state), Some(1));
    // sixty pixels from both points: no hit
    assert_eq!(graph.find_nearest_point(PointPx { x: 40, y: 40 }, b, &state), None);
    // a miss after a hit clears the hover and asks for a repaint
    graph.update(&mut state, &mut cache, &GraphEvent::CursorMoved, &b, at(95, 40));
    assert_eq!(state.hovered_point, Some(1));
    graph.draw(&state, &mut cache, b);
    let action = graph.update(&mut state, &mut cache, &GraphEvent::CursorMoved, &b, at(40, 40));
    assert!(matches!(action, Some(GraphAction::Redraw)));
    assert_eq!(state.hovered_point, None);
    assert!(cache.get(&b).is_none());
}

#[test]
fn the_nearest_of_two_candidates_wins() {
    let graph = two_point_graph();
    let state = LineGraphState::default();
    let b = bounds(140, 140);
    // (90, 50): about fourteen pixels from the second point, far from the
    // first
    assert_eq!(graph.find_nearest_point(PointPx { x: 90, y: 50 }, b, &state), Some(1));
}

#[test]
fn click_publishes_the_point_under_the_cursor() {
    let graph = two_point_graph();
    let mut state = LineGraphState::default();
    let mut cache: GeometryCache<LineGeometry> = GeometryCache::new();
    let b = bounds(140, 140);
    let action = graph.update(&mut state, &mut cache, &GraphEvent::LeftPressed, &b, at(41, 99));
    assert!(matches!(action, Some(GraphAction::Publish(LineInteraction::PointClicked(0)))));
    // a click mutates nothing
    assert_eq!(state, LineGraphState::default());
    let action = graph.update(&mut state, &mut cache, &GraphEvent::LeftPressed, &b, None);
    assert!(action.is_none());
}

#[test]
fn wheel_scroll_steps_the_zoom_and_invalidates() {
    let graph = two_point_graph();
    let mut state = LineGraphState::default();
    let mut cache: GeometryCache<LineGeometry> = GeometryCache::new();
    let b = bounds(140, 140);
    graph.draw(&state, &mut cache, b);
    let action = graph.update(
        &mut state,
        &mut cache,
        &GraphEvent::WheelScrolled { upward: true },
        &b,
        at(70, 70),
    );
    assert!(matches!(
        action,
        Some(GraphAction::PublishAndCapture(LineInteraction::ZoomChanged(Zoom::Value(20))))
    ));
    assert_eq!(state.zoom, Zoom::Value(20));
    assert!(cache.get(&b).is_none());
    // scrolling down returns to 1.0x
    let action = graph.update(
        &mut state,
        &mut cache,
        &GraphEvent::WheelScrolled { upward: false },
        &b,
        at(70, 70),
    );
    assert!(matches!(
        action,
        Some(GraphAction::PublishAndCapture(LineInteraction::ZoomChanged(Zoom::Value(10))))
    ));
}

#[test]
fn wheel_scroll_away_from_the_widget_does_nothing() {
    let graph = two_point_graph();
    let mut state = LineGraphState::default();
    let mut cache: GeometryCache<LineGeometry> = GeometryCache::new();
    let b = bounds(140, 140);
    let action = graph.update(
        &mut state,
        &mut cache,
        &GraphEvent::WheelScrolled { upward: true },
        &b,
        None,
    );
    assert!(action.is_none());
    assert_eq!(state.zoom, Zoom::Value(10));
}

#[test]
fn external_zoom_makes_scroll_read_only() {
    let graph = two_point_graph().external_zoom(Zoom::Value(30));
    let mut state = LineGraphState::default();
    let mut cache: GeometryCache<LineGeometry> = GeometryCache::new();
    let b = bounds(140, 140);
    let action = graph.update(
        &mut state,
        &mut cache,
        &GraphEvent::WheelScrolled { upward: true },
        &b,
        at(70, 70),
    );
    assert!(action.is_none());
    assert_eq!(state.zoom, Zoom::Value(10));
    // and the external value drives the drawing
    let geom = graph.compute_geometry(&state, b);
    assert_eq!(geom.values.len(), 2);
    let graph = graph.use_internal_zoom();
    assert!(graph.external_zoom.is_none());
}

#[test]
fn hover_is_disabled_in_full_view() {
    let graph = two_point_graph().external_zoom(Zoom::Full);
    let mut state = LineGraphState::default();
    state.hovered_point = Some(0);
    let mut cache: GeometryCache<LineGeometry> = GeometryCache::new();
    let b = bounds(140, 140);
    graph.draw(&state, &mut cache, b);
    let action = graph.update(&mut state, &mut cache, &GraphEvent::CursorMoved, &b, at(100, 40));
    assert!(matches!(action, Some(GraphAction::Redraw)));
    assert_eq!(state.hovered_point, None);
    assert!(cache.get(&b).is_none());
}

#[test]
fn hover_is_disabled_at_the_minimum_zoom() {
    // the threshold is strict: at the minimum itself nothing is hovered
    let graph = two_point_graph().zoom_min(10);
    let mut state = LineGraphState::default();
    let mut cache: GeometryCache<LineGeometry> = GeometryCache::new();
    let b = bounds(140, 140);
    let action = graph.update(&mut state, &mut cache, &GraphEvent::CursorMoved, &b, at(100, 40));
    assert!(action.is_none());
    assert_eq!(state.hovered_point, None);
}

#[test]
fn line_empty_data_draws_nothing_and_does_not_panic() {
    let graph = LineGraph::new(Vec::<i64>::new());
    let state = LineGraphState::default();
    let geom = graph.compute_geometry(&state, bounds(140, 140));
    assert!(geom.values.is_empty());
    assert!(geom.points.is_empty());
    assert!(geom.grid.is_none());
    assert!(geom.average_line.is_none());
    assert!(geom.y_labels.is_empty());
    let mut state = LineGraphState::default();
    let mut cache: GeometryCache<LineGeometry> = GeometryCache::new();
    let action = graph.update(
        &mut state,
        &mut cache,
        &GraphEvent::CursorMoved,
        &bounds(140, 140),
        at(70, 70),
    );
    assert!(action.is_none());
}

#[test]
fn flat_values_draw_nothing() {
    // a zero value range would divide by zero; the frame stays blank
    let graph = LineGraph::new(vec![7i64, 7, 7]);
    let state = LineGraphState::default();
    let geom = graph.compute_geometry(&state, bounds(140, 140));
    assert!(geom.points.is_empty());
    assert_eq!(graph.find_nearest_point(PointPx { x: 70, y: 70 }, bounds(140, 140), &state), None);
}

#[test]
fn grid_labels_and_average_line_are_exact() {
    let graph = two_point_graph();
    let state = LineGraphState::default();
    let geom = graph.compute_geometry(&state, bounds(140, 140));
    let grid = geom.grid.expect("grid is on by default");
    assert_eq!(grid.horizontal.len(), 11);
    assert_eq!(grid.vertical.len(), 11);
    assert_eq!(grid.border.x, 40);
    assert_eq!(grid.border.width, 60);
    assert_eq!(grid.horizontal[0].segment.from, PointPx { x: 40, y: 40 });
    assert_eq!(grid.horizontal[0].segment.to, PointPx { x: 100, y: 40 });
    assert!(grid.horizontal[0].major);
    assert!(!grid.horizontal[1].major);
    // six y-axis labels, the greatest value at the top
    assert_eq!(geom.y_labels.len(), 6);
    let values: Vec<i64> = geom.y_labels.iter().map(|l| l.value).collect();
    assert_eq!(values, vec![10, 8, 6, 4, 2, 0]);
    let ys: Vec<i64> = geom.y_labels.iter().map(|l| l.y).collect();
    assert_eq!(ys, vec![40, 52, 64, 76, 88, 100]);
    // the average line sits at the average's height, dashed across the chart
    let avg = geom.average_line.expect("labels are on by default");
    assert_eq!(avg.value, 5);
    assert_eq!(avg.y, 70);
    assert_eq!(avg.segments.len(), 3);
    assert_eq!(avg.segments[0].from, PointPx { x: 40, y: 70 });
    assert_eq!(avg.segments[0].to, PointPx { x: 55, y: 70 });
    assert_eq!(avg.segments[2].from, PointPx { x: 80, y: 70 });
    assert_eq!(avg.segments[2].to, PointPx { x: 95, y: 70 });
}

#[test]
fn labels_and_grid_can_be_switched_off() {
    let graph = two_point_graph().show_grid(false).show_labels(false).show_points(false);
    let state = LineGraphState::default();
    let geom = graph.compute_geometry(&state, bounds(140, 140));
    assert!(geom.grid.is_none());
    assert!(geom.average_line.is_none());
    assert!(geom.y_labels.is_empty());
    assert!(!geom.points_shown);
    // the polyline itself is still there
    assert_eq!(geom.points.len(), 2);
}

#[test]
fn windowing_anchors_to_recent_data() {
    // 30 samples at 1.0x with a base window of 10: the last 10 are shown
    let data: Vec<i64> = (0..30).collect();
    let graph = LineGraph::new(data).base_points(10);
    let state = LineGraphState::default();
    let geom = graph.compute_geometry(&state, bounds(140, 140));
    assert_eq!(geom.start_index, 20);
    assert_eq!(geom.values, (20..30).collect::<Vec<i64>>());
}

#[test]
fn full_view_shows_every_sample() {
    let data: Vec<i64> = (0..30).collect();
    let graph = LineGraph::new(data).base_points(10).external_zoom(Zoom::Full);
    let state = LineGraphState::default();
    let geom = graph.compute_geometry(&state, bounds(140, 140));
    assert_eq!(geom.start_index, 0);
    assert_eq!(geom.values.len(), 30);
    assert!(!geom.points_shown);
}

#[test]
fn cache_hit_returns_the_stored_frame() {
    let graph = two_point_graph();
    let state = LineGraphState::default();
    let mut cache: GeometryCache<LineGeometry> = GeometryCache::new();
    let b = bounds(140, 140);
    graph.draw(&state, &mut cache, b);
    let first = cache.get(&b).expect("stored after the first draw").clone();
    graph.draw(&state, &mut cache, b);
    let second = cache.get(&b).expect("still stored").clone();
    assert_eq!(first, second);
}

#[test]
fn pan_modes_are_recorded() {
    let mut state = LineGraphState::default();
    assert!(matches!(state.pan.mode, PanMode::End));
    state.pan_start();
    assert!(matches!(state.pan.mode, PanMode::Start));
    state.pan_absolute(17);
    assert!(matches!(state.pan.mode, PanMode::Absolute(17)));
    state.pan_end();
    assert!(matches!(state.pan.mode, PanMode::End));
}

#[test]
fn interactions_translate_to_the_generic_kind() {
    let g: GraphInteraction<LineInteraction> =
        GraphInteraction::from(LineInteraction::PointHovered(4));
    assert!(matches!(g, GraphInteraction::ItemHovered(4)));
    let g: GraphInteraction<LineInteraction> =
        GraphInteraction::from(LineInteraction::PointClicked(2));
    assert!(matches!(g, GraphInteraction::ItemClicked(2)));
    let g: GraphInteraction<iced_graphs::interaction::BarInteraction> =
        GraphInteraction::from(iced_graphs::interaction::BarInteraction::ZoomChanged(Zoom::Full));
    assert!(matches!(g, GraphInteraction::ZoomChanged(Zoom::Full)));
}

#[test]
fn line_builders_configure_the_chart() {
    let graph = two_point_graph()
        .line_width(3)
        .point_radius(5)
        .base_points(25)
        .zoom_range(2, 60)
        .show_points(true);
    assert_eq!(graph.line_width, 3);
    assert_eq!(graph.point_radius, 5);
    assert_eq!(graph.base_points, 25);
    assert_eq!(graph.zoom_min, 2);
    assert_eq!(graph.zoom_max, 60);
    let graph = graph.zoom_min(3).zoom_max(90);
    assert_eq!(graph.zoom_min, 3);
    assert_eq!(graph.zoom_max, 90);
}
