//! The line chart: configuration, point placement, nearest-point
//! hit-testing, and the interaction state machine.

pub mod drawing;
pub mod state;

use vstd::prelude::*;
use crate::binning::{
    div_floor, ints_of, lemma_seq_minmax_element, lemma_seq_minmax_in_range, max_range, min_range,
    seq_max, seq_min,
    values_bounded,
};
use crate::cache::GeometryCache;
use crate::geometry::{size_wf, PointPx, SizePx};
use crate::graph_state::{calculate_visible_range, visible_values_spec};
use crate::interaction::{cursor_wf, GraphAction, GraphEvent, LineInteraction};
use crate::mapper::{DefaultMap, ValueMapper, LEN_LIMIT, VALUE_LIMIT};
use crate::zoom::{
    zoom_decrement_spec, zoom_increment_spec, Zoom, ZOOM_MAX_DEFAULT, ZOOM_MIN_DEFAULT, ZOOM_ONE,
};
use self::state::LineGraphState;

verus! {

/// Fixed padding around the chart area, in pixel units.
pub const PADDING: i64 = 40;

/// The squared hover radius: a point is hit when the cursor is within
/// twenty pixels of its center.
pub const HOVER_DIST2: i64 = 400;

/// A configured line chart over an owned, re-enumerable buffer of samples.
pub struct LineGraph<T, M> {
    pub datapoints: Vec<T>,
    pub line_width: i64,
    pub show_points: bool,
    pub point_radius: i64,
    pub show_grid: bool,
    pub show_labels: bool,
    pub zoom: Zoom,
    /// Target number of points shown at 1.0x zoom.
    pub base_points: u64,
    /// Zoom bounds, in tenths of the magnification factor.
    pub zoom_min: u32,
    pub zoom_max: u32,
    pub mapper: M,
    /// Optional external zoom override; scroll is read-only while it is set.
    pub external_zoom: Option<Zoom>,
}

/// A chart the renderer can work on: the sample buffer within the window
/// bound that keeps all later arithmetic exact.
pub open spec fn line_graph_wf<T, M>(g: LineGraph<T, M>) -> bool {
    g.datapoints@.len() <= LEN_LIMIT
}

/// The magnitudes of all samples, through the chart's mapper.
pub open spec fn mapped_values_spec<T, M: ValueMapper<T>>(g: LineGraph<T, M>) -> Seq<int> {
    crate::mapper::mapped_spec(g.datapoints@, g.mapper)
}

/// The zoom in force: the external override wins over the widget state.
pub open spec fn effective_zoom_spec<T, M>(g: LineGraph<T, M>, state: LineGraphState) -> Zoom {
    match g.external_zoom {
        Some(z) => z,
        None => state.zoom,
    }
}

/// Hover feedback is enabled only when zoomed in past the configured
/// minimum; at the minimum and in full view the points are too dense to
/// single one out.
pub open spec fn hover_enabled_spec(z: Zoom, zoom_min: u32) -> bool {
    z matches Zoom::Value(v) && v > zoom_min
}

/// The horizontal position of the `i`-th of `len` visible points: indices
/// spread evenly across the chart width.
pub open spec fn point_x_spec(i: int, len: int, bounds: SizePx) -> int {
    let cw = bounds.width - 2 * PADDING;
    let d = if len - 1 >= 1 {
        len - 1
    } else {
        1
    };
    PADDING + (i * cw) / d
}

/// The vertical position of a point with magnitude `v`: the value range of
/// the visible window maps linearly onto the chart height, higher values
/// nearer the top.
pub open spec fn point_y_spec(v: int, minv: int, range: int, bounds: SizePx) -> int {
    let ch = bounds.height - 2 * PADDING;
    PADDING + ch - ((v - minv) * ch) / range
}

/// The placed centers of all visible points. Drawing and hit-testing both
/// read this one placement, so they can never diverge.
pub open spec fn points_spec(vis: Seq<int>, bounds: SizePx) -> Seq<PointPx> {
    let minv = seq_min(vis);
    let range = seq_max(vis) - seq_min(vis);
    Seq::new(
        vis.len(),
        |i: int|
            PointPx {
                x: point_x_spec(i, vis.len() as int, bounds) as i64,
                y: point_y_spec(vis[i], minv, range, bounds) as i64,
            },
    )
}

/// The squared distance between the cursor and a point center.
pub open spec fn dist2_spec(cursor: PointPx, p: PointPx) -> int {
    (cursor.x - p.x) * (cursor.x - p.x) + (cursor.y - p.y) * (cursor.y - p.y)
}

/// The scan for the nearest point, from index `i` with the best `(index,
/// squared distance)` seen so far: a later point displaces the best only
/// when strictly nearer, so the first of equally near points wins.
pub open spec fn nearest_scan_spec(
    cursor: PointPx,
    pts: Seq<PointPx>,
    i: int,
    best: Option<(int, int)>,
) -> Option<(int, int)>
    decreases pts.len() - i,
{
    if i < 0 || i >= pts.len() {
        best
    } else {
        let d = dist2_spec(cursor, pts[i]);
        let better = match best {
            None => d <= HOVER_DIST2,
            Some((_, bd)) => d <= HOVER_DIST2 && d < bd,
        };
        nearest_scan_spec(
            cursor,
            pts,
            i + 1,
            if better {
                Some((i, d))
            } else {
                best
            },
        )
    }
}

/// The index of the nearest placed point within the hover radius, if any.
pub open spec fn line_hit_spec(cursor: PointPx, pts: Seq<PointPx>) -> Option<int> {
    match nearest_scan_spec(cursor, pts, 0, None) {
        None => None,
        Some((i, _)) => Some(i),
    }
}

/// The whole hit test, from the raw magnitudes: window the values, bail out
/// of an empty window or a degenerate value range, and scan the placed
/// points.
pub open spec fn line_hit_full_spec(
    values: Seq<int>,
    zoom: Zoom,
    base: nat,
    cursor: PointPx,
    bounds: SizePx,
) -> Option<int> {
    let vis = visible_values_spec(values, zoom, base);
    if vis.len() == 0 {
        None
    } else if seq_max(vis) - seq_min(vis) == 0 {
        None
    } else {
        line_hit_spec(cursor, points_spec(vis, bounds))
    }
}

/// The hit result as the widget state stores it.
pub open spec fn line_hit_result<T, M: ValueMapper<T>>(
    g: LineGraph<T, M>,
    state: LineGraphState,
    cursor: PointPx,
    bounds: SizePx,
) -> Option<usize> {
    match line_hit_full_spec(
        mapped_values_spec(g),
        effective_zoom_spec(g, state),
        g.base_points as nat,
        cursor,
        bounds,
    ) {
        Some(i) => Some(i as usize),
        None => None,
    }
}

/// Clearing any hover: the shared tail of every transition that leaves the
/// cursor without a point under it.
pub open spec fn clear_hover_spec(state: LineGraphState) -> (
    LineGraphState,
    bool,
    Option<GraphAction<LineInteraction>>,
) {
    if state.hovered_point is Some {
        (
            LineGraphState { hovered_point: None, ..state },
            true,
            Some(GraphAction::Redraw),
        )
    } else {
        (state, false, None)
    }
}

/// The outcome of one line-chart event: the next state, whether the cached
/// geometry must be invalidated, and the action handed back to the host.
/// A left press hit-tests the cursor afresh, also while hover feedback is
/// disabled: the click lands on the point under the cursor even before any
/// cursor-move event has updated the hover. That re-test is deliberate
/// policy, not a stale-hover read.
pub open spec fn line_update_spec<T, M: ValueMapper<T>>(
    g: LineGraph<T, M>,
    state: LineGraphState,
    event: GraphEvent,
    bounds: SizePx,
    cursor: Option<PointPx>,
) -> (LineGraphState, bool, Option<GraphAction<LineInteraction>>) {
    let ez = effective_zoom_spec(g, state);
    match event {
        GraphEvent::CursorMoved => {
            if hover_enabled_spec(ez, g.zoom_min) {
                match cursor {
                    Some(p) => {
                        let nh = line_hit_result(g, state, p, bounds);
                        if state.hovered_point != nh {
                            (
                                LineGraphState { hovered_point: nh, ..state },
                                true,
                                match nh {
                                    Some(i) => Some(
                                        GraphAction::Publish(LineInteraction::PointHovered(i)),
                                    ),
                                    None => Some(GraphAction::Redraw),
                                },
                            )
                        } else {
                            (state, false, None)
                        }
                    },
                    None => clear_hover_spec(state),
                }
            } else {
                clear_hover_spec(state)
            }
        },
        GraphEvent::LeftPressed => {
            match cursor {
                Some(p) => match line_hit_result(g, state, p, bounds) {
                    Some(i) => (
                        state,
                        false,
                        Some(GraphAction::Publish(LineInteraction::PointClicked(i))),
                    ),
                    None => (state, false, None),
                },
                None => (state, false, None),
            }
        },
        GraphEvent::WheelScrolled { upward } => {
            if cursor is Some && g.external_zoom is None {
                let nz = if upward {
                    zoom_increment_spec(state.zoom, g.zoom_max)
                } else {
                    zoom_decrement_spec(state.zoom, g.zoom_min)
                };
                if nz != state.zoom {
                    (
                        LineGraphState { zoom: nz, ..state },
                        true,
                        Some(GraphAction::PublishAndCapture(LineInteraction::ZoomChanged(nz))),
                    )
                } else {
                    (state, false, None)
                }
            } else {
                (state, false, None)
            }
        },
    }
}

/// A squared distance is never negative, and vanishes exactly on the point
/// itself.
proof fn lemma_dist2_props(cursor: PointPx, p: PointPx)
    ensures
        dist2_spec(cursor, p) >= 0,
        dist2_spec(cursor, p) == 0 <==> cursor == p,
{
    let dx = cursor.x - p.x;
    let dy = cursor.y - p.y;
    assert(dx * dx >= 0 && dy * dy >= 0) by (nonlinear_arith);
    assert(dx != 0 ==> dx * dx > 0) by (nonlinear_arith);
    assert(dy != 0 ==> dy * dy > 0) by (nonlinear_arith);
}

/// A best with distance zero survives the rest of the scan: nothing is ever
/// strictly nearer.
proof fn lemma_scan_keeps_zero(cursor: PointPx, pts: Seq<PointPx>, k: int, bi: int)
    requires
        0 <= k,
    ensures
        nearest_scan_spec(cursor, pts, k, Some((bi, 0))) == Some((bi, 0int)),
    decreases pts.len() - k,
{
    if k < pts.len() {
        lemma_dist2_props(cursor, pts[k]);
        lemma_scan_keeps_zero(cursor, pts, k + 1, bi);
    }
}

/// Scanning toward a point the cursor sits on: as long as every point still
/// ahead of the scan and before `i` misses the cursor, and the best so far
/// is strictly positive, the scan ends at `i` with distance zero.
proof fn lemma_scan_reaches_center(
    cursor: PointPx,
    pts: Seq<PointPx>,
    k: int,
    best: Option<(int, int)>,
    i: int,
)
    requires
        0 <= k <= i < pts.len(),
        pts[i] == cursor,
        forall|j: int| k <= j < i ==> #[trigger] pts[j] != cursor,
        best matches Some((bi, bd)) ==> bd > 0,
    ensures
        nearest_scan_spec(cursor, pts, k, best) == Some((i, 0int)),
    decreases i - k,
{
    lemma_dist2_props(cursor, pts[k]);
    if k == i {
        lemma_scan_keeps_zero(cursor, pts, k + 1, i);
    } else {
        let d = dist2_spec(cursor, pts[k]);
        let better = match best {
            None => d <= HOVER_DIST2,
            Some((_, bd)) => d <= HOVER_DIST2 && d < bd,
        };
        let next = if better {
            Some((k, d))
        } else {
            best
        };
        assert(next matches Some((bi, bd)) ==> bd > 0);
        lemma_scan_reaches_center(cursor, pts, k + 1, next, i);
    }
}

/// Hit-test consistency: a cursor placed exactly at a rendered point's
/// pixel center finds that point, provided no earlier point is drawn on the
/// very same pixel center.
pub proof fn lemma_line_hit_at_point_center(vis: Seq<int>, bounds: SizePx, i: int)
    requires
        0 <= i < vis.len(),
        seq_max(vis) != seq_min(vis),
        forall|j: int| 0 <= j < i ==> #[trigger] points_spec(vis, bounds)[j] != points_spec(
            vis,
            bounds,
        )[i],
    ensures
        line_hit_spec(points_spec(vis, bounds)[i], points_spec(vis, bounds)) == Some(i),
{
    let pts = points_spec(vis, bounds);
    let cursor = pts[i];
    lemma_scan_reaches_center(cursor, pts, 0, None, i);
}

impl<T, M: ValueMapper<T>> LineGraph<T, M> {
    /// Construct with a custom mapper implementation.
    pub fn with_mapper(datapoints: Vec<T>, mapper: M) -> (r: LineGraph<T, M>)
        ensures
            r.datapoints == datapoints,
            r.mapper == mapper,
            r.line_width == 2,
            r.show_points,
            r.point_radius == 3,
            r.show_grid,
            r.show_labels,
            r.zoom == Zoom::Value(ZOOM_ONE),
            r.base_points == 50,
            r.zoom_min == ZOOM_MIN_DEFAULT,
            r.zoom_max == ZOOM_MAX_DEFAULT,
            r.external_zoom is None,
    {
        LineGraph {
            datapoints,
            line_width: 2,
            show_points: true,
            point_radius: 3,
            show_grid: true,
            show_labels: true,
            zoom: Zoom::Value(ZOOM_ONE),
            base_points: 50,
            zoom_min: ZOOM_MIN_DEFAULT,
            zoom_max: ZOOM_MAX_DEFAULT,
            mapper,
            external_zoom: None,
        }
    }

    /// Set external zoom (overrides internal state zoom).
    pub fn external_zoom(self, zoom: Zoom) -> (r: LineGraph<T, M>)
        ensures
            r == (LineGraph { external_zoom: Some(zoom), ..self }),
    {
        LineGraph { external_zoom: Some(zoom), ..self }
    }

    /// Clear external zoom (use internal state zoom).
    pub fn use_internal_zoom(self) -> (r: LineGraph<T, M>)
        ensures
            r == (LineGraph { external_zoom: None, ..self }),
    {
        LineGraph { external_zoom: None, ..self }
    }

    pub fn line_width(self, width: i64) -> (r: LineGraph<T, M>)
        ensures
            r == (LineGraph { line_width: width, ..self }),
    {
        LineGraph { line_width: width, ..self }
    }

    pub fn show_points(self, show: bool) -> (r: LineGraph<T, M>)
        ensures
            r == (LineGraph { show_points: show, ..self }),
    {
        LineGraph { show_points: show, ..self }
    }

    pub fn point_radius(self, radius: i64) -> (r: LineGraph<T, M>)
        ensures
            r == (LineGraph { point_radius: radius, ..self }),
    {
        LineGraph { point_radius: radius, ..self }
    }

    pub fn show_grid(self, show: bool) -> (r: LineGraph<T, M>)
        ensures
            r == (LineGraph { show_grid: show, ..self }),
    {
        LineGraph { show_grid: show, ..self }
    }

    pub fn show_labels(self, show: bool) -> (r: LineGraph<T, M>)
        ensures
            r == (LineGraph { show_labels: show, ..self }),
    {
        LineGraph { show_labels: show, ..self }
    }

    pub fn base_points(self, points: u64) -> (r: LineGraph<T, M>)
        ensures
            r == (LineGraph { base_points: points, ..self }),
    {
        LineGraph { base_points: points, ..self }
    }

    pub fn zoom_range(self, min: u32, max: u32) -> (r: LineGraph<T, M>)
        ensures
            r == (LineGraph { zoom_min: min, zoom_max: max, ..self }),
    {
        LineGraph { zoom_min: min, zoom_max: max, ..self }
    }

    pub fn zoom_min(self, min: u32) -> (r: LineGraph<T, M>)
        ensures
            r == (LineGraph { zoom_min: min, ..self }),
    {
        LineGraph { zoom_min: min, ..self }
    }

    pub fn zoom_max(self, max: u32) -> (r: LineGraph<T, M>)
        ensures
            r == (LineGraph { zoom_max: max, ..self }),
    {
        LineGraph { zoom_max: max, ..self }
    }

    /// The magnitudes of all samples, through the mapper, as one pass over
    /// the buffer.
    pub fn map_values(&self) -> (r: Vec<i64>)
        ensures
            ints_of(r@) == mapped_values_spec(*self),
            r@.len() == self.datapoints@.len(),
            values_bounded(r@),
    {
        crate::mapper::map_all(&self.datapoints, &self.mapper)
    }

    /// The zoom in force for this draw or event.
    fn effective_zoom(&self, state: &LineGraphState) -> (r: Zoom)
        ensures
            r == effective_zoom_spec(*self, *state),
    {
        match self.external_zoom {
            Some(z) => z,
            None => state.zoom,
        }
    }

    /// The index of the visible point nearest the cursor, if it lies within
    /// the hover radius. Placement is the same computation the renderer
    /// uses, so the point found is the point drawn under the cursor.
    pub fn find_nearest_point(
        &self,
        cursor_pos: PointPx,
        bounds: SizePx,
        state: &LineGraphState,
    ) -> (r: Option<usize>)
        requires
            line_graph_wf(*self),
            size_wf(bounds),
            0 <= cursor_pos.x <= bounds.width,
            0 <= cursor_pos.y <= bounds.height,
        ensures
            ({
                let hit = line_hit_full_spec(
                    mapped_values_spec(*self),
                    effective_zoom_spec(*self, *state),
                    self.base_points as nat,
                    cursor_pos,
                    bounds,
                );
                match hit {
                    Some(i) => r == Some(i as usize),
                    None => r is None,
                }
            }),
    {
        let values_all = self.map_values();
        let total = values_all.len();
        let ez = self.effective_zoom(state);
        let (start, count) = calculate_visible_range(total, ez, self.base_points);
        let ghost vis = visible_values_spec(mapped_values_spec(*self), ez, self.base_points as nat);
        proof {
            assert(vis =~= ints_of(values_all@).subrange(start as int, (start + count) as int));
        }
        if count == 0 {
            return None;
        }
        let end = start + count;
        let minv = min_range(&values_all, start, end);
        let maxv = max_range(&values_all, start, end);
        proof {
            assert(forall|j: int|
                0 <= j < vis.len() ==> -VALUE_LIMIT <= #[trigger] vis[j] <= VALUE_LIMIT) by {
                assert(forall|j: int| 0 <= j < vis.len() ==> vis[j] == ints_of(values_all@)[
                    start + j]);
            }
            lemma_seq_minmax_in_range(vis, -VALUE_LIMIT as int, VALUE_LIMIT as int);
        }
        let range = maxv - minv;
        if range == 0 {
            return None;
        }
        let cw: i64 = bounds.width - 2 * PADDING;
        let ch: i64 = bounds.height - 2 * PADDING;
        let d: i64 = if count >= 2 {
            (count - 1) as i64
        } else {
            1
        };
        let ghost pts = points_spec(vis, bounds);
        let mut best: Option<(usize, i64)> = None;
        let mut i: usize = 0;
        while i < count
            invariant
                line_graph_wf(*self),
                size_wf(bounds),
                0 <= cursor_pos.x <= bounds.width,
                0 <= cursor_pos.y <= bounds.height,
                0 <= i <= count,
                count == vis.len(),
                start + count == end <= values_all@.len(),
                vis == ints_of(values_all@).subrange(start as int, end as int),
                values_bounded(values_all@),
                count <= LEN_LIMIT,
                minv as int == seq_min(vis),
                maxv as int == seq_max(vis),
                -VALUE_LIMIT <= minv <= VALUE_LIMIT,
                -VALUE_LIMIT <= maxv <= VALUE_LIMIT,
                range == maxv - minv,
                range > 0,
                cw == bounds.width - 2 * PADDING,
                ch == bounds.height - 2 * PADDING,
                d as int == (if count - 1 >= 1 {
                    (count - 1) as int
                } else {
                    1
                }),
                pts == points_spec(vis, bounds),
                nearest_scan_spec(cursor_pos, pts, 0, None) == nearest_scan_spec(
                    cursor_pos,
                    pts,
                    i as int,
                    match best {
                        None => None,
                        Some((bi, bd)) => Some((bi as int, bd as int)),
                    },
                ),
                best matches Some((bi, bd)) ==> bi < i,
            decreases count - i,
        {
            proof {
                assert(0 <= i < d + 1);
                assert(-0x4000_0000_0000_0000 <= (i as int) * (cw as int)
                    <= 0x4000_0000_0000_0000) by (nonlinear_arith)
                    requires
                        0 <= i <= 0x100000,
                        -0x100 <= cw <= 0x100000,
                ;
            }
            let xq: i64 = div_floor((i as i64) * cw, d);
            proof {
                crate::binning::lemma_scaled_div_between(i as int, cw as int, d as int);
            }
            let xi: i64 = PADDING + xq;
            let v = values_all[start + i];
            proof {
                lemma_seq_minmax_element(vis, i as int);
                assert(vis[i as int] == ints_of(values_all@)[start + i]);
                assert(-0x4000_0000_0000_0000 <= ((v - minv) as int) * (ch as int)
                    <= 0x4000_0000_0000_0000) by (nonlinear_arith)
                    requires
                        0 <= (v - minv) as int <= 0x200000,
                        -0x100 <= ch <= 0x100000,
                ;
            }
            let yq: i64 = div_floor((v - minv) * ch, range);
            proof {
                crate::binning::lemma_scaled_div_between((v - minv) as int, ch as int, range as int);
            }
            let yi: i64 = PADDING + ch - yq;
            proof {
                assert(pts[i as int] == PointPx { x: xi, y: yi });
            }
            let dx: i64 = cursor_pos.x - xi;
            let dy: i64 = cursor_pos.y - yi;
            proof {
                assert(dx * dx <= 0x1000_0000_0000_0000 && dx * dx >= 0) by (nonlinear_arith)
                    requires
                        -0x4000_0000 <= dx <= 0x4000_0000,
                ;
                assert(dy * dy <= 0x1000_0000_0000_0000 && dy * dy >= 0) by (nonlinear_arith)
                    requires
                        -0x4000_0000 <= dy <= 0x4000_0000,
                ;
            }
            let d2: i64 = dx * dx + dy * dy;
            let better: bool = d2 <= HOVER_DIST2 && (match best {
                Some((_, bd)) => d2 < bd,
                None => true,
            });
            proof {
                assert(d2 as int == dist2_spec(cursor_pos, pts[i as int]));
            }
            if better {
                best = Some((i, d2));
            }
            i = i + 1;
        }
        match best {
            Some((bi, _)) => Some(bi),
            None => None,
        }
    }

    /// Handle one input event: recompute the hovered point on cursor moves
    /// while hovering is enabled, publish clicks on points under the cursor
    /// (found by a fresh hit test, so a click works even before any cursor
    /// move), step the zoom on wheel scroll unless an external zoom
    /// overrides it, and invalidate the cached geometry exactly when the
    /// state changed.
    pub fn update<G>(
        &self,
        state: &mut LineGraphState,
        cache: &mut GeometryCache<G>,
        event: &GraphEvent,
        bounds: &SizePx,
        cursor: Option<PointPx>,
    ) -> (action: Option<GraphAction<LineInteraction>>)
        requires
            line_graph_wf(*self),
            size_wf(*bounds),
            cursor_wf(cursor, *bounds),
        ensures
            ({
                let (next, invalidated, act) = line_update_spec(
                    *self,
                    *old(state),
                    *event,
                    *bounds,
                    cursor,
                );
                *final(state) == next && action == act && (invalidated
                    ==> final(cache).is_cleared()) && (!invalidated ==> *final(cache) == *old(
                    cache,
                ))
            }),
            // the cache-invalidation discipline: any transition that changes
            // the hovered point or the zoom leaves the cache cleared
            (final(state).hovered_point != old(state).hovered_point || final(state).zoom != old(
                state,
            ).zoom) ==> final(cache).is_cleared(),
    {
        match event {
            GraphEvent::CursorMoved => {
                let ez = self.effective_zoom(state);
                let enabled = match ez {
                    Zoom::Value(v) => v > self.zoom_min,
                    Zoom::Full => false,
                };
                if enabled {
                    match cursor {
                        Some(p) => {
                            let new_hovered = self.find_nearest_point(p, *bounds, state);
                            if !opt_usize_eq(&state.hovered_point, &new_hovered) {
                                state.hovered_point = new_hovered;
                                cache.clear();
                                match new_hovered {
                                    Some(point_index) => Some(
                                        GraphAction::Publish(
                                            LineInteraction::PointHovered(point_index),
                                        ),
                                    ),
                                    None => Some(GraphAction::Redraw),
                                }
                            } else {
                                None
                            }
                        },
                        None => {
                            if state.hovered_point.is_some() {
                                state.hovered_point = None;
                                cache.clear();
                                Some(GraphAction::Redraw)
                            } else {
                                None
                            }
                        },
                    }
                } else {
                    // hovering disabled: clear any existing hover state
                    if state.hovered_point.is_some() {
                        state.hovered_point = None;
                        cache.clear();
                        Some(GraphAction::Redraw)
                    } else {
                        None
                    }
                }
            },
            GraphEvent::LeftPressed => {
                match cursor {
                    Some(p) => {
                        match self.find_nearest_point(p, *bounds, state) {
                            Some(point_index) => Some(
                                GraphAction::Publish(LineInteraction::PointClicked(point_index)),
                            ),
                            None => None,
                        }
                    },
                    None => None,
                }
            },
            GraphEvent::WheelScrolled { upward } => {
                if cursor.is_some() && self.external_zoom.is_none() {
                    let new_zoom = if *upward {
                        state.zoom.increment_with_limits(self.zoom_max)
                    } else {
                        state.zoom.decrement_with_limits(self.zoom_min)
                    };
                    if !zoom_eq(new_zoom, state.zoom) {
                        state.zoom = new_zoom;
                        cache.clear();
                        Some(GraphAction::PublishAndCapture(LineInteraction::ZoomChanged(new_zoom)))
                    } else {
                        None
                    }
                } else {
                    None
                }
            },
        }
    }
}

/// Whether two optional indices are the same.
fn opt_usize_eq(a: &Option<usize>, b: &Option<usize>) -> (r: bool)
    ensures
        r <==> *a == *b,
{
    match (a, b) {
        (Some(x), Some(y)) => *x == *y,
        (None, None) => true,
        _ => false,
    }
}

/// Whether two zoom levels are the same.
fn zoom_eq(a: Zoom, b: Zoom) -> (r: bool)
    ensures
        r <==> a == b,
{
    match (a, b) {
        (Zoom::Value(x), Zoom::Value(y)) => x == y,
        (Zoom::Full, Zoom::Full) => true,
        _ => false,
    }
}

// Default constructor without a custom mapper.
impl<T> LineGraph<T, DefaultMap> where DefaultMap: ValueMapper<T> {
    pub fn new(datapoints: Vec<T>) -> (r: LineGraph<T, DefaultMap>)
        ensures
            r.datapoints == datapoints,
            r.mapper == DefaultMap,
            r.line_width == 2,
            r.show_points,
            r.point_radius == 3,
            r.show_grid,
            r.show_labels,
            r.zoom == Zoom::Value(ZOOM_ONE),
            r.base_points == 50,
            r.zoom_min == ZOOM_MIN_DEFAULT,
            r.zoom_max == ZOOM_MAX_DEFAULT,
            r.external_zoom is None,
    {
        LineGraph {
            datapoints,
            line_width: 2,
            show_points: true,
            point_radius: 3,
            show_grid: true,
            show_labels: true,
            zoom: Zoom::Value(ZOOM_ONE),
            base_points: 50,
            zoom_min: ZOOM_MIN_DEFAULT,
            zoom_max: ZOOM_MAX_DEFAULT,
            mapper: DefaultMap,
            external_zoom: None,
        }
    }
}

} // verus!
