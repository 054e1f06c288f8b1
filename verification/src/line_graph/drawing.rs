//! Geometry computation for line graphs: the placed polyline points, the
//! grid, the y-axis labels and the dashed average line, all as pure
//! pixel-unit data for the host adapter to paint.

use vstd::prelude::*;
use crate::binning::{
    div_floor, ints_of, lemma_average_between, lemma_seq_minmax_element, lemma_seq_minmax_in_range,
    max_range, min_range, seq_max, seq_min, seq_sum, sum_range, values_bounded,
};
use crate::cache::GeometryCache;
use crate::drawing::{
    average_line_matches, axis_labels_match, compute_average_line, compute_grid,
    grid_geometry_matches, AverageLineGeometry, AxisLabel, GridConfig, GridGeometry,
};
use crate::geometry::{size_wf, PointPx, SizePx};
use crate::graph_state::{calculate_visible_range, visible_values_spec};
use crate::mapper::{ValueMapper, LEN_LIMIT, VALUE_LIMIT};
use crate::zoom::Zoom;
use super::{
    effective_zoom_spec, line_graph_wf, mapped_values_spec, points_spec, LineGraph, PADDING,
};
use super::state::LineGraphState;

verus! {

/// Everything one frame of a line chart draws, in pixel units.
#[derive(Debug, Clone, PartialEq, Eq)]
pub struct LineGeometry {
    /// Where the visible window starts in the sample sequence.
    pub start_index: usize,
    /// The visible magnitudes, in order.
    pub values: Vec<i64>,
    /// The placed centers of the visible points; the polyline runs through
    /// them in order.
    pub points: Vec<PointPx>,
    pub min_value: i64,
    pub max_value: i64,
    pub average: i64,
    pub grid: Option<GridGeometry>,
    /// Whether the point markers are drawn for this frame.
    pub points_shown: bool,
    /// The point enlarged and annotated with a tooltip.
    pub hovered: Option<usize>,
    pub average_line: Option<AverageLineGeometry>,
    pub y_labels: Vec<AxisLabel>,
}

/// A frame that draws nothing: empty data, an empty window, or a degenerate
/// value range.
pub open spec fn line_geometry_blank(geom: LineGeometry) -> bool {
    &&& geom.start_index == 0
    &&& geom.values@.len() == 0
    &&& geom.points@.len() == 0
    &&& geom.min_value == 0
    &&& geom.max_value == 0
    &&& geom.average == 0
    &&& geom.grid is None
    &&& !geom.points_shown
    &&& geom.hovered is None
    &&& geom.average_line is None
    &&& geom.y_labels@.len() == 0
}

/// The grid configuration a line chart uses for its frame.
pub open spec fn line_grid_config_spec(bounds: SizePx) -> GridConfig {
    GridConfig {
        padding: PADDING,
        chart_width: (bounds.width - 2 * PADDING) as i64,
        chart_height: (bounds.height - 2 * PADDING) as i64,
        horizontal_lines: 10,
        vertical_lines: 10,
    }
}

/// What a rendered frame of this chart holds, given the chart, the widget
/// state and the frame size.
pub open spec fn line_geometry_matches<T, M: ValueMapper<T>>(
    g: LineGraph<T, M>,
    state: LineGraphState,
    bounds: SizePx,
    geom: LineGeometry,
) -> bool {
    let values = mapped_values_spec(g);
    let ez = effective_zoom_spec(g, state);
    let start = crate::graph_state::visible_start_spec(values.len(), ez, g.base_points as nat);
    let vis = visible_values_spec(values, ez, g.base_points as nat);
    if vis.len() == 0 {
        line_geometry_blank(geom)
    } else {
        let minv = seq_min(vis);
        let maxv = seq_max(vis);
        if maxv - minv == 0 {
            line_geometry_blank(geom)
        } else {
            let avg = seq_sum(vis) / (vis.len() as int);
            &&& geom.start_index == start
            &&& ints_of(geom.values@) == vis
            &&& geom.points@ == points_spec(vis, bounds)
            &&& geom.min_value == minv
            &&& geom.max_value == maxv
            &&& geom.average == avg
            &&& (g.show_grid <==> geom.grid is Some)
            &&& (geom.grid matches Some(gr) ==> grid_geometry_matches(
                line_grid_config_spec(bounds),
                gr,
            ))
            &&& geom.points_shown == (g.show_points && ez is Value)
            &&& geom.hovered == state.hovered_point
            &&& (g.show_labels <==> geom.average_line is Some)
            &&& (geom.average_line matches Some(al) ==> average_line_matches(
                PADDING as int,
                bounds.width - 2 * PADDING,
                bounds.height - 2 * PADDING,
                avg,
                minv,
                maxv - minv,
                al,
            ))
            &&& (g.show_labels ==> axis_labels_match(
                PADDING as int,
                bounds.height - 2 * PADDING,
                minv,
                maxv,
                5,
                geom.y_labels@,
            ))
            &&& (!g.show_labels ==> geom.y_labels@.len() == 0)
        }
    }
}

/// A frame with nothing in it.
fn blank_geometry() -> (geom: LineGeometry)
    ensures
        line_geometry_blank(geom),
{
    LineGeometry {
        start_index: 0,
        values: Vec::new(),
        points: Vec::new(),
        min_value: 0,
        max_value: 0,
        average: 0,
        grid: None,
        points_shown: false,
        hovered: None,
        average_line: None,
        y_labels: Vec::new(),
    }
}

impl<T, M: ValueMapper<T>> LineGraph<T, M> {
    /// Compute one frame's geometry: window the samples by the zoom in
    /// force, place the points, and lay out grid, labels and the average
    /// line. Empty data, an empty window or a flat value range draw
    /// nothing.
    pub fn compute_geometry(&self, state: &LineGraphState, bounds: SizePx) -> (geom: LineGeometry)
        requires
            line_graph_wf(*self),
            size_wf(bounds),
        ensures
            line_geometry_matches(*self, *state, bounds, geom),
            self.datapoints@.len() == 0 ==> line_geometry_blank(geom),
    {
        let values_all = self.map_values();
        let total = values_all.len();
        let ez = self.effective_zoom(state);
        let (start, count) = calculate_visible_range(total, ez, self.base_points);
        let ghost vis = visible_values_spec(mapped_values_spec(*self), ez, self.base_points as nat);
        proof {
            assert(vis =~= ints_of(values_all@).subrange(start as int, (start + count) as int));
        }
        if count == 0 {
            return blank_geometry();
        }
        let end = start + count;
        let minv = min_range(&values_all, start, end);
        let maxv = max_range(&values_all, start, end);
        proof {
            assert(forall|j: int|
                0 <= j < vis.len() ==> -VALUE_LIMIT <= #[trigger] vis[j] <= VALUE_LIMIT) by {
                assert(forall|j: int| 0 <= j < vis.len() ==> vis[j] == ints_of(values_all@)[
                    start + j]);
            }
            lemma_seq_minmax_in_range(vis, -VALUE_LIMIT as int, VALUE_LIMIT as int);
        }
        let range = maxv - minv;
        if range == 0 {
            return blank_geometry();
        }
        // the visible slice of magnitudes
        let mut values: Vec<i64> = Vec::new();
        let mut vi: usize = start;
        proof {
            assert(ints_of(values@) =~= vis.take(0));
        }
        while vi < end
            invariant
                start <= vi <= end <= values_all@.len(),
                vis == ints_of(values_all@).subrange(start as int, end as int),
                values@.len() == vi - start,
                ints_of(values@) == vis.take(vi - start),
            decreases end - vi,
        {
            let v = values_all[vi];
            proof {
                assert(ints_of(values@.push(v)) =~= vis.take(vi - start + 1));
            }
            values.push(v);
            vi = vi + 1;
        }
        proof {
            assert(vis.take(end - start) =~= vis);
        }
        // the placed point centers, by the shared placement
        let cw: i64 = bounds.width - 2 * PADDING;
        let ch: i64 = bounds.height - 2 * PADDING;
        let d: i64 = if count >= 2 {
            (count - 1) as i64
        } else {
            1
        };
        let ghost pts = points_spec(vis, bounds);
        let mut points: Vec<PointPx> = Vec::new();
        let mut i: usize = 0;
        while i < count
            invariant
                0 <= i <= count,
                count == vis.len(),
                start + count == end <= values_all@.len(),
                vis == ints_of(values_all@).subrange(start as int, end as int),
                values_bounded(values_all@),
                count <= LEN_LIMIT,
                size_wf(bounds),
                minv as int == seq_min(vis),
                maxv as int == seq_max(vis),
                -VALUE_LIMIT <= minv <= VALUE_LIMIT,
                -VALUE_LIMIT <= maxv <= VALUE_LIMIT,
                range == maxv - minv,
                range > 0,
                cw == bounds.width - 2 * PADDING,
                ch == bounds.height - 2 * PADDING,
                d as int == (if count - 1 >= 1 {
                    (count - 1) as int
                } else {
                    1
                }),
                pts == points_spec(vis, bounds),
                points@.len() == i,
                forall|j: int| 0 <= j < i ==> points@[j] == pts[j],
            decreases count - i,
        {
            proof {
                assert(0 <= i < d + 1);
                assert(-0x4000_0000_0000_0000 <= (i as int) * (cw as int)
                    <= 0x4000_0000_0000_0000) by (nonlinear_arith)
                    requires
                        0 <= i <= 0x100000,
                        -0x100 <= cw <= 0x100000,
                ;
            }
            let xq: i64 = div_floor((i as i64) * cw, d);
            proof {
                crate::binning::lemma_scaled_div_between(i as int, cw as int, d as int);
            }
            let xi: i64 = PADDING + xq;
            let v = values_all[start + i];
            proof {
                lemma_seq_minmax_element(vis, i as int);
                assert(vis[i as int] == ints_of(values_all@)[start + i]);
                assert(-0x4000_0000_0000_0000 <= ((v - minv) as int) * (ch as int)
                    <= 0x4000_0000_0000_0000) by (nonlinear_arith)
                    requires
                        0 <= (v - minv) as int <= 0x200000,
                        -0x100 <= ch <= 0x100000,
                ;
            }
            let yq: i64 = div_floor((v - minv) * ch, range);
            proof {
                crate::binning::lemma_scaled_div_between((v - minv) as int, ch as int, range as int);
            }
            let yi: i64 = PADDING + ch - yq;
            proof {
                assert(pts[i as int] == PointPx { x: xi, y: yi });
            }
            points.push(PointPx { x: xi, y: yi });
            i = i + 1;
        }
        proof {
            assert(points@ =~= pts);
        }
        // the average of the visible magnitudes
        let vsum = sum_range(&values_all, start, end);
        let average = div_floor(vsum, count as i64);
        proof {
            lemma_average_between(vis);
        }
        let grid: Option<GridGeometry> = if self.show_grid {
            Some(
                compute_grid(
                    &GridConfig {
                        padding: PADDING,
                        chart_width: cw,
                        chart_height: ch,
                        horizontal_lines: 10,
                        vertical_lines: 10,
                    },
                ),
            )
        } else {
            None
        };
        let points_shown = self.show_points && match ez {
            Zoom::Value(_) => true,
            Zoom::Full => false,
        };
        let (average_line, y_labels): (Option<AverageLineGeometry>, Vec<AxisLabel>) = if self
            .show_labels {
            let al = compute_average_line(PADDING, cw, ch, average, minv, maxv);
            let labels = crate::drawing::compute_y_axis_labels(PADDING, ch, minv, maxv, 5);
            (al, labels)
        } else {
            (None, Vec::new())
        };
        LineGeometry {
            start_index: start,
            values,
            points,
            min_value: minv,
            max_value: maxv,
            average,
            grid,
            points_shown,
            hovered: state.hovered_point,
            average_line,
            y_labels,
        }
    }

    /// Draw through the cache: reuse the geometry memoized for this frame
    /// size, or compute and store it.
    pub fn draw(
        &self,
        state: &LineGraphState,
        cache: &mut GeometryCache<LineGeometry>,
        bounds: SizePx,
    )
        requires
            line_graph_wf(*self),
            size_wf(bounds),
        ensures
            final(cache).holds_for(bounds),
            old(cache).holds_for(bounds) ==> *final(cache) == *old(cache),
            !old(cache).holds_for(bounds) ==> (final(cache).spec_entry() matches Some((b, geom))
                && b == bounds && line_geometry_matches(*self, *state, bounds, geom)),
    {
        let hit = cache.get(&bounds).is_some();
        if hit {
            return;
        }
        let geom = self.compute_geometry(state, bounds);
        cache.put(bounds, geom);
    }

}

} // verus!
