//! Geometry computation for bar graphs: bar rectangles, grid and scale
//! lines, the average line, index labels and the hover overlay, all as pure
//! pixel-unit data for the host adapter to paint.

use vstd::prelude::*;
use vstd::arithmetic::div_mod::{
    lemma_div_is_ordered, lemma_div_nonincreasing, lemma_div_pos_is_pos, lemma_div_by_self,
    lemma_fundamental_div_mod, lemma_fundamental_div_mod_converse_div,
};
use vstd::arithmetic::mul::{lemma_mul_inequality, lemma_mul_is_commutative};
use crate::binning::{
    aggregate_into_bins, bin_size_spec, binned_spec, div_floor, ints_of, lemma_bin_count_bound,
    lemma_binned_bounded, lemma_binned_len, lemma_div_between_zero_and_numerator,
    lemma_seq_minmax_in_range, max_range, seq_max, seq_sum, sum_range_with,
};
use crate::cache::GeometryCache;
use crate::geometry::{size_wf, PointPx, RectPx, SizePx};
use crate::graph_state::{calculate_visible_range, visible_values_spec};
use crate::interaction::cursor_wf;
use crate::mapper::{map_all, mapped_spec, ValueMapper, LEN_LIMIT, VALUE_LIMIT};
use super::{bar_graph_wf, bar_hit_spec, desired_bins_spec, BarGraph};
use super::state::BarGraphState;

verus! {

/// The fixed margin under the bars, where the index labels live.
pub const BOTTOM_MARGIN: i64 = 40;

/// One horizontal scale line with the value its label shows.
#[derive(Debug, Clone, Copy, PartialEq, Eq, Structural)]
pub struct BarScaleLine {
    pub y: i64,
    pub value: i64,
}

/// The average reference line of a bar chart.
#[derive(Debug, Clone, Copy, PartialEq, Eq, Structural)]
pub struct BarAverageLine {
    pub y: i64,
    pub value: i64,
}

/// The hover feedback for the bar under the cursor: the overlay to tint,
/// the bar's value, and where its tooltip goes.
#[derive(Debug, Clone, Copy, PartialEq, Eq, Structural)]
pub struct BarHover {
    pub index: usize,
    pub overlay: RectPx,
    pub value: i64,
    pub label_position: PointPx,
    pub label_above: bool,
}

/// Everything one frame of a bar chart draws, in pixel units.
#[derive(Debug, Clone, PartialEq, Eq)]
pub struct BarGeometry {
    /// The aggregated bin values, in original order.
    pub bins: Vec<i64>,
    pub average: i64,
    pub max_value: i64,
    /// One rectangle per bin.
    pub bars: Vec<RectPx>,
    pub scale_lines: Vec<BarScaleLine>,
    pub baseline_y: i64,
    pub vertical_line_xs: Vec<i64>,
    pub index_label_xs: Vec<i64>,
    pub average_line: Option<BarAverageLine>,
    pub hover: Option<BarHover>,
}

/// A frame that draws nothing: empty data or an all-zero scale.
pub open spec fn bar_geometry_blank(geom: BarGeometry) -> bool {
    &&& geom.bins@.len() == 0
    &&& geom.average == 0
    &&& geom.max_value == 0
    &&& geom.bars@.len() == 0
    &&& geom.scale_lines@.len() == 0
    &&& geom.baseline_y == 0
    &&& geom.vertical_line_xs@.len() == 0
    &&& geom.index_label_xs@.len() == 0
    &&& geom.average_line is None
    &&& geom.hover is None
}

/// The left edge of the `i`-th of `n` bars: the exact rational boundary
/// `i * width / n`, rounded up to a whole pixel. Rounding up makes the bar
/// spans agree exactly with the hit-test index `x * n / width`.
pub open spec fn bar_left_spec(i: int, width: int, n: int) -> int {
    (i * width + n - 1) / n
}

/// A bar's height in pixels: its value under the linear value-to-pixel
/// scale, with a three-pixel sliver for zero so the bar stays indicatable.
/// A height that scales below zero clamps to zero, so a negative value
/// renders nothing rather than an upside-down bar.
pub open spec fn bar_height_spec(v: int, avail: int, maxv: int) -> int {
    if v == 0 {
        3
    } else {
        let h = (v * avail) / maxv;
        if h >= 0 {
            h
        } else {
            0
        }
    }
}

/// The rectangle of the `i`-th of `n` bars, with a tenth of the bar span as
/// padding between neighbours.
pub open spec fn bar_rect_spec(i: int, n: int, bounds: SizePx, v: int, maxv: int) -> RectPx {
    let left = bar_left_spec(i, bounds.width as int, n);
    let span = bar_left_spec(i + 1, bounds.width as int, n) - left;
    let pad = ((bounds.width as int) / n) / 10;
    let h = bar_height_spec(v, bounds.height - BOTTOM_MARGIN, maxv);
    RectPx {
        x: (left + pad / 2) as i64,
        y: (bounds.height - BOTTOM_MARGIN - h) as i64,
        width: (span - pad) as i64,
        height: h as i64,
    }
}

/// The `i`-th of six horizontal scale lines, from the top of the chart to
/// the zero baseline, each labeled with its value on the scale.
pub open spec fn bar_scale_line_spec(i: int, bounds: SizePx, maxv: int) -> BarScaleLine {
    BarScaleLine {
        y: (((bounds.height - BOTTOM_MARGIN) * i) / 5) as i64,
        value: ((maxv * (5 - i)) / 5) as i64,
    }
}

/// How many vertical grid lines a chart of `m` bars gets: every second bar,
/// at least one, at most ten.
pub open spec fn bar_vertical_steps_spec(m: int) -> int {
    let s = m / 2;
    if s < 1 {
        1
    } else if s > 10 {
        10
    } else {
        s
    }
}

/// The centers of the bar-index labels along the bottom.
pub open spec fn bar_label_x_spec(i: int, width: int, n: int) -> int {
    let left = bar_left_spec(i, width, n);
    let span = bar_left_spec(i + 1, width, n) - left;
    left + span / 2
}

/// The hover feedback, if the cursor stands over a bar: the bar is found by
/// the same index arithmetic the event handler uses.
pub open spec fn bar_hover_spec(
    cursor: Option<PointPx>,
    bounds: SizePx,
    m: int,
    bins: Seq<int>,
) -> Option<BarHover> {
    match cursor {
        Some(p) => {
            let idx = bar_hit_spec(p.x as int, bounds.width as int, m);
            if 0 <= p.y < bounds.height - BOTTOM_MARGIN && idx < m {
                let left = bar_left_spec(idx, bounds.width as int, m);
                let span = bar_left_spec(idx + 1, bounds.width as int, m) - left;
                Some(
                    BarHover {
                        index: idx as usize,
                        overlay: RectPx {
                            x: left as i64,
                            y: 0,
                            width: span as i64,
                            height: (bounds.height - BOTTOM_MARGIN) as i64,
                        },
                        value: bins[idx] as i64,
                        label_position: PointPx {
                            x: p.x,
                            y: (if bins[idx] == 0 {
                                bounds.height - BOTTOM_MARGIN - 15
                            } else {
                                p.y as int
                            }) as i64,
                        },
                        label_above: p.y >= 10,
                    },
                )
            } else {
                None
            }
        },
        None => None,
    }
}

/// What a rendered frame of this chart holds, given the chart, the widget
/// state, the frame size and the cursor.
pub open spec fn bar_geometry_matches<T, M: ValueMapper<T>>(
    g: BarGraph<T, M>,
    state: BarGraphState,
    bounds: SizePx,
    cursor: Option<PointPx>,
    geom: BarGeometry,
) -> bool {
    let values = mapped_spec(g.datapoints@, g.mapper);
    let vis = visible_values_spec(values, state.zoom, g.base_items as nat);
    let n = vis.len();
    if n == 0 {
        bar_geometry_blank(geom)
    } else {
        let size = bin_size_spec(n, desired_bins_spec(g.base_bars as nat, n));
        let bins = binned_spec(vis, size, g.bin_aggregator);
        let m = bins.len() as int;
        let maxv = if seq_max(bins) >= 0 {
            seq_max(bins)
        } else {
            0
        };
        if maxv == 0 {
            bar_geometry_blank(geom)
        } else {
            let avg = seq_sum(bins) / m;
            &&& ints_of(geom.bins@) == bins
            &&& geom.average == avg
            &&& geom.max_value == maxv
            &&& geom.bars@.len() == m
            &&& (forall|i: int|
                0 <= i < m ==> geom.bars@[i] == bar_rect_spec(i, m, bounds, bins[i], maxv))
            &&& (g.show_grid ==> {
                &&& geom.scale_lines@.len() == 6
                &&& (forall|i: int|
                    0 <= i < 6 ==> geom.scale_lines@[i] == bar_scale_line_spec(i, bounds, maxv))
                &&& geom.baseline_y == bounds.height - BOTTOM_MARGIN
                &&& geom.vertical_line_xs@.len() == bar_vertical_steps_spec(m) + 1
                &&& (forall|j: int|
                    0 <= j <= bar_vertical_steps_spec(m) ==> geom.vertical_line_xs@[j] == ((
                    bounds.width as int) * j) / bar_vertical_steps_spec(m))
            })
            &&& (!g.show_grid ==> {
                &&& geom.scale_lines@.len() == 0
                &&& geom.baseline_y == 0
                &&& geom.vertical_line_xs@.len() == 0
            })
            &&& (g.show_labels ==> {
                &&& geom.index_label_xs@.len() == m
                &&& (forall|i: int|
                    0 <= i < m ==> geom.index_label_xs@[i] == bar_label_x_spec(
                        i,
                        bounds.width as int,
                        m,
                    ))
            })
            &&& (!g.show_labels ==> geom.index_label_xs@.len() == 0)
            &&& geom.average_line == (if g.show_labels && avg > 0 {
                Some(
                    BarAverageLine {
                        y: (bounds.height - BOTTOM_MARGIN - (avg * (bounds.height
                            - BOTTOM_MARGIN)) / maxv) as i64,
                        value: avg as i64,
                    },
                )
            } else {
                None
            })
            &&& geom.hover == bar_hover_spec(cursor, bounds, m, bins)
        }
    }
}

/// A frame with nothing in it.
fn blank_geometry() -> (geom: BarGeometry)
    ensures
        bar_geometry_blank(geom),
{
    BarGeometry {
        bins: Vec::new(),
        average: 0,
        max_value: 0,
        bars: Vec::new(),
        scale_lines: Vec::new(),
        baseline_y: 0,
        vertical_line_xs: Vec::new(),
        index_label_xs: Vec::new(),
        average_line: None,
        hover: None,
    }
}

/// The left pixel edge of bar `i`, and facts enough to keep the arithmetic
/// in range.
fn bar_left(i: usize, width: i64, n: usize) -> (left: u64)
    requires
        1 <= n <= LEN_LIMIT,
        i <= n,
        1 <= width <= crate::geometry::COORD_LIMIT,
    ensures
        left as int == bar_left_spec(i as int, width as int, n as int),
        0 <= left <= (i as int) * (width as int) + n,
        left <= 0x2000_0000_0000,
{
    proof {
        assert(0 <= (i as int) * (width as int) <= 0x100000 * 0x100000) by (nonlinear_arith)
            requires
                0 <= i <= 0x100000,
                0 <= width <= 0x100000,
        ;
    }
    let num: u64 = (i as u64) * (width as u64) + (n as u64) - 1;
    let left: u64 = num / (n as u64);
    proof {
        lemma_div_pos_is_pos(num as int, n as int);
        lemma_div_nonincreasing(num as int, n as int);
    }
    left
}

impl<T, M: ValueMapper<T>> BarGraph<T, M> {
    /// The magnitudes of all samples, through the mapper, as one pass over
    /// the buffer.
    pub fn map_values(&self) -> (r: Vec<i64>)
        ensures
            ints_of(r@) == mapped_spec(self.datapoints@, self.mapper),
            r@.len() == self.datapoints@.len(),
            crate::binning::values_bounded(r@),
    {
        map_all(&self.datapoints, &self.mapper)
    }

    /// Compute one frame's geometry: window the samples by the widget's
    /// zoom, aggregate the window into bins, and lay out bars, scale,
    /// labels, average line and hover feedback. Empty data, an empty
    /// window or an all-nonpositive scale draw nothing.
    pub fn compute_geometry(
        &self,
        state: &BarGraphState,
        bounds: SizePx,
        cursor: Option<PointPx>,
    ) -> (geom: BarGeometry)
        requires
            bar_graph_wf(*self),
            size_wf(bounds),
            cursor_wf(cursor, bounds),
        ensures
            bar_geometry_matches(*self, *state, bounds, cursor, geom),
            self.datapoints@.len() == 0 ==> bar_geometry_blank(geom),
    {
        let values_all = self.map_values();
        let total = values_all.len();
        if total == 0 {
            return blank_geometry();
        }
        let (start, count) = calculate_visible_range(total, state.zoom, self.base_items);
        let ghost values = mapped_spec(self.datapoints@, self.mapper);
        let ghost vis = visible_values_spec(values, state.zoom, self.base_items as nat);
        proof {
            assert(vis =~= ints_of(values_all@).subrange(start as int, (start + count) as int));
        }
        if count == 0 {
            return blank_geometry();
        }
        let end = start + count;
        // copy the visible window
        let mut window: Vec<i64> = Vec::new();
        let mut wi: usize = start;
        proof {
            assert(ints_of(window@) =~= vis.take(0));
        }
        while wi < end
            invariant
                start <= wi <= end <= values_all@.len(),
                vis == ints_of(values_all@).subrange(start as int, end as int),
                window@.len() == wi - start,
                ints_of(window@) == vis.take(wi - start),
            decreases end - wi,
        {
            let v = values_all[wi];
            proof {
                assert(ints_of(window@.push(v)) =~= vis.take(wi - start + 1));
            }
            window.push(v);
            wi = wi + 1;
        }
        proof {
            assert(vis.take(end - start) =~= vis);
            assert(crate::binning::values_bounded(window@)) by {
                assert forall|j: int|
                    0 <= j < window@.len() implies -VALUE_LIMIT <= #[trigger] window@[j]
                    <= VALUE_LIMIT by {
                    assert(window@[j] as int == ints_of(window@)[j]);
                    assert(ints_of(window@)[j] == vis[j]);
                    assert(vis[j] == ints_of(values_all@)[start + j]);
                }
            }
        }
        let k = self.desired_bins(count);
        let bins = aggregate_into_bins(&window, k, self.bin_aggregator);
        let m = bins.len();
        let ghost size = bin_size_spec(count as nat, k as nat);
        let ghost sbins = binned_spec(vis, size, self.bin_aggregator);
        let ghost envelope: int = (count as int) * (VALUE_LIMIT as int);
        proof {
            let t = count as int;
            let kk = k as int;
            assert(size >= 1) by {
                assert(t + kk - 1 >= kk);
                lemma_div_is_ordered(kk, t + kk - 1, kk);
                lemma_div_by_self(kk);
            }
            lemma_binned_len(vis, size, self.bin_aggregator);
            lemma_bin_count_bound(vis, k as nat, self.bin_aggregator);
            lemma_binned_bounded(vis, size, self.bin_aggregator, VALUE_LIMIT as int);
            assert(m >= 1) by {
                let sz = size as int;
                assert(t + sz - 1 >= sz);
                lemma_div_is_ordered(sz, t + sz - 1, sz);
                lemma_div_by_self(sz);
            }
            vstd::arithmetic::mul::lemma_mul_nonnegative(t, VALUE_LIMIT as int);
            lemma_mul_inequality(count as int, LEN_LIMIT as int, VALUE_LIMIT as int);
            assert forall|j: int| 0 <= j < bins@.len() implies -envelope <= #[trigger] bins@[j]
                <= envelope by {
                assert(bins@[j] as int == sbins[j]);
                assert(-(t) * (VALUE_LIMIT as int) == -envelope) by (nonlinear_arith)
                    requires
                        envelope == t * (VALUE_LIMIT as int),
                ;
            }
            lemma_seq_minmax_in_range(sbins, -envelope, envelope);
            assert((m as int) * envelope <= 0x4000_0000_0000_0000) by (nonlinear_arith)
                requires
                    0 <= m <= 0x100000,
                    0 <= envelope <= 0x10000000000,
            ;
        }
        let maxv = max_range(&bins, 0, m);
        proof {
            assert(ints_of(bins@).subrange(0, m as int) =~= sbins);
        }
        let max_value: i64 = if maxv > 0 {
            maxv
        } else {
            0
        };
        if max_value == 0 {
            return blank_geometry();
        }
        let bsum = sum_range_with(&bins, 0, m, Ghost(envelope));
        proof {
            assert(-((m - 0) as int) * envelope == -(((m - 0) as int) * envelope))
                by (nonlinear_arith);
        }
        let average = div_floor(bsum, m as i64);
        proof {
            // the average stays within the envelope of the bin values
            lemma_div_between_zero_and_numerator(seq_sum(sbins), m as int);
            assert(-(m as int) * envelope == -((m as int) * envelope)) by (nonlinear_arith);
            assert(seq_sum(sbins) <= (m as int) * envelope ==> seq_sum(sbins) / (m as int)
                <= envelope) by {
                if seq_sum(sbins) <= (m as int) * envelope {
                    lemma_div_is_ordered(seq_sum(sbins), (m as int) * envelope, m as int);
                    lemma_mul_is_commutative(m as int, envelope);
                    lemma_fundamental_div_mod_converse_div(
                        (m as int) * envelope,
                        m as int,
                        envelope,
                        0,
                    );
                }
            }
            assert(-((m as int) * envelope) <= seq_sum(sbins) ==> -envelope <= seq_sum(sbins) / (
            m as int)) by {
                if -((m as int) * envelope) <= seq_sum(sbins) {
                    assert(-((m as int) * envelope) == (m as int) * (-envelope))
                        by (nonlinear_arith);
                    lemma_div_is_ordered((m as int) * (-envelope), seq_sum(sbins), m as int);
                    lemma_mul_is_commutative(m as int, -envelope);
                    lemma_fundamental_div_mod_converse_div(
                        (m as int) * (-envelope),
                        m as int,
                        -envelope,
                        0,
                    );
                }
            }
        }
        let avail: i64 = bounds.height - BOTTOM_MARGIN;
        // the bars themselves
        let mut bars: Vec<RectPx> = Vec::new();
        let mut i: usize = 0;
        while i < m
            invariant
                0 <= i <= m == bins@.len(),
                1 <= m <= LEN_LIMIT,
                size_wf(bounds),
                avail == bounds.height - BOTTOM_MARGIN,
                1 <= max_value,
                max_value as int == (if seq_max(sbins) >= 0 {
                    seq_max(sbins)
                } else {
                    0
                }),
                sbins == ints_of(bins@),
                0 <= envelope <= 0x10000000000,
                forall|j: int| 0 <= j < bins@.len() ==> -envelope <= #[trigger] bins@[j] <= envelope,
                bars@.len() == i,
                forall|j: int|
                    0 <= j < i ==> bars@[j] == bar_rect_spec(
                        j,
                        m as int,
                        bounds,
                        ints_of(bins@)[j],
                        max_value as int,
                    ),
            decreases m - i,
        {
            let left = bar_left(i, bounds.width, m);
            let left1 = bar_left(i + 1, bounds.width, m);
            let pad: u64 = ((bounds.width as u64) / (m as u64)) / 10;
            let v = bins[i];
            let h: i64 = if v == 0 {
                3
            } else {
                proof {
                    assert(-0x4000_0000_0000_0000 <= (v as int) * (avail as int)
                        <= 0x4000_0000_0000_0000) by (nonlinear_arith)
                        requires
                            -0x10000000000 <= v <= 0x10000000000,
                            -0x100 <= avail <= 0x100000,
                    ;
                }
                let scaled = div_floor(v * avail, max_value);
                proof {
                    // the scaled height keeps the numerator's magnitude
                    lemma_div_between_zero_and_numerator(
                        (v as int) * (avail as int),
                        max_value as int,
                    );
                }
                if scaled >= 0 {
                    scaled
                } else {
                    0
                }
            };
            let rect = RectPx {
                x: (left as i64) + ((pad / 2) as i64),
                y: avail - h,
                width: (left1 as i64) - (left as i64) - (pad as i64),
                height: h,
            };
            proof {
                assert(rect == bar_rect_spec(
                    i as int,
                    m as int,
                    bounds,
                    ints_of(bins@)[i as int],
                    max_value as int,
                ));
            }
            bars.push(rect);
            i = i + 1;
        }
        // grid and scale
        let mut scale_lines: Vec<BarScaleLine> = Vec::new();
        let mut vertical_line_xs: Vec<i64> = Vec::new();
        let mut baseline_y: i64 = 0;
        if self.show_grid {
            let mut gi: i64 = 0;
            while gi < 6
                invariant
                    0 <= gi <= 6,
                    size_wf(bounds),
                    1 <= max_value <= 0x10000000000,
                    scale_lines@.len() == gi,
                    forall|j: int|
                        0 <= j < gi ==> scale_lines@[j] == bar_scale_line_spec(
                            j,
                            bounds,
                            max_value as int,
                        ),
                decreases 6 - gi,
            {
                proof {
                    assert(-0x6400000 <= ((bounds.height - BOTTOM_MARGIN) as int) * (gi as int)
                        <= 0x6400000) by (nonlinear_arith)
                        requires
                            -0x100 <= bounds.height - BOTTOM_MARGIN <= 0x100000,
                            0 <= gi < 6,
                    ;
                    assert(0 <= (max_value as int) * ((5 - gi) as int) <= 0x50000000000)
                        by (nonlinear_arith)
                        requires
                            1 <= max_value <= 0x10000000000,
                            0 <= 5 - gi <= 5,
                    ;
                }
                let y = div_floor((bounds.height - BOTTOM_MARGIN) * gi, 5);
                let num: u64 = (max_value as u64) * ((5 - gi) as u64);
                proof {
                    lemma_div_nonincreasing(num as int, 5);
                    lemma_div_pos_is_pos(num as int, 5);
                }
                let value: i64 = (num / 5) as i64;
                scale_lines.push(BarScaleLine { y, value });
                gi = gi + 1;
            }
            baseline_y = bounds.height - BOTTOM_MARGIN;
            let half: usize = m / 2;
            let steps: usize = if half < 1 {
                1
            } else if half > 10 {
                10
            } else {
                half
            };
            let mut vj: usize = 0;
            while vj <= steps
                invariant
                    0 <= vj <= steps + 1,
                    1 <= steps <= 10,
                    steps as int == bar_vertical_steps_spec(m as int),
                    size_wf(bounds),
                    vertical_line_xs@.len() == vj,
                    forall|j: int|
                        0 <= j < vj ==> vertical_line_xs@[j] == ((bounds.width as int) * j)
                            / (steps as int),
                decreases steps - vj + 1,
            {
                proof {
                    assert(0 <= (bounds.width as int) * (vj as int) <= 0xB00000)
                        by (nonlinear_arith)
                        requires
                            1 <= bounds.width <= 0x100000,
                            0 <= vj <= 11,
                    ;
                }
                let num: u64 = (bounds.width as u64) * (vj as u64);
                proof {
                    lemma_div_nonincreasing(num as int, steps as int);
                    lemma_div_pos_is_pos(num as int, steps as int);
                }
                let x: i64 = (num / (steps as u64)) as i64;
                vertical_line_xs.push(x);
                vj = vj + 1;
            }
        }
        // index labels
        let mut index_label_xs: Vec<i64> = Vec::new();
        if self.show_labels {
            let mut li: usize = 0;
            while li < m
                invariant
                    0 <= li <= m,
                    1 <= m <= LEN_LIMIT,
                    size_wf(bounds),
                    index_label_xs@.len() == li,
                    forall|j: int|
                        0 <= j < li ==> index_label_xs@[j] == bar_label_x_spec(
                            j,
                            bounds.width as int,
                            m as int,
                        ),
                decreases m - li,
            {
                let left = bar_left(li, bounds.width, m);
                let left1 = bar_left(li + 1, bounds.width, m);
                proof {
                    assert((li as int) * (bounds.width as int) <= (li + 1) * (
                    bounds.width as int)) by (nonlinear_arith)
                        requires
                            bounds.width >= 1,
                            li >= 0,
                    ;
                    lemma_div_is_ordered(
                        (li as int) * (bounds.width as int) + m - 1,
                        (li + 1) * (bounds.width as int) + m - 1,
                        m as int,
                    );
                }
                let x: i64 = (left + (left1 - left) / 2) as i64;
                index_label_xs.push(x);
                li = li + 1;
            }
        }
        // average reference line
        let average_line: Option<BarAverageLine> = if self.show_labels && average > 0 {
            proof {
                assert(-0x4000_0000_0000_0000 <= (average as int) * (avail as int)
                    <= 0x4000_0000_0000_0000) by (nonlinear_arith)
                    requires
                        0 <= average <= 0x10000000000,
                        -0x100 <= avail <= 0x100000,
                ;
            }
            let scaled = div_floor(average * avail, max_value);
            proof {
                lemma_div_between_zero_and_numerator(
                    (average as int) * (avail as int),
                    max_value as int,
                );
            }
            Some(BarAverageLine { y: avail - scaled, value: average })
        } else {
            None
        };
        // hover overlay for the bar under the cursor
        let hover: Option<BarHover> = match cursor {
            Some(p) => {
                if 0 <= p.y && p.y < avail {
                    proof {
                        vstd::arithmetic::mul::lemma_mul_upper_bound(
                            p.x as int,
                            crate::geometry::COORD_LIMIT as int,
                            m as int,
                            LEN_LIMIT as int,
                        );
                    }
                    let scaled: u64 = (p.x as u64) * (m as u64);
                    let q: u64 = scaled / (bounds.width as u64);
                    proof {
                        super::lemma_div_nonincreasing_times(
                            p.x as int,
                            m as int,
                            bounds.width as int,
                        );
                    }
                    let idx: usize = q as usize;
                    if idx < m {
                        let left = bar_left(idx, bounds.width, m);
                        let left1 = bar_left(idx + 1, bounds.width, m);
                        let value = bins[idx];
                        let label_y: i64 = if value == 0 {
                            bounds.height - BOTTOM_MARGIN - 15
                        } else {
                            p.y
                        };
                        Some(
                            BarHover {
                                index: idx,
                                overlay: RectPx {
                                    x: left as i64,
                                    y: 0,
                                    width: (left1 as i64) - (left as i64),
                                    height: avail,
                                },
                                value,
                                label_position: PointPx { x: p.x, y: label_y },
                                label_above: p.y >= 10,
                            },
                        )
                    } else {
                        None
                    }
                } else {
                    None
                }
            },
            None => None,
        };
        BarGeometry {
            bins,
            average,
            max_value,
            bars,
            scale_lines,
            baseline_y,
            vertical_line_xs,
            index_label_xs,
            average_line,
            hover,
        }
    }

    /// Draw through the cache: reuse the geometry memoized for this frame
    /// size, or compute and store it.
    pub fn draw(
        &self,
        state: &BarGraphState,
        cache: &mut GeometryCache<BarGeometry>,
        bounds: SizePx,
        cursor: Option<PointPx>,
    )
        requires
            bar_graph_wf(*self),
            size_wf(bounds),
            cursor_wf(cursor, bounds),
        ensures
            final(cache).holds_for(bounds),
            old(cache).holds_for(bounds) ==> *final(cache) == *old(cache),
            !old(cache).holds_for(bounds) ==> (final(cache).spec_entry() matches Some((b, geom))
                && b == bounds && bar_geometry_matches(*self, *state, bounds, cursor, geom)),
    {
        let hit = cache.get(&bounds).is_some();
        if hit {
            return;
        }
        let geom = self.compute_geometry(state, bounds, cursor);
        cache.put(bounds, geom);
    }
}

/// Hit-test and overlay agree: a cursor standing anywhere on the drawn span
/// of bar `i` hit-tests to index `i`. In particular a cursor at the bar's
/// center finds that bar.
pub proof fn lemma_bar_hit_matches_span(x: int, width: int, n: int, i: int)
    requires
        1 <= n,
        1 <= width,
        0 <= i < n,
        bar_left_spec(i, width, n) <= x < bar_left_spec(i + 1, width, n),
    ensures
        bar_hit_spec(x, width, n) == i,
{
    let c0 = bar_left_spec(i, width, n);
    let c1 = bar_left_spec(i + 1, width, n);
    // x * n >= i * width, because c0 rounds the boundary up
    lemma_fundamental_div_mod(i * width + n - 1, n);
    let r0 = (i * width + n - 1) % n;
    assert(x * n >= i * width) by (nonlinear_arith)
        requires
            x >= c0,
            i * width + n - 1 == n * c0 + r0,
            0 <= r0 < n,
            1 <= n,
    ;
    // x * n < (i + 1) * width, because x stays under the next boundary
    lemma_fundamental_div_mod((i + 1) * width + n - 1, n);
    let r1 = ((i + 1) * width + n - 1) % n;
    assert(x * n < (i + 1) * width) by (nonlinear_arith)
        requires
            x <= c1 - 1,
            (i + 1) * width + n - 1 == n * c1 + r1,
            0 <= r1 < n,
            1 <= n,
    ;
    assert((i + 1) * width == i * width + width) by (nonlinear_arith);
    lemma_fundamental_div_mod_converse_div(x * n, width, i, x * n - i * width);
}

} // verus!
