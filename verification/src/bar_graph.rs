//! The bar chart: configuration, the interaction state machine, and the
//! hit-test arithmetic shared by both.

pub mod drawing;
pub mod state;

use vstd::prelude::*;
use vstd::arithmetic::div_mod::{
    lemma_div_is_ordered, lemma_div_pos_is_pos, lemma_div_by_self,
    lemma_fundamental_div_mod_converse_div,
};
use crate::binning::{bin_size_spec, BinAggregator};
use crate::graph_state::{calculate_visible_range, visible_count_spec};
use crate::zoom::{
    zoom_decrement_spec, zoom_increment_spec, Zoom, ZOOM_MAX_DEFAULT, ZOOM_MIN_DEFAULT,
};
use crate::cache::GeometryCache;
use crate::geometry::{size_wf, PointPx, SizePx, COORD_LIMIT};
use crate::interaction::{cursor_wf, BarInteraction, GraphAction, GraphEvent};
use crate::mapper::{DefaultMap, ValueMapper, LEN_LIMIT};
use self::state::BarGraphState;

verus! {

/// A configured bar chart over an owned, re-enumerable buffer of samples.
pub struct BarGraph<T, M> {
    pub datapoints: Vec<T>,
    /// Configured bar stroke width, in pixel units; layout derives the
    /// actual bar span from the frame width.
    pub bar_width: i64,
    pub show_grid: bool,
    pub show_labels: bool,
    /// Target number of bars (bins).
    pub base_bars: u64,
    /// Target number of samples shown at 1.0x zoom; the wheel zoom widens
    /// or narrows the window around this base.
    pub base_items: u64,
    pub mapper: M,
    pub bin_aggregator: BinAggregator,
}

/// A chart the renderer can work on: the sample buffer within the window
/// bound that keeps all later arithmetic exact.
pub open spec fn bar_graph_wf<T, M>(g: BarGraph<T, M>) -> bool {
    g.datapoints@.len() <= LEN_LIMIT
}

/// The number of bins aimed for: the configured target, at least one, and
/// never more than the (nonzero) item count.
pub open spec fn desired_bins_spec(base: nat, total: nat) -> nat {
    let d = if base >= 1 {
        base
    } else {
        1
    };
    let t = if total >= 1 {
        total
    } else {
        1
    };
    if d <= t {
        d
    } else {
        t
    }
}

/// The number of bins actually produced for `visible` items: the target
/// bin count rounded through the ceiling bin width. It can fall short of
/// the target, so hit-testing must use this count, exactly as drawing does.
pub open spec fn bar_count_spec(visible: nat, base: nat) -> nat {
    if visible == 0 {
        0
    } else {
        let size = bin_size_spec(visible, desired_bins_spec(base, visible));
        (((visible + size - 1) as int) / (size as int)) as nat
    }
}

/// The number of bars the current zoom puts on screen: the visible window
/// of the samples, then the bin count of that window.
pub open spec fn bars_on_screen_spec(total: nat, zoom: Zoom, base_items: nat, base_bars: nat) -> nat {
    bar_count_spec(visible_count_spec(total, zoom, base_items), base_bars)
}

/// The bar under a cursor at `x`: the index whose span of the frame width
/// `width`, divided evenly among `n` bars, holds `x`.
pub open spec fn bar_hit_spec(x: int, width: int, n: int) -> int {
    (x * n) / width
}

/// Clearing any hover: the shared tail of every transition that leaves the
/// cursor without a bar under it.
pub open spec fn bar_clear_hover_spec(state: BarGraphState) -> (
    BarGraphState,
    bool,
    Option<GraphAction<BarInteraction>>,
) {
    if state.hovered_bar is Some {
        (BarGraphState { hovered_bar: None, ..state }, true, Some(GraphAction::Redraw))
    } else {
        (state, false, None)
    }
}

/// The outcome of one bar-chart event: the next state, whether the cached
/// geometry must be invalidated, and the action handed back to the host.
pub open spec fn bar_update_spec(
    total: nat,
    base_items: nat,
    base_bars: nat,
    state: BarGraphState,
    event: GraphEvent,
    bounds: SizePx,
    cursor: Option<PointPx>,
) -> (BarGraphState, bool, Option<GraphAction<BarInteraction>>) {
    match event {
        GraphEvent::CursorMoved => match cursor {
            Some(p) => {
                let n = bars_on_screen_spec(total, state.zoom, base_items, base_bars);
                if n > 0 {
                    let idx = bar_hit_spec(p.x as int, bounds.width as int, n as int);
                    if idx < n {
                        if state.hovered_bar != Some(idx as usize) {
                            (
                                BarGraphState { hovered_bar: Some(idx as usize), ..state },
                                true,
                                Some(GraphAction::Publish(BarInteraction::BarHovered(idx as usize))),
                            )
                        } else {
                            (state, false, None)
                        }
                    } else if state.hovered_bar is Some {
                        (
                            BarGraphState { hovered_bar: None, ..state },
                            true,
                            Some(GraphAction::Redraw),
                        )
                    } else {
                        (state, false, None)
                    }
                } else {
                    // nothing is on screen: an empty chart reports no hits
                    bar_clear_hover_spec(state)
                }
            },
            None => bar_clear_hover_spec(state),
        },
        GraphEvent::LeftPressed => match state.hovered_bar {
            Some(i) => (state, false, Some(GraphAction::Publish(BarInteraction::BarClicked(i)))),
            None => (state, false, None),
        },
        GraphEvent::WheelScrolled { upward } => {
            if cursor is Some {
                let nz = if upward {
                    zoom_increment_spec(state.zoom, ZOOM_MAX_DEFAULT)
                } else {
                    zoom_decrement_spec(state.zoom, ZOOM_MIN_DEFAULT)
                };
                if nz != state.zoom {
                    (
                        BarGraphState { zoom: nz, ..state },
                        true,
                        Some(GraphAction::PublishAndCapture(BarInteraction::ZoomChanged(nz))),
                    )
                } else {
                    (state, false, None)
                }
            } else {
                (state, false, None)
            }
        },
    }
}

impl<T, M: ValueMapper<T>> BarGraph<T, M> {
    /// Construct with a custom mapper implementation.
    pub fn with_mapper(datapoints: Vec<T>, mapper: M) -> (r: BarGraph<T, M>)
        ensures
            r.datapoints == datapoints,
            r.mapper == mapper,
            r.bar_width == 2,
            r.show_grid,
            r.show_labels,
            r.base_bars == 50,
            r.base_items == 50,
            r.bin_aggregator == BinAggregator::Average,
    {
        BarGraph {
            datapoints,
            bar_width: 2,
            show_grid: true,
            show_labels: true,
            base_bars: 50,
            base_items: 50,
            mapper,
            bin_aggregator: BinAggregator::Average,
        }
    }

    pub fn bar_width(self, width: i64) -> (r: BarGraph<T, M>)
        ensures
            r == (BarGraph { bar_width: width, ..self }),
    {
        BarGraph { bar_width: width, ..self }
    }

    pub fn show_grid(self, show: bool) -> (r: BarGraph<T, M>)
        ensures
            r == (BarGraph { show_grid: show, ..self }),
    {
        BarGraph { show_grid: show, ..self }
    }

    pub fn show_labels(self, show: bool) -> (r: BarGraph<T, M>)
        ensures
            r == (BarGraph { show_labels: show, ..self }),
    {
        BarGraph { show_labels: show, ..self }
    }

    pub fn base_bars(self, bars: u64) -> (r: BarGraph<T, M>)
        ensures
            r == (BarGraph { base_bars: bars, ..self }),
    {
        BarGraph { base_bars: bars, ..self }
    }

    pub fn base_items(self, items: u64) -> (r: BarGraph<T, M>)
        ensures
            r == (BarGraph { base_items: items, ..self }),
    {
        BarGraph { base_items: items, ..self }
    }

    /// Set exact number of bins (bars), clamped up to one.
    pub fn bins(self, count: usize) -> (r: BarGraph<T, M>)
        ensures
            r == (BarGraph {
                base_bars: (if count >= 1 {
                    count as u64
                } else {
                    1u64
                }),
                ..self
            }),
    {
        let clamped: u64 = if count >= 1 {
            count as u64
        } else {
            1
        };
        BarGraph { base_bars: clamped, ..self }
    }

    /// Choose how to aggregate values inside each bin.
    pub fn bin_aggregator(self, kind: BinAggregator) -> (r: BarGraph<T, M>)
        ensures
            r == (BarGraph { bin_aggregator: kind, ..self }),
    {
        BarGraph { bin_aggregator: kind, ..self }
    }

    /// The target bin count for `total_items` items.
    pub fn desired_bins(&self, total_items: usize) -> (r: usize)
        ensures
            r == desired_bins_spec(self.base_bars as nat, total_items as nat),
            1 <= r,
            total_items >= 1 ==> r <= total_items,
    {
        let d: u64 = if self.base_bars >= 1 {
            self.base_bars
        } else {
            1
        };
        let t: usize = if total_items >= 1 {
            total_items
        } else {
            1
        };
        if (d as u128) <= (t as u128) {
            d as usize
        } else {
            t
        }
    }

    /// The number of bars that will actually be drawn for `visible_items`
    /// windowed samples; the hit-tester uses the same count.
    pub fn visible_bar_count(&self, visible_items: usize) -> (r: usize)
        requires
            visible_items <= LEN_LIMIT,
        ensures
            r == bar_count_spec(visible_items as nat, self.base_bars as nat),
            r <= visible_items,
            visible_items >= 1 ==> 1 <= r,
    {
        if visible_items == 0 {
            return 0;
        }
        let k = self.desired_bins(visible_items);
        let size: usize = (visible_items + k - 1) / k;
        proof {
            let t = visible_items as int;
            let ki = k as int;
            lemma_div_pos_is_pos(t + ki - 1, ki);
            assert(t + ki - 1 >= ki);
            lemma_div_is_ordered(ki, t + ki - 1, ki);
            lemma_div_by_self(ki);
        }
        let count: usize = (visible_items + size - 1) / size;
        proof {
            let t = visible_items as int;
            let s = size as int;
            assert(t + s - 1 <= t * s) by (nonlinear_arith)
                requires
                    t >= 1,
                    s >= 1,
            ;
            lemma_div_is_ordered(t + s - 1, t * s, s);
            assert((t * s) / s == t) by {
                lemma_fundamental_div_mod_converse_div(t * s, s, t, 0);
            }
            lemma_div_pos_is_pos(t + s - 1, s);
            assert(t + s - 1 >= s);
            lemma_div_is_ordered(s, t + s - 1, s);
            lemma_div_by_self(s);
        }
        count
    }

    /// Handle one input event: recompute the hovered bar on cursor moves,
    /// publish a click on the hovered bar, step the zoom within the default
    /// bounds on wheel scroll over the widget, and invalidate the cached
    /// geometry exactly when the state changed.
    pub fn update<G>(
        &self,
        state: &mut BarGraphState,
        cache: &mut GeometryCache<G>,
        event: &GraphEvent,
        bounds: &SizePx,
        cursor: Option<PointPx>,
    ) -> (action: Option<GraphAction<BarInteraction>>)
        requires
            bar_graph_wf(*self),
            size_wf(*bounds),
            cursor_wf(cursor, *bounds),
        ensures
            ({
                let (next, invalidated, act) = bar_update_spec(
                    self.datapoints@.len(),
                    self.base_items as nat,
                    self.base_bars as nat,
                    *old(state),
                    *event,
                    *bounds,
                    cursor,
                );
                *final(state) == next && action == act && (invalidated
                    ==> final(cache).is_cleared()) && (!invalidated ==> *final(cache) == *old(
                    cache,
                ))
            }),
            // the cache-invalidation discipline: any transition that changes
            // the hovered bar or the zoom leaves the cache cleared
            (final(state).hovered_bar != old(state).hovered_bar || final(state).zoom != old(
                state,
            ).zoom) ==> final(cache).is_cleared(),
    {
        match event {
            GraphEvent::CursorMoved => {
                match cursor {
                    Some(p) => {
                        let total_items = self.datapoints.len();
                        let (_, visible_items) = calculate_visible_range(
                            total_items,
                            state.zoom,
                            self.base_items,
                        );
                        let visible_bars = self.visible_bar_count(visible_items);
                        if visible_bars > 0 {
                            proof {
                                vstd::arithmetic::mul::lemma_mul_upper_bound(
                                    p.x as int,
                                    COORD_LIMIT as int,
                                    visible_bars as int,
                                    LEN_LIMIT as int,
                                );
                            }
                            let scaled: u64 = (p.x as u64) * (visible_bars as u64);
                            let bar_index: usize = (scaled / (bounds.width as u64)) as usize;
                            proof {
                                lemma_div_pos_is_pos(
                                    (p.x as int) * (visible_bars as int),
                                    bounds.width as int,
                                );
                                lemma_div_nonincreasing_times(
                                    p.x as int,
                                    visible_bars as int,
                                    bounds.width as int,
                                );
                            }
                            if bar_index < visible_bars {
                                if !hovered_equals(&state.hovered_bar, bar_index) {
                                    state.hovered_bar = Some(bar_index);
                                    cache.clear();
                                    return Some(
                                        GraphAction::Publish(BarInteraction::BarHovered(bar_index)),
                                    );
                                }
                                None
                            } else if state.hovered_bar.is_some() {
                                state.hovered_bar = None;
                                cache.clear();
                                Some(GraphAction::Redraw)
                            } else {
                                None
                            }
                        } else {
                            // nothing is on screen: an empty chart reports
                            // no hits, so any stale hover is cleared
                            if state.hovered_bar.is_some() {
                                state.hovered_bar = None;
                                cache.clear();
                                Some(GraphAction::Redraw)
                            } else {
                                None
                            }
                        }
                    },
                    None => {
                        if state.hovered_bar.is_some() {
                            state.hovered_bar = None;
                            cache.clear();
                            Some(GraphAction::Redraw)
                        } else {
                            None
                        }
                    },
                }
            },
            GraphEvent::LeftPressed => {
                match state.hovered_bar {
                    Some(bar_index) => Some(
                        GraphAction::Publish(BarInteraction::BarClicked(bar_index)),
                    ),
                    None => None,
                }
            },
            GraphEvent::WheelScrolled { upward } => {
                if cursor.is_some() {
                    let new_zoom = if *upward {
                        state.zoom.increment()
                    } else {
                        state.zoom.decrement()
                    };
                    if new_zoom != state.zoom {
                        state.zoom = new_zoom;
                        cache.clear();
                        Some(
                            GraphAction::PublishAndCapture(BarInteraction::ZoomChanged(new_zoom)),
                        )
                    } else {
                        None
                    }
                } else {
                    None
                }
            },
        }
    }
}

/// Whether the hovered slot already holds exactly this index.
fn hovered_equals(hovered: &Option<usize>, index: usize) -> (r: bool)
    ensures
        r <==> *hovered == Some(index),
{
    match hovered {
        Some(i) => *i == index,
        None => false,
    }
}

/// A product of a bounded coordinate and a bar count, divided by the frame
/// width, stays within the bar-count range needed for an index.
proof fn lemma_div_nonincreasing_times(x: int, n: int, w: int)
    requires
        0 <= x <= w,
        1 <= w,
        0 <= n,
    ensures
        0 <= (x * n) / w <= n,
{
    vstd::arithmetic::mul::lemma_mul_nonnegative(x, n);
    lemma_div_pos_is_pos(x * n, w);
    assert(x * n <= w * n) by (nonlinear_arith)
        requires
            0 <= x <= w,
            0 <= n,
    ;
    lemma_div_is_ordered(x * n, w * n, w);
    assert((w * n) / w == n) by {
        vstd::arithmetic::mul::lemma_mul_is_commutative(w, n);
        lemma_fundamental_div_mod_converse_div(w * n, w, n, 0);
    }
}

// Default constructor without a custom mapper.
impl<T> BarGraph<T, DefaultMap> where DefaultMap: ValueMapper<T> {
    pub fn new(datapoints: Vec<T>) -> (r: BarGraph<T, DefaultMap>)
        ensures
            r.datapoints == datapoints,
            r.mapper == DefaultMap,
            r.bar_width == 2,
            r.show_grid,
            r.show_labels,
            r.base_bars == 50,
            r.base_items == 50,
            r.bin_aggregator == BinAggregator::Average,
    {
        BarGraph {
            datapoints,
            bar_width: 2,
            show_grid: true,
            show_labels: true,
            base_bars: 50,
            base_items: 50,
            mapper: DefaultMap,
            bin_aggregator: BinAggregator::Average,
        }
    }
}

} // verus!
