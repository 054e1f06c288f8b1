//! Shared graph state functionality: the zoomable-state trait and the
//! visible-range calculator.

use vstd::prelude::*;
use crate::zoom::{Zoom, ZOOM_ONE};

verus! {

/// Common trait for graph state that supports zoom.
pub trait ZoomableGraphState {
    /// The zoom level this state holds, for contracts.
    spec fn spec_zoom(&self) -> Zoom;

    fn zoom(&self) -> (r: Zoom)
        ensures
            r == self.spec_zoom(),
    ;

    fn set_zoom(&mut self, zoom: Zoom)
        ensures
            final(self).spec_zoom() == zoom,
    ;

    /// The zoom in force: an externally supplied override wins over the
    /// widget's own state.
    fn effective_zoom(&self, external_zoom: Option<Zoom>) -> (r: Zoom)
        ensures
            r == (match external_zoom {
                Some(z) => z,
                None => self.spec_zoom(),
            }),
    {
        match external_zoom {
            Some(z) => z,
            None => self.zoom(),
        }
    }
}

/// The window width `base / z` rounded to the nearest whole count, with the
/// zoom factor `v` in tenths: half counts round up.
pub open spec fn rounded_window_spec(base: nat, v: nat) -> nat {
    (20 * base + v) / (2 * v)
}

/// How many of `total` items the window shows. Full view and a degenerate
/// zero factor show everything; zooming in shows at least five items so the
/// window never turns degenerate; zooming out widens the window up to the
/// whole sequence.
pub open spec fn visible_count_spec(total: nat, zoom: Zoom, base: nat) -> nat {
    match zoom {
        Zoom::Full => total,
        Zoom::Value(v) => if v == 0 {
            total
        } else if v >= ZOOM_ONE {
            let c = rounded_window_spec(base, v as nat);
            let floored = if c < 5 { 5 } else { c };
            if floored < total {
                floored
            } else {
                total
            }
        } else {
            let c = rounded_window_spec(base, v as nat);
            if c < total {
                c
            } else {
                total
            }
        },
    }
}

/// Where the window starts: anchored to the most recent items.
pub open spec fn visible_start_spec(total: nat, zoom: Zoom, base: nat) -> nat {
    let count = visible_count_spec(total, zoom, base);
    if total > count {
        (total - count) as nat
    } else {
        0
    }
}

/// Calculate which contiguous `[start, start + count)` slice of the sample
/// sequence is shown, from the total item count, the zoom, and the target
/// item count at 1.0x zoom.
pub fn calculate_visible_range(total_items: usize, zoom: Zoom, base_items: u64) -> (r: (
    usize,
    usize,
))
    ensures
        r.0 == visible_start_spec(total_items as nat, zoom, base_items as nat),
        r.1 == visible_count_spec(total_items as nat, zoom, base_items as nat),
        r.0 + r.1 <= total_items,
{
    match zoom {
        Zoom::Full => (0, total_items),
        Zoom::Value(v) => {
            if v == 0 {
                (0, total_items)
            } else {
                let num: u128 = 20u128 * (base_items as u128) + (v as u128);
                let den: u128 = 2u128 * (v as u128);
                let q: u128 = num / den;
                let count: usize = if v >= ZOOM_ONE {
                    let floored: u128 = if q < 5 {
                        5
                    } else {
                        q
                    };
                    if floored < (total_items as u128) {
                        floored as usize
                    } else {
                        total_items
                    }
                } else {
                    if q < (total_items as u128) {
                        q as usize
                    } else {
                        total_items
                    }
                };
                let start: usize = if total_items > count {
                    total_items - count
                } else {
                    0
                };
                (start, count)
            }
        },
    }
}

/// The slice of magnitudes inside the visible window.
pub open spec fn visible_values_spec(values: Seq<int>, zoom: Zoom, base: nat) -> Seq<int> {
    let start = visible_start_spec(values.len(), zoom, base);
    let count = visible_count_spec(values.len(), zoom, base);
    values.subrange(start as int, (start + count) as int)
}

/// Visible-range containment: for every total, zoom and base window size,
/// the window lies inside `[0, total]`.
pub proof fn lemma_visible_range_contained(total: nat, zoom: Zoom, base: nat)
    ensures
        visible_count_spec(total, zoom, base) <= total,
        visible_start_spec(total, zoom, base) + visible_count_spec(total, zoom, base) <= total,
{
}

/// Full view always shows the whole sequence from its start.
pub proof fn lemma_full_view_shows_all(total: nat, base: nat)
    ensures
        visible_start_spec(total, Zoom::Full, base) == 0,
        visible_count_spec(total, Zoom::Full, base) == total,
{
}

} // verus!
