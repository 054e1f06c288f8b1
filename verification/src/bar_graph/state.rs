//! State management for bar graphs.

use vstd::prelude::*;
use crate::graph_state::ZoomableGraphState;
use crate::zoom::{Zoom, ZOOM_ONE};

verus! {

/// Per-widget mutable state of a bar graph: the current zoom and the
/// hovered bar, if any.
#[derive(Debug, Clone, Copy, PartialEq, Eq, Structural)]
pub struct BarGraphState {
    pub zoom: Zoom,
    pub hovered_bar: Option<usize>,
}

impl BarGraphState {
    pub fn new(initial_zoom: Zoom) -> (r: BarGraphState)
        ensures
            r.zoom == initial_zoom,
            r.hovered_bar is None,
    {
        BarGraphState { zoom: initial_zoom, hovered_bar: None }
    }
}

impl Default for BarGraphState {
    fn default() -> (r: BarGraphState)
        ensures
            r.zoom == Zoom::Value(ZOOM_ONE),
            r.hovered_bar is None,
    {
        BarGraphState { zoom: Zoom::Value(ZOOM_ONE), hovered_bar: None }
    }
}

impl ZoomableGraphState for BarGraphState {
    open spec fn spec_zoom(&self) -> Zoom {
        self.zoom
    }

    fn zoom(&self) -> (r: Zoom)
        ensures
            r == self.spec_zoom(),
    {
        self.zoom
    }

    fn set_zoom(&mut self, zoom: Zoom)
        ensures
            final(self).spec_zoom() == zoom,
    {
        self.zoom = zoom;
    }
}

} // verus!
