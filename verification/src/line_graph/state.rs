//! State management for line graphs.

use vstd::prelude::*;
use crate::graph_state::ZoomableGraphState;
use crate::zoom::{Zoom, ZOOM_ONE};

verus! {

/// Which end of the data the window follows while zoomed.
#[derive(Debug, Clone, Copy, PartialEq, Eq, Structural)]
pub enum PanMode {
    Start,
    End,
    Absolute(usize),
}

/// The logical pan position of a line graph.
#[derive(Debug, Clone, Copy, PartialEq, Eq, Structural)]
pub struct Pan {
    pub mode: PanMode,
}

impl Default for Pan {
    /// Default to following the end (most recent) when zoomed.
    fn default() -> (r: Pan)
        ensures
            r.mode == PanMode::End,
    {
        Pan { mode: PanMode::End }
    }
}

/// Per-widget mutable state of a line graph: the current zoom, the hovered
/// point if any, the logical pan mode, and whether Shift is held for
/// pan-only scroll.
#[derive(Debug, Clone, Copy, PartialEq, Eq, Structural)]
pub struct LineGraphState {
    pub zoom: Zoom,
    pub hovered_point: Option<usize>,
    pub pan: Pan,
    pub shift_down: bool,
}

impl LineGraphState {
    pub fn new(initial_zoom: Zoom) -> (r: LineGraphState)
        ensures
            r.zoom == initial_zoom,
            r.hovered_point is None,
            r.pan.mode == PanMode::End,
            !r.shift_down,
    {
        LineGraphState {
            zoom: initial_zoom,
            hovered_point: None,
            pan: Pan { mode: PanMode::End },
            shift_down: false,
        }
    }

    pub fn pan_start(&mut self)
        ensures
            *final(self) == (LineGraphState { pan: Pan { mode: PanMode::Start }, ..*old(self) }),
    {
        self.pan.mode = PanMode::Start;
    }

    pub fn pan_end(&mut self)
        ensures
            *final(self) == (LineGraphState { pan: Pan { mode: PanMode::End }, ..*old(self) }),
    {
        self.pan.mode = PanMode::End;
    }

    pub fn pan_absolute(&mut self, start: usize)
        ensures
            *final(self) == (LineGraphState {
                pan: Pan { mode: PanMode::Absolute(start) },
                ..*old(self)
            }),
    {
        self.pan.mode = PanMode::Absolute(start);
    }
}

impl Default for LineGraphState {
    fn default() -> (r: LineGraphState)
        ensures
            r.zoom == Zoom::Value(ZOOM_ONE),
            r.hovered_point is None,
            r.pan.mode == PanMode::End,
            !r.shift_down,
    {
        LineGraphState {
            zoom: Zoom::Value(ZOOM_ONE),
            hovered_point: None,
            pan: Pan { mode: PanMode::End },
            shift_down: false,
        }
    }
}

impl ZoomableGraphState for LineGraphState {
    open spec fn spec_zoom(&self) -> Zoom {
        self.zoom
    }

    fn zoom(&self) -> (r: Zoom)
        ensures
            r == self.spec_zoom(),
    {
        self.zoom
    }

    fn set_zoom(&mut self, zoom: Zoom)
        ensures
            final(self).spec_zoom() == zoom,
    {
        self.zoom = zoom;
    }
}

} // verus!
