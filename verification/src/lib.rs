//! Core logic for interactive bar and line charts on a retained-mode canvas.
//!
//! The crate models the chart state in plain integers so that every rule can
//! be verified: zoom factors are kept in tenths of the magnification, sample
//! values in fixed-point value units, and screen positions in pixel units.
//! The host toolkit adapter converts to and from its own floating-point
//! geometry at the edge.

pub mod bar_graph;
pub mod binning;
pub mod cache;
pub mod drawing;
pub mod geometry;
pub mod graph_state;
pub mod interaction;
pub mod line_graph;
pub mod mapper;
pub mod zoom;

use vstd::prelude::*;

verus! {

} // verus!
