//! Shared interaction types for all graph types: the input events the host
//! hands in, the notifications the charts publish, and the actions they ask
//! of the host.

use vstd::prelude::*;
use crate::geometry::PointPx;
use crate::zoom::Zoom;

verus! {

/// An input event, reduced to the plain values the chart logic reads. The
/// host adapter translates its own event type into this one; the cursor is
/// handed alongside, resolved against the widget bounds.
#[derive(Debug, Clone, Copy, PartialEq, Eq, Structural)]
pub enum GraphEvent {
    /// The cursor moved.
    CursorMoved,
    /// The left mouse button was pressed.
    LeftPressed,
    /// The mouse wheel was scrolled; `upward` is the sign of the vertical
    /// delta.
    WheelScrolled { upward: bool },
}

/// A cursor the host may hand in: any position it reports lies on the frame.
pub open spec fn cursor_wf(cursor: Option<PointPx>, bounds: crate::geometry::SizePx) -> bool {
    match cursor {
        Some(p) => 0 <= p.x <= bounds.width && 0 <= p.y <= bounds.height,
        None => true,
    }
}

/// What a chart asks of the host after an event: publish a notification
/// (optionally capturing the event so it does not propagate further), or
/// merely repaint.
#[derive(Debug, Clone, Copy, PartialEq, Eq, Structural)]
pub enum GraphAction<N> {
    Publish(N),
    PublishAndCapture(N),
    Redraw,
}

/// Generic graph interaction events.
#[derive(Debug, Clone, Copy, PartialEq, Eq, Structural)]
pub enum GraphInteraction<T> {
    /// Item hovered with index.
    ItemHovered(usize),
    /// Item clicked with index.
    ItemClicked(usize),
    /// Zoom level changed.
    ZoomChanged(Zoom),
    /// Custom graph-specific interaction.
    Custom(T),
}

/// Bar graph specific interaction types.
#[derive(Debug, Clone, Copy, PartialEq, Eq, Structural)]
pub enum BarInteraction {
    BarHovered(usize),
    BarClicked(usize),
    ZoomChanged(Zoom),
}

/// Line graph specific interaction types.
#[derive(Debug, Clone, Copy, PartialEq, Eq, Structural)]
pub enum LineInteraction {
    PointHovered(usize),
    PointClicked(usize),
    ZoomChanged(Zoom),
}

impl From<BarInteraction> for GraphInteraction<BarInteraction> {
    fn from(interaction: BarInteraction) -> (r: GraphInteraction<BarInteraction>) {
        match interaction {
            BarInteraction::BarHovered(index) => GraphInteraction::ItemHovered(index),
            BarInteraction::BarClicked(index) => GraphInteraction::ItemClicked(index),
            BarInteraction::ZoomChanged(zoom) => GraphInteraction::ZoomChanged(zoom),
        }
    }
}

impl vstd::std_specs::convert::FromSpecImpl<BarInteraction> for GraphInteraction<BarInteraction> {
    open spec fn obeys_from_spec() -> bool {
        true
    }

    open spec fn from_spec(interaction: BarInteraction) -> Self {
        match interaction {
            BarInteraction::BarHovered(index) => GraphInteraction::ItemHovered(index),
            BarInteraction::BarClicked(index) => GraphInteraction::ItemClicked(index),
            BarInteraction::ZoomChanged(zoom) => GraphInteraction::ZoomChanged(zoom),
        }
    }
}

impl From<LineInteraction> for GraphInteraction<LineInteraction> {
    fn from(interaction: LineInteraction) -> (r: GraphInteraction<LineInteraction>) {
        match interaction {
            LineInteraction::PointHovered(index) => GraphInteraction::ItemHovered(index),
            LineInteraction::PointClicked(index) => GraphInteraction::ItemClicked(index),
            LineInteraction::ZoomChanged(zoom) => GraphInteraction::ZoomChanged(zoom),
        }
    }
}

impl vstd::std_specs::convert::FromSpecImpl<LineInteraction> for GraphInteraction<LineInteraction> {
    open spec fn obeys_from_spec() -> bool {
        true
    }

    open spec fn from_spec(interaction: LineInteraction) -> Self {
        match interaction {
            LineInteraction::PointHovered(index) => GraphInteraction::ItemHovered(index),
            LineInteraction::PointClicked(index) => GraphInteraction::ItemClicked(index),
            LineInteraction::ZoomChanged(zoom) => GraphInteraction::ZoomChanged(zoom),
        }
    }
}

} // verus!
