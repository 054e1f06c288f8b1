//! Shared zoom model for all graph types.
//!
//! A zoom factor is kept in tenths of the display magnification: a stored
//! value of 10 means 1.0x, 1 means the 0.1x default minimum and 100 the
//! 10.0x default maximum. Every step the wheel can take (a tenth at or below
//! 1.0x, a whole unit above it) is exact in this unit.

use vstd::prelude::*;

verus! {

/// One whole magnification unit (1.0x), in tenths.
pub const ZOOM_ONE: u32 = 10;

/// The default minimum zoom factor (0.1x), in tenths.
pub const ZOOM_MIN_DEFAULT: u32 = 1;

/// The default maximum zoom factor (10.0x), in tenths.
pub const ZOOM_MAX_DEFAULT: u32 = 100;

/// A zoom level: either a bounded numeric factor or the full-view sentinel.
#[derive(Debug, Clone, Copy, PartialEq, Eq, Structural)]
pub enum Zoom {
    /// Specific zoom level, in tenths of the magnification factor.
    Value(u32),
    /// Full view showing all available data.
    Full,
}

/// Stepping up: from full view the minimum factor is reached first; below
/// 1.0x the step is a tenth, at or above it a whole unit, capped at `max`.
pub open spec fn zoom_increment_spec(z: Zoom, max: u32) -> Zoom {
    match z {
        Zoom::Full => Zoom::Value(ZOOM_MIN_DEFAULT),
        Zoom::Value(v) => if v < ZOOM_ONE {
            if v + 1 < ZOOM_ONE {
                Zoom::Value((v + 1) as u32)
            } else {
                Zoom::Value(ZOOM_ONE)
            }
        } else {
            if v + 10 < max {
                Zoom::Value((v + 10) as u32)
            } else {
                Zoom::Value(max)
            }
        },
    }
}

/// Stepping down: full view stays put; at or below 1.0x the step is a tenth
/// and crossing `min` collapses to full view; above 1.0x the step is a whole
/// unit with 1.0x as the floor.
pub open spec fn zoom_decrement_spec(z: Zoom, min: u32) -> Zoom {
    match z {
        Zoom::Full => Zoom::Full,
        Zoom::Value(v) => if v <= min {
            Zoom::Full
        } else if v <= ZOOM_ONE {
            if v - 1 <= min {
                Zoom::Full
            } else {
                Zoom::Value((v - 1) as u32)
            }
        } else {
            if v - 10 > ZOOM_ONE {
                Zoom::Value((v - 10) as u32)
            } else {
                Zoom::Value(ZOOM_ONE)
            }
        },
    }
}

impl Zoom {
    /// Create a new zoom level, clamped up to the default minimum factor.
    pub fn new(value: u32) -> (r: Zoom)
        ensures
            r == (if value >= ZOOM_MIN_DEFAULT {
                Zoom::Value(value)
            } else {
                Zoom::Value(ZOOM_MIN_DEFAULT)
            }),
    {
        if value >= ZOOM_MIN_DEFAULT {
            Zoom::Value(value)
        } else {
            Zoom::Value(ZOOM_MIN_DEFAULT)
        }
    }

    pub fn is_value(self) -> (r: bool)
        ensures
            r <==> self is Value,
    {
        match self {
            Zoom::Value(_) => true,
            Zoom::Full => false,
        }
    }

    pub fn is_full(self) -> (r: bool)
        ensures
            r <==> self is Full,
    {
        match self {
            Zoom::Value(_) => false,
            Zoom::Full => true,
        }
    }

    /// The numeric factor in tenths, or a caller-supplied stand-in for full view.
    pub fn value_or(self, default: u32) -> (r: u32)
        ensures
            r == (match self {
                Zoom::Value(v) => v,
                Zoom::Full => default,
            }),
    {
        match self {
            Zoom::Value(v) => v,
            Zoom::Full => default,
        }
    }

    /// Increment zoom with the default maximum of 10.0x.
    pub fn increment(self) -> (r: Zoom)
        ensures
            r == zoom_increment_spec(self, ZOOM_MAX_DEFAULT),
    {
        self.increment_with_limits(ZOOM_MAX_DEFAULT)
    }

    /// Decrement zoom with the default minimum of 0.1x.
    pub fn decrement(self) -> (r: Zoom)
        ensures
            r == zoom_decrement_spec(self, ZOOM_MIN_DEFAULT),
    {
        self.decrement_with_limits(ZOOM_MIN_DEFAULT)
    }

    /// Increment zoom with a specified maximum limit, in tenths.
    pub fn increment_with_limits(self, max: u32) -> (r: Zoom)
        ensures
            r == zoom_increment_spec(self, max),
    {
        match self {
            Zoom::Full => Zoom::Value(ZOOM_MIN_DEFAULT),
            Zoom::Value(v) => {
                if v < ZOOM_ONE {
                    if v + 1 < ZOOM_ONE {
                        Zoom::Value(v + 1)
                    } else {
                        Zoom::Value(ZOOM_ONE)
                    }
                } else {
                    if max >= 10 && v < max - 10 {
                        Zoom::Value(v + 10)
                    } else {
                        Zoom::Value(max)
                    }
                }
            },
        }
    }

    /// Decrement zoom with a specified minimum limit, in tenths.
    pub fn decrement_with_limits(self, min: u32) -> (r: Zoom)
        ensures
            r == zoom_decrement_spec(self, min),
    {
        match self {
            Zoom::Full => Zoom::Full,
            Zoom::Value(v) => {
                if v <= min {
                    Zoom::Full
                } else if v <= ZOOM_ONE {
                    if v - 1 <= min {
                        Zoom::Full
                    } else {
                        Zoom::Value(v - 1)
                    }
                } else {
                    if v - 10 > ZOOM_ONE {
                        Zoom::Value(v - 10)
                    } else {
                        Zoom::Value(ZOOM_ONE)
                    }
                }
            },
        }
    }
}

impl Default for Zoom {
    /// The default zoom is the 1.0x working factor.
    fn default() -> (r: Zoom)
        ensures
            r == Zoom::Value(ZOOM_ONE),
    {
        Zoom::Value(ZOOM_ONE)
    }
}

/// Whether a zoom level lies within the configured bounds; full view always does.
pub open spec fn zoom_within(z: Zoom, min: u32, max: u32) -> bool {
    match z {
        Zoom::Full => true,
        Zoom::Value(v) => min <= v && v <= max,
    }
}

/// One step up from a level that does not exceed `max` still does not exceed
/// `max`, and never lands on full view.
pub proof fn lemma_zoom_increment_never_exceeds_max(z: Zoom, max: u32)
    requires
        max >= ZOOM_ONE,
        z matches Zoom::Value(v) ==> v <= max,
    ensures
        zoom_increment_spec(z, max) is Value,
        zoom_increment_spec(z, max) matches Zoom::Value(v) ==> v <= max,
{
}

/// One step down from a level at or above `min` either stays at or above
/// `min` or collapses to full view; it never produces a value below `min`.
pub proof fn lemma_zoom_decrement_never_below_min(z: Zoom, min: u32)
    requires
        min <= ZOOM_ONE,
        z matches Zoom::Value(v) ==> v >= min,
    ensures
        zoom_decrement_spec(z, min) matches Zoom::Value(v) ==> v >= min,
{
}

/// The unconditional decrement floor: whatever the configured minimum, a
/// step down either collapses to full view or stays at or above the lower
/// of `min` and the 1.0x working factor. For a minimum above 1.0x the
/// coarse step can land between the working factor and the minimum; it can
/// never go below the working factor itself.
pub proof fn lemma_zoom_decrement_floor(z: Zoom, min: u32)
    requires
        z matches Zoom::Value(v) ==> v >= (if min <= ZOOM_ONE {
            min
        } else {
            ZOOM_ONE
        }),
    ensures
        zoom_decrement_spec(z, min) matches Zoom::Value(v) ==> v >= (if min <= ZOOM_ONE {
            min
        } else {
            ZOOM_ONE
        }),
{
}

/// Any number of steps up from a level within bounds stays at or below `max`.
pub proof fn lemma_zoom_repeated_increment_bounded(z: Zoom, max: u32, n: nat)
    requires
        max >= ZOOM_ONE,
        z matches Zoom::Value(v) ==> v <= max,
    ensures
        zoom_increment_iter(z, max, n) matches Zoom::Value(v) ==> v <= max,
    decreases n,
{
    if n > 0 {
        lemma_zoom_repeated_increment_bounded(z, max, (n - 1) as nat);
        lemma_zoom_increment_never_exceeds_max(zoom_increment_iter(z, max, (n - 1) as nat), max);
    }
}

/// Any number of steps down from a level at or above `min` yields either
/// full view or a value still at or above `min`.
pub proof fn lemma_zoom_repeated_decrement_bounded(z: Zoom, min: u32, n: nat)
    requires
        min <= ZOOM_ONE,
        z matches Zoom::Value(v) ==> v >= min,
    ensures
        zoom_decrement_iter(z, min, n) matches Zoom::Value(v) ==> v >= min,
    decreases n,
{
    if n > 0 {
        lemma_zoom_repeated_decrement_bounded(z, min, (n - 1) as nat);
        lemma_zoom_decrement_never_below_min(zoom_decrement_iter(z, min, (n - 1) as nat), min);
    }
}

/// `n` increment steps in a row.
pub open spec fn zoom_increment_iter(z: Zoom, max: u32, n: nat) -> Zoom
    decreases n,
{
    if n == 0 {
        z
    } else {
        zoom_increment_spec(zoom_increment_iter(z, max, (n - 1) as nat), max)
    }
}

/// `n` decrement steps in a row.
pub open spec fn zoom_decrement_iter(z: Zoom, min: u32, n: nat) -> Zoom
    decreases n,
{
    if n == 0 {
        z
    } else {
        zoom_decrement_spec(zoom_decrement_iter(z, min, (n - 1) as nat), min)
    }
}

/// The full-view boundary: stepping down from the minimum value collapses to
/// full view, and stepping up from full view lands exactly on the default
/// minimum factor, never on the minimum plus a step.
pub proof fn lemma_zoom_full_view_boundary(min: u32, max: u32)
    ensures
        zoom_decrement_spec(Zoom::Value(min), min) == Zoom::Full,
        zoom_increment_spec(Zoom::Full, max) == Zoom::Value(ZOOM_MIN_DEFAULT),
{
}

} // verus!
