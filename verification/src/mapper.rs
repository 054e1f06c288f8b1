//! Mapping a datapoint into a bounded magnitude for rendering.
//!
//! Sample values are fixed-point integers in "value units"; how many value
//! units make one unit of the measured quantity is the caller's choice. The
//! magnitude a mapper yields is always bounded, the exact-arithmetic
//! counterpart of "finite": every later sum and product then stays in range.

use vstd::prelude::*;

verus! {

/// Bound on the magnitude a mapper may yield, in value units. A million
/// units, together with a window of at most `LEN_LIMIT` samples, keeps every
/// aggregate this crate computes inside `i64` range.
pub const VALUE_LIMIT: i64 = 1048576;

/// Bound on the number of samples one chart can hold.
pub const LEN_LIMIT: usize = 1048576;

/// Clamping into the mapper range.
pub open spec fn clamp_value_spec(x: int) -> int {
    if x < -VALUE_LIMIT {
        -VALUE_LIMIT as int
    } else if x > VALUE_LIMIT {
        VALUE_LIMIT as int
    } else {
        x
    }
}

/// Shared trait to map a datapoint into a bounded magnitude for rendering.
/// Implementations may freely use references to avoid cloning. The mapping
/// is a pure function of the datapoint: hit-testing and drawing traverse
/// the samples separately and must see the same magnitudes.
pub trait ValueMapper<T> {
    /// The magnitude `map` yields, as a mathematical function.
    spec fn spec_map(&self, value: T) -> int;

    /// The magnitude of one datapoint, in value units.
    fn map(&self, value: &T) -> (r: i64)
        ensures
            r as int == self.spec_map(*value),
            -VALUE_LIMIT <= r <= VALUE_LIMIT,
    ;
}

/// The magnitudes of a whole sample buffer, through a mapper.
pub open spec fn mapped_spec<T, M: ValueMapper<T>>(datapoints: Seq<T>, mapper: M) -> Seq<int> {
    datapoints.map_values(|t: T| mapper.spec_map(t))
}

/// Map every sample into its magnitude, in one pass over the buffer.
pub fn map_all<T, M: ValueMapper<T>>(datapoints: &Vec<T>, mapper: &M) -> (r: Vec<i64>)
    ensures
        crate::binning::ints_of(r@) == mapped_spec(datapoints@, *mapper),
        r@.len() == datapoints@.len(),
        crate::binning::values_bounded(r@),
{
    let mut out: Vec<i64> = Vec::new();
    let mut i: usize = 0;
    let n = datapoints.len();
    proof {
        assert(crate::binning::ints_of(out@) =~= mapped_spec(datapoints@, *mapper).take(0));
    }
    while i < n
        invariant
            0 <= i <= n == datapoints@.len(),
            crate::binning::ints_of(out@) == mapped_spec(datapoints@, *mapper).take(i as int),
            out@.len() == i,
            crate::binning::values_bounded(out@),
        decreases n - i,
    {
        let v = mapper.map(&datapoints[i]);
        proof {
            assert(crate::binning::ints_of(out@.push(v)) =~= mapped_spec(
                datapoints@,
                *mapper,
            ).take(i + 1));
        }
        out.push(v);
        i = i + 1;
    }
    proof {
        assert(mapped_spec(datapoints@, *mapper).take(n as int) =~= mapped_spec(
            datapoints@,
            *mapper,
        ));
    }
    out
}

/// Default mapper: the numeric value itself, clamped into the mapper
/// range. The clamp is the exact-arithmetic counterpart of requiring a
/// finite magnitude: every sample the charts work on is a value the later
/// sums and products cannot overflow on.
#[derive(Debug, Clone, Copy, PartialEq, Eq, Structural)]
pub struct DefaultMap;

impl Default for DefaultMap {
    fn default() -> (r: DefaultMap)
        ensures
            r == DefaultMap,
    {
        DefaultMap
    }
}

impl ValueMapper<i64> for DefaultMap {
    open spec fn spec_map(&self, value: i64) -> int {
        clamp_value_spec(value as int)
    }

    fn map(&self, value: &i64) -> (r: i64)
    {
        if *value < -VALUE_LIMIT {
            -VALUE_LIMIT
        } else if *value > VALUE_LIMIT {
            VALUE_LIMIT
        } else {
            *value
        }
    }
}

impl ValueMapper<i32> for DefaultMap {
    open spec fn spec_map(&self, value: i32) -> int {
        clamp_value_spec(value as int)
    }

    fn map(&self, value: &i32) -> (r: i64)
    {
        let wide: i64 = *value as i64;
        if wide < -VALUE_LIMIT {
            -VALUE_LIMIT
        } else if wide > VALUE_LIMIT {
            VALUE_LIMIT
        } else {
            wide
        }
    }
}

impl ValueMapper<u32> for DefaultMap {
    open spec fn spec_map(&self, value: u32) -> int {
        clamp_value_spec(value as int)
    }

    fn map(&self, value: &u32) -> (r: i64)
    {
        let wide: i64 = *value as i64;
        if wide > VALUE_LIMIT {
            VALUE_LIMIT
        } else {
            wide
        }
    }
}

impl ValueMapper<i16> for DefaultMap {
    open spec fn spec_map(&self, value: i16) -> int {
        value as int
    }

    fn map(&self, value: &i16) -> (r: i64)
    {
        *value as i64
    }
}

impl ValueMapper<u16> for DefaultMap {
    open spec fn spec_map(&self, value: u16) -> int {
        value as int
    }

    fn map(&self, value: &u16) -> (r: i64)
    {
        *value as i64
    }
}

impl ValueMapper<u8> for DefaultMap {
    open spec fn spec_map(&self, value: u8) -> int {
        value as int
    }

    fn map(&self, value: &u8) -> (r: i64)
    {
        *value as i64
    }
}

} // verus!
