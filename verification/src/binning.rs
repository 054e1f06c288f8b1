//! Binning and aggregation: grouping a visible slice of raw values into a
//! fixed number of contiguous bins, each reduced to one value.

use vstd::prelude::*;
use vstd::arithmetic::div_mod::{
    lemma_fundamental_div_mod, lemma_fundamental_div_mod_converse_div, lemma_div_is_ordered,
    lemma_div_nonincreasing, lemma_div_of0, lemma_div_pos_is_pos, lemma_div_by_self,
};
use vstd::arithmetic::mul::lemma_mul_inequality;
use crate::mapper::{LEN_LIMIT, VALUE_LIMIT};

verus! {

/// How the raw values inside one bin are reduced to the bin's value.
#[derive(Debug, Clone, Copy, PartialEq, Eq, Structural)]
pub enum BinAggregator {
    Average,
    Sum,
    Max,
}

/// The sum of a sequence of integers.
pub open spec fn seq_sum(s: Seq<int>) -> int
    decreases s.len(),
{
    if s.len() == 0 {
        0
    } else {
        s[0] + seq_sum(s.drop_first())
    }
}

/// The greatest element of a non-empty sequence of integers.
pub open spec fn seq_max(s: Seq<int>) -> int
    decreases s.len(),
{
    if s.len() <= 1 {
        s[0]
    } else {
        let rest = seq_max(s.drop_first());
        if s[0] >= rest {
            s[0]
        } else {
            rest
        }
    }
}

/// The least element of a non-empty sequence of integers.
pub open spec fn seq_min(s: Seq<int>) -> int
    decreases s.len(),
{
    if s.len() <= 1 {
        s[0]
    } else {
        let rest = seq_min(s.drop_first());
        if s[0] <= rest {
            s[0]
        } else {
            rest
        }
    }
}

/// The values of a vector of fixed-point samples, as mathematical integers.
pub open spec fn ints_of(s: Seq<i64>) -> Seq<int> {
    s.map_values(|x: i64| x as int)
}

/// Every sample within the mapper range.
pub open spec fn values_bounded(s: Seq<i64>) -> bool {
    forall|i: int| 0 <= i < s.len() ==> -VALUE_LIMIT <= #[trigger] s[i] <= VALUE_LIMIT
}

/// One bin's value: the reduction of its raw-value slice. The average
/// divides by the slice length, so a short final bin is averaged over the
/// values it actually holds, and the maximum of an all-negative slice is its
/// true (negative) maximum.
pub open spec fn bin_value_spec(slice: Seq<int>, agg: BinAggregator) -> int {
    match agg {
        BinAggregator::Average => seq_sum(slice) / (slice.len() as int),
        BinAggregator::Sum => seq_sum(slice),
        BinAggregator::Max => seq_max(slice),
    }
}

/// The bin width for `len` values in `bins` bins: the ceiling of their
/// quotient, so every value lands in some bin and only the last bin may be
/// short.
pub open spec fn bin_size_spec(len: nat, bins: nat) -> nat {
    (((len + bins - 1) as int) / (bins as int)) as nat
}

/// The sequence of bin values: contiguous slices of `size` raw values, the
/// last possibly shorter, each reduced by the aggregator, in original order.
pub open spec fn binned_spec(values: Seq<int>, size: nat, agg: BinAggregator) -> Seq<int>
    decreases values.len(),
{
    if values.len() == 0 || size == 0 {
        Seq::empty()
    } else if values.len() <= size {
        seq![bin_value_spec(values, agg)]
    } else {
        seq![bin_value_spec(values.take(size as int), agg)] + binned_spec(
            values.skip(size as int),
            size,
            agg,
        )
    }
}

/// Appending a value adds it to the sum.
pub proof fn lemma_seq_sum_push(s: Seq<int>, x: int)
    ensures
        seq_sum(s.push(x)) == seq_sum(s) + x,
    decreases s.len(),
{
    let t = s.push(x);
    assert(seq_sum(t) == t[0] + seq_sum(t.drop_first()));
    if s.len() == 0 {
        assert(t.drop_first() =~= s);
        assert(t[0] == x);
    } else {
        assert(t.drop_first() =~= s.drop_first().push(x));
        lemma_seq_sum_push(s.drop_first(), x);
        assert(t[0] == s[0]);
        assert(seq_sum(s) == s[0] + seq_sum(s.drop_first()));
    }
}

/// Appending a value takes the maximum with it.
pub proof fn lemma_seq_max_push(s: Seq<int>, x: int)
    requires
        s.len() >= 1,
    ensures
        seq_max(s.push(x)) == (if seq_max(s) >= x {
            seq_max(s)
        } else {
            x
        }),
    decreases s.len(),
{
    let t = s.push(x);
    assert(seq_max(t) == if t[0] >= seq_max(t.drop_first()) {
        t[0]
    } else {
        seq_max(t.drop_first())
    });
    assert(t[0] == s[0]);
    if s.len() == 1 {
        assert(t.drop_first() =~= seq![x]);
        assert(seq_max(seq![x]) == x);
        assert(seq_max(s) == s[0]);
    } else {
        assert(t.drop_first() =~= s.drop_first().push(x));
        lemma_seq_max_push(s.drop_first(), x);
        assert(seq_max(s) == if s[0] >= seq_max(s.drop_first()) {
            s[0]
        } else {
            seq_max(s.drop_first())
        });
    }
}

/// A sequence's sum splits at any cut point.
pub proof fn lemma_seq_sum_split(s: Seq<int>, k: int)
    requires
        0 <= k <= s.len(),
    ensures
        seq_sum(s) == seq_sum(s.take(k)) + seq_sum(s.skip(k)),
    decreases k,
{
    if k == 0 {
        assert(s.take(0) =~= Seq::<int>::empty());
        assert(seq_sum(Seq::<int>::empty()) == 0);
        assert(s.skip(0) =~= s);
    } else {
        let hd = s.take(k);
        assert(seq_sum(hd) == hd[0] + seq_sum(hd.drop_first()));
        assert(hd[0] == s[0]);
        assert(hd.drop_first() =~= s.drop_first().take(k - 1));
        assert(s.skip(k) =~= s.drop_first().skip(k - 1));
        lemma_seq_sum_split(s.drop_first(), k - 1);
        assert(seq_sum(s) == s[0] + seq_sum(s.drop_first()));
    }
}

/// A sum of bounded values is bounded by the count times the bound.
pub proof fn lemma_seq_sum_bounded(s: Seq<int>, bound: int)
    requires
        forall|i: int| 0 <= i < s.len() ==> -bound <= #[trigger] s[i] <= bound,
    ensures
        -(s.len() as int) * bound <= seq_sum(s) <= (s.len() as int) * bound,
    decreases s.len(),
{
    if s.len() == 0 {
    } else {
        lemma_seq_sum_bounded(s.drop_first(), bound);
        let n = s.len() as int;
        assert(n * bound == bound + (n - 1) * bound) by (nonlinear_arith);
        assert(-n * bound == -bound + (-(n - 1) * bound)) by (nonlinear_arith);
        assert(seq_sum(s) == s[0] + seq_sum(s.drop_first()));
    }
}

/// Floor division of a bounded numerator by a positive divisor. In the exact
/// model every downward rounding is the mathematical floor, also for
/// negative values.
pub fn div_floor(a: i64, b: i64) -> (r: i64)
    requires
        1 <= b,
        -0x4000_0000_0000_0000 <= a <= 0x4000_0000_0000_0000,
    ensures
        r as int == (a as int) / (b as int),
{
    if a >= 0 {
        let q: u64 = (a as u64) / (b as u64);
        proof {
            lemma_div_nonincreasing(a as int, b as int);
            lemma_div_pos_is_pos(a as int, b as int);
        }
        q as i64
    } else {
        let m: u64 = (-a) as u64;
        let qc: u64 = (m + (b as u64) - 1) / (b as u64);
        proof {
            let q = (a as int) / (b as int);
            let r = (a as int) % (b as int);
            lemma_fundamental_div_mod(a as int, b as int);
            // a == q * b + r with 0 <= r < b, so m + b - 1 == (-q) * b + (b - 1 - r)
            assert((m as int) + b - 1 == (-q) * (b as int) + (b - 1 - r)) by (nonlinear_arith)
                requires
                    (m as int) == -(a as int),
                    (a as int) == q * (b as int) + r,
            ;
            lemma_fundamental_div_mod_converse_div((m as int) + b - 1, b as int, -q, b - 1 - r);
            assert(qc as int == -q);
            // the quotient is between the (negative) numerator and zero
            assert(a <= q <= 0) by (nonlinear_arith)
                requires
                    (a as int) == q * (b as int) + r,
                    a < 0,
                    0 <= r < b,
                    1 <= b,
            ;
        }
        -(qc as i64)
    }
}

/// The sum of `values[start..end]` of values within `bound`, exact in
/// `i64` because the whole buffer's worth of them stays in range.
pub fn sum_range_with(values: &Vec<i64>, start: usize, end: usize, bound: Ghost<int>) -> (s: i64)
    requires
        start <= end <= values@.len(),
        0 <= bound@,
        (values@.len() as int) * bound@ <= 0x4000_0000_0000_0000,
        forall|i: int| 0 <= i < values@.len() ==> -bound@ <= #[trigger] values@[i] <= bound@,
    ensures
        s as int == seq_sum(ints_of(values@).subrange(start as int, end as int)),
        -((end - start) as int) * bound@ <= s as int <= ((end - start) as int) * bound@,
{
    let mut acc: i64 = 0;
    let mut i: usize = start;
    proof {
        assert(ints_of(values@).subrange(start as int, start as int) =~= Seq::<int>::empty());
        assert(seq_sum(Seq::<int>::empty()) == 0);
        assert(((start - start) as int) * bound@ == 0) by (nonlinear_arith);
        assert(-((start - start) as int) * bound@ == 0) by (nonlinear_arith);
    }
    while i < end
        invariant
            start <= i <= end <= values@.len(),
            0 <= bound@,
            (values@.len() as int) * bound@ <= 0x4000_0000_0000_0000,
            forall|j: int| 0 <= j < values@.len() ==> -bound@ <= #[trigger] values@[j] <= bound@,
            acc as int == seq_sum(ints_of(values@).subrange(start as int, i as int)),
            -((i - start) as int) * bound@ <= acc as int <= ((i - start) as int) * bound@,
        decreases end - i,
    {
        proof {
            let s = ints_of(values@);
            assert(s.subrange(start as int, i + 1) =~= s.subrange(start as int, i as int).push(
                s[i as int],
            ));
            lemma_seq_sum_push(s.subrange(start as int, i as int), s[i as int]);
            let k = (i - start) as int;
            let lim = bound@;
            assert((k + 1) * lim == k * lim + lim) by (nonlinear_arith);
            assert(-(k + 1) * lim == -k * lim + (-lim)) by (nonlinear_arith);
            assert(-(k + 1) * lim == -((k + 1) * lim)) by (nonlinear_arith);
            lemma_mul_inequality(k + 1, values@.len() as int, lim);
            assert(s[i as int] == values@[i as int]);
        }
        acc = acc + values[i];
        i = i + 1;
    }
    acc
}

/// The sum of `values[start..end]`, exact in `i64` because the samples and
/// the window are bounded.
pub fn sum_range(values: &Vec<i64>, start: usize, end: usize) -> (s: i64)
    requires
        start <= end <= values@.len(),
        values@.len() <= LEN_LIMIT,
        values_bounded(values@),
    ensures
        s as int == seq_sum(ints_of(values@).subrange(start as int, end as int)),
        -((end - start) as int) * (VALUE_LIMIT as int) <= s as int <= ((end - start) as int) * (
        VALUE_LIMIT as int),
{
    proof {
        lemma_mul_inequality(values@.len() as int, LEN_LIMIT as int, VALUE_LIMIT as int);
    }
    sum_range_with(values, start, end, Ghost(VALUE_LIMIT as int))
}

/// The greatest value in `values[start..end]`.
pub fn max_range(values: &Vec<i64>, start: usize, end: usize) -> (m: i64)
    requires
        start < end <= values@.len(),
    ensures
        m as int == seq_max(ints_of(values@).subrange(start as int, end as int)),
{
    let mut acc: i64 = values[start];
    let mut i: usize = start + 1;
    proof {
        let s = ints_of(values@);
        assert(s.subrange(start as int, start + 1) =~= seq![s[start as int]]);
        assert(seq_max(seq![s[start as int]]) == s[start as int]);
    }
    while i < end
        invariant
            start < i <= end <= values@.len(),
            acc as int == seq_max(ints_of(values@).subrange(start as int, i as int)),
        decreases end - i,
    {
        proof {
            let s = ints_of(values@);
            assert(s.subrange(start as int, i + 1) =~= s.subrange(start as int, i as int).push(
                s[i as int],
            ));
            lemma_seq_max_push(s.subrange(start as int, i as int), s[i as int]);
            assert(s[i as int] == values@[i as int]);
        }
        let v = values[i];
        if v > acc {
            acc = v;
        }
        i = i + 1;
    }
    acc
}

/// Appending a value takes the minimum with it.
pub proof fn lemma_seq_min_push(s: Seq<int>, x: int)
    requires
        s.len() >= 1,
    ensures
        seq_min(s.push(x)) == (if seq_min(s) <= x {
            seq_min(s)
        } else {
            x
        }),
    decreases s.len(),
{
    let t = s.push(x);
    assert(seq_min(t) == if t[0] <= seq_min(t.drop_first()) {
        t[0]
    } else {
        seq_min(t.drop_first())
    });
    assert(t[0] == s[0]);
    if s.len() == 1 {
        assert(t.drop_first() =~= seq![x]);
        assert(seq_min(seq![x]) == x);
        assert(seq_min(s) == s[0]);
    } else {
        assert(t.drop_first() =~= s.drop_first().push(x));
        lemma_seq_min_push(s.drop_first(), x);
        assert(seq_min(s) == if s[0] <= seq_min(s.drop_first()) {
            s[0]
        } else {
            seq_min(s.drop_first())
        });
    }
}

/// The least value in `values[start..end]`.
pub fn min_range(values: &Vec<i64>, start: usize, end: usize) -> (m: i64)
    requires
        start < end <= values@.len(),
    ensures
        m as int == seq_min(ints_of(values@).subrange(start as int, end as int)),
{
    let mut acc: i64 = values[start];
    let mut i: usize = start + 1;
    proof {
        let s = ints_of(values@);
        assert(s.subrange(start as int, start + 1) =~= seq![s[start as int]]);
        assert(seq_min(seq![s[start as int]]) == s[start as int]);
    }
    while i < end
        invariant
            start < i <= end <= values@.len(),
            acc as int == seq_min(ints_of(values@).subrange(start as int, i as int)),
        decreases end - i,
    {
        proof {
            let s = ints_of(values@);
            assert(s.subrange(start as int, i + 1) =~= s.subrange(start as int, i as int).push(
                s[i as int],
            ));
            lemma_seq_min_push(s.subrange(start as int, i as int), s[i as int]);
            assert(s[i as int] == values@[i as int]);
        }
        let v = values[i];
        if v < acc {
            acc = v;
        }
        i = i + 1;
    }
    acc
}

/// Every element lies between the least and the greatest.
pub proof fn lemma_seq_minmax_element(s: Seq<int>, i: int)
    requires
        0 <= i < s.len(),
    ensures
        seq_min(s) <= s[i] <= seq_max(s),
    decreases s.len(),
{
    if s.len() <= 1 {
    } else {
        if i == 0 {
        } else {
            lemma_seq_minmax_element(s.drop_first(), i - 1);
        }
    }
}

/// A factor scaled by a proper fraction `t / d` stays between zero and the
/// factor, whichever way the factor points.
pub proof fn lemma_scaled_div_between(t: int, c: int, d: int)
    requires
        0 <= t <= d,
        1 <= d,
    ensures
        c >= 0 ==> 0 <= (t * c) / d <= c,
        c < 0 ==> c <= (t * c) / d <= 0,
{
    if c >= 0 {
        vstd::arithmetic::mul::lemma_mul_nonnegative(t, c);
        lemma_div_pos_is_pos(t * c, d);
        assert(t * c <= d * c) by (nonlinear_arith)
            requires
                0 <= t <= d,
                c >= 0,
        ;
        lemma_div_is_ordered(t * c, d * c, d);
        assert((d * c) / d == c) by {
            vstd::arithmetic::mul::lemma_mul_is_commutative(d, c);
            lemma_fundamental_div_mod_converse_div(d * c, d, c, 0);
        }
    } else {
        assert(d * c <= t * c && t * c <= 0) by (nonlinear_arith)
            requires
                0 <= t <= d,
                c < 0,
        ;
        lemma_div_is_ordered(d * c, t * c, d);
        assert((d * c) / d == c) by {
            vstd::arithmetic::mul::lemma_mul_is_commutative(d, c);
            lemma_fundamental_div_mod_converse_div(d * c, d, c, 0);
        }
        lemma_div_is_ordered(t * c, 0, d);
        lemma_div_of0(d);
    }
}

/// The least and greatest elements stay inside any range the elements keep.
pub proof fn lemma_seq_minmax_in_range(s: Seq<int>, lo: int, hi: int)
    requires
        s.len() >= 1,
        forall|i: int| 0 <= i < s.len() ==> lo <= #[trigger] s[i] <= hi,
    ensures
        lo <= seq_min(s) <= hi,
        lo <= seq_max(s) <= hi,
    decreases s.len(),
{
    if s.len() <= 1 {
    } else {
        lemma_seq_minmax_in_range(s.drop_first(), lo, hi);
    }
}

/// Group the values into at most `desired_bins` contiguous bins and reduce
/// each with the aggregator. The bin width is the ceiling of
/// `len / desired_bins`; only the final bin may be short.
pub fn aggregate_into_bins(values: &Vec<i64>, desired_bins: usize, agg: BinAggregator) -> (r: Vec<
    i64,
>)
    requires
        desired_bins >= 1,
        values@.len() <= LEN_LIMIT,
        values_bounded(values@),
    ensures
        ints_of(r@) == binned_spec(
            ints_of(values@),
            bin_size_spec(values@.len(), desired_bins as nat),
            agg,
        ),
{
    let len = values.len();
    if len == 0 {
        let r: Vec<i64> = Vec::new();
        proof {
            assert(ints_of(r@) =~= binned_spec(
                ints_of(values@),
                bin_size_spec(values@.len(), desired_bins as nat),
                agg,
            ));
        }
        return r;
    }
    let wide: u128 = ((len as u128) + (desired_bins as u128) - 1) / (desired_bins as u128);
    proof {
        let l = len as int;
        let d = desired_bins as int;
        lemma_div_pos_is_pos(l + d - 1, d);
        assert(l + d - 1 <= l * d) by (nonlinear_arith)
            requires
                l >= 1,
                d >= 1,
        ;
        lemma_div_is_ordered(l + d - 1, l * d, d);
        assert((l * d) / d == l) by {
            lemma_fundamental_div_mod_converse_div(l * d, d, l, 0);
        }
        assert(l + d - 1 >= d);
        lemma_div_is_ordered(d, l + d - 1, d);
        lemma_div_by_self(d);
    }
    let bin_size: usize = wide as usize;
    let ghost size: nat = bin_size as nat;
    let ghost whole: Seq<int> = ints_of(values@);
    let mut out: Vec<i64> = Vec::new();
    let mut i: usize = 0;
    proof {
        assert(ints_of(out@) =~= Seq::<int>::empty());
        assert(whole.skip(0) =~= whole);
        assert(ints_of(out@) + binned_spec(whole, size, agg) =~= binned_spec(whole, size, agg));
    }
    while i < len
        invariant
            0 <= i <= len == values@.len(),
            values@.len() <= LEN_LIMIT,
            values_bounded(values@),
            whole == ints_of(values@),
            1 <= bin_size <= len,
            size == bin_size as nat,
            binned_spec(whole, size, agg) == ints_of(out@) + binned_spec(
                whole.skip(i as int),
                size,
                agg,
            ),
        decreases len - i,
    {
        let end = if len - i < bin_size {
            len
        } else {
            i + bin_size
        };
        let ghost rest = whole.skip(i as int);
        let ghost slice = whole.subrange(i as int, end as int);
        let value: i64 = match agg {
            BinAggregator::Average => {
                let s = sum_range(values, i, end);
                proof {
                    lemma_mul_inequality((end - i) as int, LEN_LIMIT as int, VALUE_LIMIT as int);
                }
                div_floor(s, (end - i) as i64)
            },
            BinAggregator::Sum => sum_range(values, i, end),
            BinAggregator::Max => max_range(values, i, end),
        };
        proof {
            assert(value as int == bin_value_spec(slice, agg));
            assert(ints_of(out@.push(value)) =~= ints_of(out@) + seq![value as int]);
            if end == len {
                // final bin: the rest fits in one slice
                assert(rest =~= slice);
                assert(binned_spec(rest, size, agg) == seq![bin_value_spec(slice, agg)]);
                assert(whole.skip(len as int) =~= Seq::<int>::empty());
                assert((ints_of(out@) + seq![value as int]) + binned_spec(
                    whole.skip(len as int),
                    size,
                    agg,
                ) =~= ints_of(out@) + seq![value as int]);
            } else {
                assert(rest.take(size as int) =~= slice);
                assert(rest.skip(size as int) =~= whole.skip(end as int));
                assert(binned_spec(rest, size, agg) == seq![bin_value_spec(slice, agg)]
                    + binned_spec(whole.skip(end as int), size, agg));
                assert(ints_of(out@) + (seq![bin_value_spec(slice, agg)] + binned_spec(
                    whole.skip(end as int),
                    size,
                    agg,
                )) =~= (ints_of(out@) + seq![bin_value_spec(slice, agg)]) + binned_spec(
                    whole.skip(end as int),
                    size,
                    agg,
                ));
            }
        }
        out.push(value);
        i = end;
    }
    proof {
        assert(whole.skip(len as int) =~= Seq::<int>::empty());
        assert(ints_of(out@) + Seq::<int>::empty() =~= ints_of(out@));
    }
    out
}

/// A sum of values from a range stays within the count-scaled range.
pub proof fn lemma_seq_sum_within(s: Seq<int>, lo: int, hi: int)
    requires
        forall|i: int| 0 <= i < s.len() ==> lo <= #[trigger] s[i] <= hi,
    ensures
        (s.len() as int) * lo <= seq_sum(s) <= (s.len() as int) * hi,
    decreases s.len(),
{
    if s.len() == 0 {
    } else {
        lemma_seq_sum_within(s.drop_first(), lo, hi);
        let n = s.len() as int;
        assert(n * lo == lo + (n - 1) * lo) by (nonlinear_arith);
        assert(n * hi == hi + (n - 1) * hi) by (nonlinear_arith);
        assert(seq_sum(s) == s[0] + seq_sum(s.drop_first()));
    }
}

/// The average of a non-empty sequence lies between its least and greatest
/// elements.
pub proof fn lemma_average_between(s: Seq<int>)
    requires
        s.len() >= 1,
    ensures
        seq_min(s) <= seq_sum(s) / (s.len() as int) <= seq_max(s),
{
    let n = s.len() as int;
    let lo = seq_min(s);
    let hi = seq_max(s);
    assert forall|i: int| 0 <= i < s.len() implies lo <= #[trigger] s[i] <= hi by {
        lemma_seq_minmax_element(s, i);
    }
    lemma_seq_sum_within(s, lo, hi);
    lemma_div_is_ordered(n * lo, seq_sum(s), n);
    assert((n * lo) / n == lo) by {
        vstd::arithmetic::mul::lemma_mul_is_commutative(n, lo);
        lemma_fundamental_div_mod_converse_div(n * lo, n, lo, 0);
    }
    lemma_div_is_ordered(seq_sum(s), n * hi, n);
    assert((n * hi) / n == hi) by {
        vstd::arithmetic::mul::lemma_mul_is_commutative(n, hi);
        lemma_fundamental_div_mod_converse_div(n * hi, n, hi, 0);
    }
}

/// A quotient by a positive divisor lies between zero and the numerator.
pub proof fn lemma_div_between_zero_and_numerator(s: int, l: int)
    requires
        1 <= l,
    ensures
        s >= 0 ==> 0 <= s / l <= s,
        s < 0 ==> s <= s / l <= 0,
{
    if s >= 0 {
        lemma_div_pos_is_pos(s, l);
        lemma_div_nonincreasing(s, l);
    } else {
        let q = s / l;
        let r = s % l;
        lemma_fundamental_div_mod(s, l);
        assert(s == q * l + r) by {
            vstd::arithmetic::mul::lemma_mul_is_commutative(l, q);
        }
        assert(s <= q <= 0) by (nonlinear_arith)
            requires
                s == q * l + r,
                0 <= r < l,
                1 <= l,
                s < 0,
        ;
    }
}

/// Every bin value stays within the window envelope: the number of raw
/// values times their bound.
pub proof fn lemma_binned_bounded(values: Seq<int>, size: nat, agg: BinAggregator, bound: int)
    requires
        size >= 1,
        bound >= 0,
        forall|i: int| 0 <= i < values.len() ==> -bound <= #[trigger] values[i] <= bound,
    ensures
        forall|j: int|
            0 <= j < binned_spec(values, size, agg).len() ==> -(values.len() as int) * bound <= #[trigger] binned_spec(
                values,
                size,
                agg,
            )[j] <= (values.len() as int) * bound,
    decreases values.len(),
{
    let n = values.len() as int;
    if values.len() == 0 {
    } else if values.len() <= size {
        let x = bin_value_spec(values, agg);
        lemma_seq_sum_bounded(values, bound);
        lemma_seq_minmax_in_range(values, -bound, bound);
        lemma_div_between_zero_and_numerator(seq_sum(values), n);
        lemma_mul_inequality(1, n, bound);
        assert(-n * bound == -(n * bound)) by (nonlinear_arith);
        assert(binned_spec(values, size, agg) == seq![x]);
        assert(-n * bound <= x <= n * bound);
    } else {
        let head = values.take(size as int);
        let tail = values.skip(size as int);
        let x = bin_value_spec(head, agg);
        assert(forall|i: int| 0 <= i < head.len() ==> -bound <= #[trigger] head[i] <= bound);
        lemma_seq_sum_bounded(head, bound);
        lemma_seq_minmax_in_range(head, -bound, bound);
        lemma_div_between_zero_and_numerator(seq_sum(head), size as int);
        lemma_mul_inequality(1, size as int, bound);
        lemma_mul_inequality(size as int, n, bound);
        assert(-n * bound == -(n * bound)) by (nonlinear_arith);
        assert(-(size as int) * bound == -((size as int) * bound)) by (nonlinear_arith);
        assert(-(head.len() as int) * bound == -((head.len() as int) * bound))
            by (nonlinear_arith);
        assert(-n * bound <= x <= n * bound);
        assert(forall|i: int| 0 <= i < tail.len() ==> -bound <= #[trigger] tail[i] <= bound);
        lemma_binned_bounded(tail, size, agg, bound);
        lemma_mul_inequality(tail.len() as int, n, bound);
        assert(-(tail.len() as int) * bound == -((tail.len() as int) * bound))
            by (nonlinear_arith);
        let b = binned_spec(values, size, agg);
        assert forall|j: int| 0 <= j < b.len() implies -n * bound <= #[trigger] b[j] <= n
            * bound by {
            if j == 0 {
                assert(b[0] == x);
            } else {
                assert(b[j] == binned_spec(tail, size, agg)[j - 1]);
            }
        }
    }
}

/// Binning conservation: with the Sum aggregator the bins together hold
/// exactly the sum of the raw values, whatever the bin width.
pub proof fn lemma_sum_binning_conserves(values: Seq<int>, size: nat)
    requires
        size >= 1,
    ensures
        seq_sum(binned_spec(values, size, BinAggregator::Sum)) == seq_sum(values),
    decreases values.len(),
{
    if values.len() == 0 {
    } else if values.len() <= size {
        let b = binned_spec(values, size, BinAggregator::Sum);
        assert(seq_sum(b) == b[0] + seq_sum(b.drop_first()));
        assert(b.drop_first() =~= Seq::<int>::empty());
        assert(seq_sum(Seq::<int>::empty()) == 0);
        assert(b[0] == seq_sum(values));
    } else {
        let tail = binned_spec(values.skip(size as int), size, BinAggregator::Sum);
        let b = binned_spec(values, size, BinAggregator::Sum);
        assert(seq_sum(b) == b[0] + seq_sum(b.drop_first()));
        assert(b.drop_first() =~= tail);
        assert(b[0] == seq_sum(values.take(size as int)));
        lemma_sum_binning_conserves(values.skip(size as int), size);
        lemma_seq_sum_split(values, size as int);
    }
}

/// The number of bins is the ceiling of the value count over the bin width.
pub proof fn lemma_binned_len(values: Seq<int>, size: nat, agg: BinAggregator)
    requires
        size >= 1,
    ensures
        binned_spec(values, size, agg).len() == (((values.len() + size - 1) as int) / (
        size as int)),
    decreases values.len(),
{
    if values.len() == 0 {
        assert((((size - 1) as int) / (size as int)) == 0) by {
            lemma_fundamental_div_mod_converse_div((size - 1) as int, size as int, 0, (size
                - 1) as int);
        }
    } else if values.len() <= size {
        assert((((values.len() + size - 1) as int) / (size as int)) == 1) by {
            assert((values.len() + size - 1) as int == 1 * (size as int) + (values.len()
                - 1) as int) by (nonlinear_arith);
            lemma_fundamental_div_mod_converse_div(
                (values.len() + size - 1) as int,
                size as int,
                1,
                (values.len() - 1) as int,
            );
        }
    } else {
        lemma_binned_len(values.skip(size as int), size, agg);
        let rest = (values.len() - size) as nat;
        assert((((rest + size - 1) as int) / (size as int)) + 1 == (((values.len() + size
            - 1) as int) / (size as int))) by {
            let q = ((rest + size - 1) as int) / (size as int);
            let r = ((rest + size - 1) as int) % (size as int);
            lemma_fundamental_div_mod((rest + size - 1) as int, size as int);
            assert((values.len() + size - 1) as int == (q + 1) * (size as int) + r)
                by (nonlinear_arith)
                requires
                    (rest + size - 1) as int == q * (size as int) + r,
                    rest == values.len() - size,
            ;
            lemma_fundamental_div_mod_converse_div(
                (values.len() + size - 1) as int,
                size as int,
                q + 1,
                r,
            );
        }
    }
}

/// Binning count bound: with the bin width this crate derives from a target
/// bin count, the number of bins never exceeds the target, nor the number of
/// visible values.
pub proof fn lemma_bin_count_bound(values: Seq<int>, bins: nat, agg: BinAggregator)
    requires
        bins >= 1,
        values.len() >= 1,
    ensures
        binned_spec(values, bin_size_spec(values.len(), bins), agg).len() <= bins,
        binned_spec(values, bin_size_spec(values.len(), bins), agg).len() <= values.len(),
{
    let len = values.len() as int;
    let b = bins as int;
    // the width is at least one
    assert(len + b - 1 >= b);
    lemma_div_is_ordered(b, len + b - 1, b);
    lemma_div_by_self(b);
    let size = bin_size_spec(values.len(), bins) as int;
    assert(size >= 1);
    lemma_binned_len(values, bin_size_spec(values.len(), bins), agg);
    let count = (len + size - 1) / size;
    // size * bins >= len, because size is the rounded-up quotient
    lemma_fundamental_div_mod(len + b - 1, b);
    let r0 = (len + b - 1) % b;
    assert(size * b >= len) by (nonlinear_arith)
        requires
            len + b - 1 == size * b + r0,
            0 <= r0 < b,
    ;
    // hence the bin count, a rounded-up quotient itself, is at most `bins`
    assert(len + size - 1 <= size * b + size - 1) by (nonlinear_arith)
        requires
            size * b >= len,
    ;
    lemma_div_is_ordered(len + size - 1, size * b + size - 1, size);
    assert(((size * b + size - 1) / size) == b) by {
        vstd::arithmetic::mul::lemma_mul_is_commutative(size, b);
        lemma_fundamental_div_mod_converse_div(size * b + size - 1, size, b, size - 1);
    }
    // and at most the number of values, because the width is at least one
    assert(len + size - 1 <= len * size) by (nonlinear_arith)
        requires
            len >= 1,
            size >= 1,
    ;
    lemma_div_is_ordered(len + size - 1, len * size, size);
    assert((len * size) / size == len) by {
        lemma_fundamental_div_mod_converse_div(len * size, size, len, 0);
    }
}

} // verus!
