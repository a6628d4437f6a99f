//! Per-frame statistics: a single-pass, partitionable reduction of a luma
//! plane to its minimum, maximum and sum, and the `FrameInfo` record built
//! from it.

use vstd::prelude::*;
use vstd::arithmetic::div_mod::{lemma_div_is_ordered, lemma_div_multiples_vanish};
use vstd::math::{min, max};

verus! {

/// Sum of a sequence of samples.
pub open spec fn sum_of(s: Seq<u16>) -> int
    decreases s.len(),
{
    if s.len() == 0 {
        0
    } else {
        sum_of(s.drop_last()) + s.last()
    }
}

/// Minimum of a sequence of samples; on the empty sequence it is
/// `u16::MAX`, the identity of the running minimum.
pub open spec fn min_of(s: Seq<u16>) -> int
    decreases s.len(),
{
    if s.len() == 0 {
        u16::MAX as int
    } else {
        min(min_of(s.drop_last()), s.last() as int)
    }
}

/// Maximum of a sequence of samples; on the empty sequence it is `0`, the
/// identity of the running maximum.
pub open spec fn max_of(s: Seq<u16>) -> int
    decreases s.len(),
{
    if s.len() == 0 {
        0
    } else {
        max(max_of(s.drop_last()), s.last() as int)
    }
}

/// Range of the three statistics: the minimum and maximum are sample
/// values, and the sum lies between `len * min` and `len * max`.
pub proof fn lemma_stats_bounds(s: Seq<u16>)
    ensures
        0 <= min_of(s) <= u16::MAX,
        0 <= max_of(s) <= u16::MAX,
        s.len() * min_of(s) <= sum_of(s) <= s.len() * max_of(s),
    decreases s.len(),
{
    if s.len() > 0 {
        let t = s.drop_last();
        let last = s.last() as int;
        lemma_stats_bounds(t);
        let n: int = t.len() as int;
        let mn = min_of(s);
        let mx = max_of(s);
        assert(n * mn <= n * min_of(t)) by (nonlinear_arith)
            requires
                0 <= n,
                mn <= min_of(t),
        ;
        assert((n + 1) * mn == n * mn + mn) by (nonlinear_arith);
        assert(n * max_of(t) <= n * mx) by (nonlinear_arith)
            requires
                0 <= n,
                max_of(t) <= mx,
        ;
        assert((n + 1) * mx == n * mx + mx) by (nonlinear_arith);
    }
}

/// A sequence no longer than `FRAME_LEN_LIMIT` has a sum that fits in a
/// 64-bit accumulator, whatever its sample words hold.
pub proof fn lemma_sum_fits(s: Seq<u16>)
    requires
        s.len() <= crate::FRAME_LEN_LIMIT,
    ensures
        0 <= sum_of(s) <= u64::MAX,
{
    lemma_stats_bounds(s);
    assert(s.len() * max_of(s) <= s.len() * (u16::MAX as int)) by (nonlinear_arith)
        requires
            0 <= s.len(),
            max_of(s) <= u16::MAX,
    ;
    assert(s.len() * (u16::MAX as int) <= crate::FRAME_LEN_LIMIT * (u16::MAX as int))
        by (nonlinear_arith)
        requires
            s.len() <= crate::FRAME_LEN_LIMIT,
    ;
}

/// The truncated average of a non-empty sequence lies between its minimum
/// and its maximum.
pub proof fn lemma_avg_bounds(s: Seq<u16>)
    requires
        s.len() > 0,
    ensures
        min_of(s) <= sum_of(s) / s.len() as int <= max_of(s),
{
    lemma_stats_bounds(s);
    let n = s.len() as int;
    lemma_div_is_ordered(n * min_of(s), sum_of(s), n);
    lemma_div_multiples_vanish(min_of(s), n);
    lemma_div_is_ordered(sum_of(s), n * max_of(s), n);
    lemma_div_multiples_vanish(max_of(s), n);
}

/// The reduction is associative over concatenation: the statistics of two
/// adjacent partitions, combined pointwise (minimum of minima, maximum of
/// maxima, sum of sums), equal the statistics of the whole. This is what
/// makes it safe to split a plane into independently reduced partitions.
pub proof fn lemma_stats_concat(a: Seq<u16>, b: Seq<u16>)
    ensures
        sum_of(a + b) == sum_of(a) + sum_of(b),
        min_of(a + b) == min(min_of(a), min_of(b)),
        max_of(a + b) == max(max_of(a), max_of(b)),
    decreases b.len(),
{
    lemma_stats_bounds(a);
    if b.len() == 0 {
        assert(a + b =~= a);
    } else {
        lemma_stats_concat(a, b.drop_last());
        assert((a + b).drop_last() =~= a + b.drop_last());
        assert((a + b).last() == b.last());
    }
}

/// Local result of reducing one partition of a plane: running minimum,
/// maximum and sum of the samples seen.
#[derive(Clone, Copy, Debug, PartialEq, Eq, Structural)]
pub struct SampleStats {
    pub min: u16,
    pub max: u16,
    pub sum: u64,
}

/// Reduces the samples in `frame[start..end]` to their statistics in one
/// sequential pass.
pub fn reduce_range(frame: &[u16], start: usize, end: usize) -> (stats: SampleStats)
    requires
        start <= end <= frame@.len(),
        sum_of(frame@.subrange(start as int, end as int)) <= u64::MAX,
    ensures
        stats.min == min_of(frame@.subrange(start as int, end as int)),
        stats.max == max_of(frame@.subrange(start as int, end as int)),
        stats.sum == sum_of(frame@.subrange(start as int, end as int)),
{
    let mut mn: u16 = u16::MAX;
    let mut mx: u16 = 0;
    let mut sum: u64 = 0;
    let mut i: usize = start;
    while i < end
        invariant
            start <= i <= end <= frame@.len(),
            sum_of(frame@.subrange(start as int, end as int)) <= u64::MAX,
            mn == min_of(frame@.subrange(start as int, i as int)),
            mx == max_of(frame@.subrange(start as int, i as int)),
            sum == sum_of(frame@.subrange(start as int, i as int)),
        decreases end - i,
    {
        proof {
            let done = frame@.subrange(start as int, i as int);
            let step = frame@.subrange(start as int, i + 1);
            let rest = frame@.subrange(i + 1, end as int);
            assert(step.drop_last() =~= done);
            assert(step + rest =~= frame@.subrange(start as int, end as int));
            lemma_stats_concat(step, rest);
            lemma_stats_bounds(rest);
        }
        let sample = frame[i];
        if sample < mn {
            mn = sample;
        }
        if sample > mx {
            mx = sample;
        }
        sum = sum + sample as u64;
        i = i + 1;
    }
    SampleStats { min: mn, max: mx, sum }
}

/// Combines the statistics of two adjacent partitions: minimum of minima,
/// maximum of maxima, sum of sums. Associative and commutative, which is
/// what permits reducing partitions independently and joining the results
/// in any grouping (`lemma_stats_concat`).
pub fn combine(a: SampleStats, b: SampleStats) -> (c: SampleStats)
    requires
        a.sum + b.sum <= u64::MAX,
    ensures
        c.min == min(a.min as int, b.min as int),
        c.max == max(a.max as int, b.max as int),
        c.sum == a.sum + b.sum,
{
    SampleStats {
        min: if a.min < b.min { a.min } else { b.min },
        max: if a.max > b.max { a.max } else { b.max },
        sum: a.sum + b.sum,
    }
}

/// Reduces a whole plane by splitting it into contiguous partitions of
/// `partition_len` samples (the last one possibly shorter), reducing each
/// on its own, and combining the local results in order. Yields exactly
/// the statistics of a single sequential pass, whatever the partition
/// size.
pub fn reduce_partitioned(frame: &[u16], partition_len: usize) -> (stats: SampleStats)
    requires
        partition_len >= 1,
        sum_of(frame@) <= u64::MAX,
    ensures
        stats.min == min_of(frame@),
        stats.max == max_of(frame@),
        stats.sum == sum_of(frame@),
{
    let len = frame.len();
    let mut acc = SampleStats { min: u16::MAX, max: 0, sum: 0 };
    let mut i: usize = 0;
    while i < len
        invariant
            0 <= i <= len == frame@.len(),
            partition_len >= 1,
            sum_of(frame@) <= u64::MAX,
            acc.min == min_of(frame@.subrange(0, i as int)),
            acc.max == max_of(frame@.subrange(0, i as int)),
            acc.sum == sum_of(frame@.subrange(0, i as int)),
        decreases len - i,
    {
        let j = if len - i < partition_len { len } else { i + partition_len };
        proof {
            let done = frame@.subrange(0, i as int);
            let part = frame@.subrange(i as int, j as int);
            let rest = frame@.subrange(j as int, len as int);
            assert(done + part =~= frame@.subrange(0, j as int));
            assert(frame@.subrange(0, j as int) + rest =~= frame@);
            lemma_stats_concat(done, part);
            lemma_stats_concat(frame@.subrange(0, j as int), rest);
            lemma_stats_bounds(done);
            lemma_stats_bounds(part);
            lemma_stats_bounds(rest);
        }
        let local = reduce_range(frame, i, j);
        acc = combine(acc, local);
        i = j;
    }
    proof {
        assert(frame@.subrange(0, len as int) =~= frame@);
    }
    acc
}

/// Statistics of one decoded frame, in 10-bit PQ code values: the largest,
/// smallest and average luma sample of the frame's plane. Built exactly
/// once per frame by [`FrameInfo::parse_frame`] and never mutated.
#[derive(Clone, Copy, Debug, PartialEq, Eq, Structural)]
pub struct FrameInfo {
    pub max: u16,
    pub min: u16,
    pub avg: u16,
}

/// The record `parse_frame` builds from a non-empty plane: true minimum,
/// true maximum, and the sum divided by the length, truncated to a whole
/// code value.
pub open spec fn frame_info_of(s: Seq<u16>) -> FrameInfo {
    FrameInfo {
        max: max_of(s) as u16,
        min: min_of(s) as u16,
        avg: (sum_of(s) / s.len() as int) as u16,
    }
}

impl FrameInfo {
    /// Reduces one frame's luma samples to their minimum, maximum and
    /// truncated average in a single pass.
    ///
    /// The frame must be non-empty: an empty plane is a caller bug, not a
    /// runtime condition, and is ruled out up front rather than mapped to
    /// a sentinel record that would corrupt the clip metrics.
    pub fn parse_frame(frame: &[u16]) -> (info: FrameInfo)
        requires
            frame@.len() > 0,
            frame@.len() <= crate::FRAME_LEN_LIMIT,
        ensures
            info == frame_info_of(frame@),
            info.min == min_of(frame@),
            info.max == max_of(frame@),
            info.avg == sum_of(frame@) / frame@.len() as int,
            info.min <= info.avg <= info.max,
    {
        proof {
            lemma_sum_fits(frame@);
            lemma_stats_bounds(frame@);
            lemma_avg_bounds(frame@);
            assert(frame@.subrange(0, frame@.len() as int) =~= frame@);
        }
        let len = frame.len();
        let stats = reduce_range(frame, 0, len);
        let avg_wide = stats.sum / (len as u64);
        FrameInfo { max: stats.max, min: stats.min, avg: avg_wide as u16 }
    }
}

} // verus!
