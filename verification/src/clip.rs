//! Clip-level light-level metrics, derived on demand from the full ordered
//! sequence of per-frame records.

use vstd::prelude::*;
use crate::frame::{FrameInfo, reduce_range, sum_of, max_of, lemma_sum_fits, lemma_avg_bounds};

verus! {

/// The per-frame maxima of a results sequence, in order.
pub open spec fn maxes_of(rs: Seq<FrameInfo>) -> Seq<u16> {
    rs.map_values(|f: FrameInfo| f.max)
}

/// The per-frame averages of a results sequence, in order.
pub open spec fn avgs_of(rs: Seq<FrameInfo>) -> Seq<u16> {
    rs.map_values(|f: FrameInfo| f.avg)
}

/// The per-frame minima of a results sequence, in order.
pub open spec fn mins_of(rs: Seq<FrameInfo>) -> Seq<u16> {
    rs.map_values(|f: FrameInfo| f.min)
}

/// Clip-level summary, in 10-bit PQ code values: MaxCLL is the largest
/// per-frame maximum, MaxFALL the largest per-frame average, and the
/// `_avg` fields are the truncated means of the corresponding per-frame
/// field across the whole clip.
#[derive(Clone, Copy, Debug, PartialEq, Eq, Structural)]
pub struct ClipSummary {
    pub maxcll: u16,
    pub maxcll_avg: u16,
    pub maxfall: u16,
    pub maxfall_avg: u16,
    pub max_of_min: u16,
}

/// Aggregates a fully populated, non-empty results sequence into the clip
/// summary. Pure: the input is only read.
///
/// An empty sequence is a caller bug and is ruled out up front; mapping it
/// to a sentinel summary would corrupt the MaxCLL/MaxFALL semantics.
pub fn summarize(results: &[FrameInfo]) -> (summary: ClipSummary)
    requires
        results@.len() > 0,
        results@.len() <= crate::FRAME_LEN_LIMIT,
    ensures
        summary.maxcll == max_of(maxes_of(results@)),
        summary.maxcll_avg == sum_of(maxes_of(results@)) / results@.len() as int,
        summary.maxfall == max_of(avgs_of(results@)),
        summary.maxfall_avg == sum_of(avgs_of(results@)) / results@.len() as int,
        summary.max_of_min == max_of(mins_of(results@)),
{
    let len = results.len();
    let mut maxs: Vec<u16> = Vec::new();
    let mut avgs: Vec<u16> = Vec::new();
    let mut mins: Vec<u16> = Vec::new();
    let mut i: usize = 0;
    while i < len
        invariant
            0 <= i <= len == results@.len(),
            maxs@.len() == i,
            avgs@.len() == i,
            mins@.len() == i,
            forall|j: int| 0 <= j < i ==> maxs@[j] == results@[j].max,
            forall|j: int| 0 <= j < i ==> avgs@[j] == results@[j].avg,
            forall|j: int| 0 <= j < i ==> mins@[j] == results@[j].min,
        decreases len - i,
    {
        let f = results[i];
        maxs.push(f.max);
        avgs.push(f.avg);
        mins.push(f.min);
        i = i + 1;
    }
    proof {
        assert(maxs@ =~= maxes_of(results@));
        assert(avgs@ =~= avgs_of(results@));
        assert(mins@ =~= mins_of(results@));
        lemma_sum_fits(maxs@);
        lemma_sum_fits(avgs@);
        lemma_sum_fits(mins@);
        lemma_avg_bounds(maxs@);
        lemma_avg_bounds(avgs@);
        assert(maxs@.subrange(0, maxs@.len() as int) =~= maxs@);
        assert(avgs@.subrange(0, avgs@.len() as int) =~= avgs@);
        assert(mins@.subrange(0, mins@.len() as int) =~= mins@);
    }
    let max_stats = reduce_range(maxs.as_slice(), 0, len);
    let avg_stats = reduce_range(avgs.as_slice(), 0, len);
    let min_stats = reduce_range(mins.as_slice(), 0, len);
    ClipSummary {
        maxcll: max_stats.max,
        maxcll_avg: (max_stats.sum / (len as u64)) as u16,
        maxfall: avg_stats.max,
        maxfall_avg: (avg_stats.sum / (len as u64)) as u16,
        max_of_min: min_stats.max,
    }
}

} // verus!
