//! The analysis pipeline: an explicit state machine that owns the ordered
//! results sequence and the frame counter, and decides when a progress
//! report is due.
//!
//! The pipeline holds no clock and performs no I/O: the caller drives it
//! with decoded frames, performs the reports it asks for, and signals
//! end-of-stream by moving it to the flushing state.

use vstd::prelude::*;
use crate::clip::{ClipSummary, summarize, maxes_of, avgs_of, mins_of};
use crate::frame::{FrameInfo, frame_info_of, sum_of, max_of};

verus! {

/// Default cadence of progress reports, in frames.
pub const DEFAULT_REPORT_INTERVAL: u64 = 100;

/// The four phases of one analysis run, in order. No phase may be
/// skipped, and streaming gives way to flushing exactly once, on the
/// decoder's end-of-stream signal, never on sample content.
#[derive(Clone, Copy, Debug, PartialEq, Eq, Structural)]
pub enum PipelineState {
    Initialized,
    Streaming,
    Flushing,
    Completed,
}

/// What the caller should report after a delivered frame. Advisory only:
/// the choice never alters the results sequence.
#[derive(Clone, Copy, Debug, PartialEq, Eq, Structural)]
pub enum Progress {
    /// No report is due.
    Quiet,
    /// A report is due and the total frame count is unknown: the caller
    /// should report the throughput of the last `frames` frames against
    /// its own clock.
    Rate { frames: u64 },
    /// A report is due and the total frame count is known: the caller
    /// should report this percentage of completion.
    Percent { percent: u64 },
}

/// Completion percentage of `count` frames out of `total`, truncated;
/// saturated at 100 if the total-frame-count hint undershoots.
pub open spec fn percent_spec(count: u64, total: u64) -> int {
    if count >= total {
        100
    } else {
        (count * 100) / (total as int)
    }
}

/// Computes `percent_spec`. The count stays within `FRAME_LEN_LIMIT`, so
/// the scaled numerator fits comfortably in 64 bits.
pub fn percent_complete(count: u64, total: u64) -> (p: u64)
    requires
        count <= crate::FRAME_LEN_LIMIT,
    ensures
        p == percent_spec(count, total),
{
    if count >= total {
        100
    } else {
        count * 100 / total
    }
}

/// One analysis run. Owns the ordered results sequence for its whole
/// lifetime; the sequence grows append-only while frames stream in and is
/// read-only once the run completes.
pub struct Pipeline {
    pub state: PipelineState,
    pub results: Vec<FrameInfo>,
    pub frame_count: u64,
    pub report_interval: u64,
    pub total_frames_hint: Option<u64>,
}

impl Pipeline {
    /// Internal consistency: one result per counted frame, a positive
    /// report cadence, and a frame count the aggregator can still accept.
    pub open spec fn wf(self) -> bool {
        &&& self.report_interval >= 1
        &&& self.results@.len() == self.frame_count
        &&& self.frame_count <= crate::FRAME_LEN_LIMIT
    }

    /// The report due once `self.frame_count` frames have been counted:
    /// one report every `report_interval` frames, as a percentage when the
    /// decoder supplied a total-frame-count hint and as a throughput
    /// request otherwise.
    pub open spec fn progress_due(self) -> Progress {
        if self.frame_count % self.report_interval == 0 {
            match self.total_frames_hint {
                Some(total) => Progress::Percent {
                    percent: percent_spec(self.frame_count, total) as u64,
                },
                None => Progress::Rate { frames: self.report_interval },
            }
        } else {
            Progress::Quiet
        }
    }

    /// Constructs an idle pipeline with an empty results sequence.
    pub fn new(report_interval: u64, total_frames_hint: Option<u64>) -> (p: Pipeline)
        requires
            report_interval >= 1,
        ensures
            p.wf(),
            p.state == PipelineState::Initialized,
            p.results@.len() == 0,
            p.frame_count == 0,
            p.report_interval == report_interval,
            p.total_frames_hint == total_frames_hint,
    {
        Pipeline {
            state: PipelineState::Initialized,
            results: Vec::new(),
            frame_count: 0,
            report_interval,
            total_frames_hint,
        }
    }

    /// Enters the streaming phase. Valid only once, from the initial
    /// state.
    pub fn begin_streaming(&mut self)
        requires
            old(self).wf(),
            old(self).state == PipelineState::Initialized,
        ensures
            final(self).wf(),
            final(self).state == PipelineState::Streaming,
            final(self).results@ == old(self).results@,
            final(self).frame_count == old(self).frame_count,
            final(self).report_interval == old(self).report_interval,
            final(self).total_frames_hint == old(self).total_frames_hint,
    {
        self.state = PipelineState::Streaming;
    }

    /// Reduces one decoded frame, appends its record at the end of the
    /// results sequence, counts it, and says what progress report is due.
    pub fn process_frame(&mut self, frame: &[u16]) -> (progress: Progress)
        requires
            old(self).wf(),
            old(self).state == PipelineState::Streaming,
            old(self).frame_count < crate::FRAME_LEN_LIMIT,
            frame@.len() > 0,
            frame@.len() <= crate::FRAME_LEN_LIMIT,
        ensures
            final(self).wf(),
            final(self).state == PipelineState::Streaming,
            final(self).results@ == old(self).results@.push(frame_info_of(frame@)),
            final(self).frame_count == old(self).frame_count + 1,
            final(self).report_interval == old(self).report_interval,
            final(self).total_frames_hint == old(self).total_frames_hint,
            progress == final(self).progress_due(),
    {
        self.deliver(frame)
    }

    /// Reduces and appends one frame drained from the decoder after
    /// end-of-stream, exactly as a streamed frame is.
    pub fn flush_frame(&mut self, frame: &[u16]) -> (progress: Progress)
        requires
            old(self).wf(),
            old(self).state == PipelineState::Flushing,
            old(self).frame_count < crate::FRAME_LEN_LIMIT,
            frame@.len() > 0,
            frame@.len() <= crate::FRAME_LEN_LIMIT,
        ensures
            final(self).wf(),
            final(self).state == PipelineState::Flushing,
            final(self).results@ == old(self).results@.push(frame_info_of(frame@)),
            final(self).frame_count == old(self).frame_count + 1,
            final(self).report_interval == old(self).report_interval,
            final(self).total_frames_hint == old(self).total_frames_hint,
            progress == final(self).progress_due(),
    {
        self.deliver(frame)
    }

    /// Shared per-frame step of the streaming and flushing phases.
    fn deliver(&mut self, frame: &[u16]) -> (progress: Progress)
        requires
            old(self).wf(),
            old(self).state == PipelineState::Streaming
                || old(self).state == PipelineState::Flushing,
            old(self).frame_count < crate::FRAME_LEN_LIMIT,
            frame@.len() > 0,
            frame@.len() <= crate::FRAME_LEN_LIMIT,
        ensures
            final(self).wf(),
            final(self).state == old(self).state,
            final(self).results@ == old(self).results@.push(frame_info_of(frame@)),
            final(self).frame_count == old(self).frame_count + 1,
            final(self).report_interval == old(self).report_interval,
            final(self).total_frames_hint == old(self).total_frames_hint,
            progress == final(self).progress_due(),
    {
        let info = FrameInfo::parse_frame(frame);
        self.results.push(info);
        self.frame_count = self.frame_count + 1;
        if self.frame_count % self.report_interval == 0 {
            match self.total_frames_hint {
                Some(total) => Progress::Percent {
                    percent: percent_complete(self.frame_count, total),
                },
                None => Progress::Rate { frames: self.report_interval },
            }
        } else {
            Progress::Quiet
        }
    }

    /// Leaves the streaming phase on the decoder's end-of-stream signal.
    pub fn begin_flushing(&mut self)
        requires
            old(self).wf(),
            old(self).state == PipelineState::Streaming,
        ensures
            final(self).wf(),
            final(self).state == PipelineState::Flushing,
            final(self).results@ == old(self).results@,
            final(self).frame_count == old(self).frame_count,
            final(self).report_interval == old(self).report_interval,
            final(self).total_frames_hint == old(self).total_frames_hint,
    {
        self.state = PipelineState::Flushing;
    }

    /// Freezes the results sequence and derives the clip summary from it.
    /// Valid only from the flushing phase, and only for a run that
    /// delivered at least one frame: an empty run has no light-level
    /// metrics.
    pub fn complete(&mut self) -> (summary: ClipSummary)
        requires
            old(self).wf(),
            old(self).state == PipelineState::Flushing,
            old(self).results@.len() > 0,
        ensures
            final(self).wf(),
            final(self).state == PipelineState::Completed,
            final(self).results@ == old(self).results@,
            final(self).frame_count == old(self).frame_count,
            final(self).report_interval == old(self).report_interval,
            final(self).total_frames_hint == old(self).total_frames_hint,
            summary.maxcll == max_of(maxes_of(old(self).results@)),
            summary.maxcll_avg == sum_of(maxes_of(old(self).results@))
                / old(self).results@.len() as int,
            summary.maxfall == max_of(avgs_of(old(self).results@)),
            summary.maxfall_avg == sum_of(avgs_of(old(self).results@))
                / old(self).results@.len() as int,
            summary.max_of_min == max_of(mins_of(old(self).results@)),
    {
        let summary = summarize(self.results.as_slice());
        self.state = PipelineState::Completed;
        summary
    }

    /// Read access to the ordered results sequence.
    pub fn results(&self) -> (rs: &Vec<FrameInfo>)
        ensures
            rs@ == self.results@,
    {
        &self.results
    }
}

} // verus!
