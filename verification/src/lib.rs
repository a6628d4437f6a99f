//! Frame-luminance analysis for HDR video luma planes.
//!
//! The library works in the integer domain of 10-bit PQ code values
//! (0..=1023): it extracts luma samples from a decoded plane, reduces each
//! frame to minimum / maximum / average statistics, and aggregates per-frame
//! records into clip-level light-level metrics (MaxCLL, MaxFALL). Conversion
//! of code values to absolute luminance runs through floating-point transfer
//! functions, which Verus refuses, so it is left to the caller.

pub mod clip;
pub mod frame;
pub mod pipeline;
pub mod samples;

use vstd::prelude::*;

verus! {

/// Largest 10-bit PQ code value a luma sample may carry.
pub const CODE_MAX: u16 = 1023;

/// Largest number of samples a single reduction accepts; keeps the 64-bit
/// running sum free of overflow even if every sample word were `u16::MAX`.
pub const FRAME_LEN_LIMIT: u64 = 0x0001_0000_0000_0000;

} // verus!
