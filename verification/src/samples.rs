//! Extraction of 10-bit luma code values from a decoded plane.
//!
//! A 10-bit luma plane stores each sample as a little-endian 16-bit word
//! whose low 10 bits carry the PQ code value.

use vstd::prelude::*;

verus! {

/// The 16-bit word formed by a little-endian byte pair.
pub open spec fn word_of_pair(lo: u8, hi: u8) -> u16 {
    (lo + hi * 256) as u16
}

/// Reads the little-endian 16-bit luma samples out of a raw plane buffer.
///
/// The buffer must hold whole sample words, so its length is even.
pub fn luma_codes_from_bytes(bytes: &[u8]) -> (codes: Vec<u16>)
    requires
        bytes@.len() % 2 == 0,
    ensures
        codes@.len() == bytes@.len() / 2,
        forall|i: int| 0 <= i < codes@.len() ==>
            codes@[i] == word_of_pair(bytes@[2 * i], bytes@[2 * i + 1]),
{
    let mut codes: Vec<u16> = Vec::new();
    let n = bytes.len() / 2;
    let mut i: usize = 0;
    while i < n
        invariant
            n == bytes@.len() / 2,
            bytes@.len() % 2 == 0,
            bytes@.len() <= usize::MAX,
            0 <= i <= n,
            codes@.len() == i,
            forall|j: int| 0 <= j < i ==>
                codes@[j] == word_of_pair(bytes@[2 * j], bytes@[2 * j + 1]),
        decreases n - i,
    {
        let lo = bytes[2 * i];
        let hi = bytes[2 * i + 1];
        let word: u16 = lo as u16 + hi as u16 * 256;
        codes.push(word);
        i = i + 1;
    }
    codes
}

/// Clamps a raw sample word to the 10-bit code-value range.
///
/// Decoded data is assumed well formed, but out-of-range words are bounded
/// defensively rather than rejected.
pub fn clamp_code(sample: u16) -> (code: u16)
    ensures
        code == if sample > crate::CODE_MAX { crate::CODE_MAX as u16 } else { sample },
        code <= crate::CODE_MAX,
{
    if sample > crate::CODE_MAX {
        crate::CODE_MAX
    } else {
        sample
    }
}

} // verus!
