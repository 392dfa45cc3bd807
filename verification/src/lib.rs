//! Voice-management core of a MIDI-controlled resonant-filter instrument.
//!
//! The library turns note-on/note-off events into per-voice control state and
//! per-sample envelope gains: a fixed pool of voices with least-recently-used
//! stealing ([`voicer::Voicer`]), a per-voice ADSR envelope driven by trigger
//! edges ([`adsr::Adsr`]), and the bookkeeping each voice carries
//! ([`voice::Voice`]). Time is counted in whole samples and gains in
//! fixed-point fractions of [`GAIN_ONE`], so every ramp and every allocation
//! decision is exact and proved: no operation panics, overflows or rejects an
//! input — malformed values clamp, and running out of free voices is the
//! designed-for stealing path, not an error.
//!
//! The floating-point signal path that consumes these decisions — band-pass
//! resonators, the wet/dry mix, second-to-sample conversion — lives outside
//! the library and reads back plain values: which note each voice holds, its
//! filter tuning and bandwidth, its envelope gain for the current sample.

use vstd::prelude::*;

pub mod adsr;
pub mod voice;
pub mod voicer;

verus! {

/// Number of polyphonic voice slots in the fixed pool.
pub const NUM_VOICES: usize = 8;

/// Fixed-point unit gain: envelope and mix levels range over `0 ..= GAIN_ONE`.
pub const GAIN_ONE: u32 = 1_000_000;

/// Upper bound, in samples, on any envelope segment duration; longer
/// durations are clamped so that fixed-point ramp arithmetic cannot overflow.
pub const MAX_DURATION: u64 = 0x1_0000_0000;

} // verus!

