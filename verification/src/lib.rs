//! Structural core of a streaming RNNoise-style noise suppressor.
//!
//! The numerical kernels of the suppressor (windowed FFTs, band energies,
//! the recurrent gain predictor) work on `f32` data; everything they rely on
//! for *indexing* and *scheduling* is integer logic, and that logic lives
//! here, verified: frame and band geometry, the cepstral ring buffer, the
//! pitch candidate schedule, and the generic buffer operations of the
//! per-frame pipeline.

use vstd::prelude::*;

pub mod bands;
pub mod buffers;
pub mod pitch;
pub mod ring;
pub mod tracker;

verus! {

/// Samples in one 10 ms frame at 48 kHz.
pub const FRAME_SIZE: usize = 480;

/// Samples in the overlapping analysis/synthesis window: two frames.
pub const WINDOW_SIZE: usize = 2 * FRAME_SIZE;

/// Non-redundant bins of a real FFT of length `WINDOW_SIZE`.
pub const FREQ_SIZE: usize = FRAME_SIZE + 1;

/// Shortest pitch period that the tracker reports, in samples.
pub const PITCH_MIN_PERIOD: usize = 60;

/// Longest pitch period that the tracker reports, in samples.
pub const PITCH_MAX_PERIOD: usize = 768;

/// Samples correlated against when searching for a pitch period.
pub const PITCH_FRAME_SIZE: usize = 960;

/// Samples of input history kept for the pitch search.
pub const PITCH_BUF_SIZE: usize = PITCH_MAX_PERIOD + PITCH_FRAME_SIZE;

/// Number of critical bands.
pub const NB_BANDS: usize = 22;

/// Cepstra remembered by the feature extractor.
pub const CEPS_MEM: usize = 8;

/// Leading cepstral coefficients used for the delta features.
pub const NB_DELTA_CEPS: usize = 6;

/// Length of the feature vector handed to the gain predictor.
pub const NB_FEATURES: usize = NB_BANDS + 3 * NB_DELTA_CEPS + 2;

} // verus!
