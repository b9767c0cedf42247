//! Critical-band geometry.
//!
//! The spectrum of a 960-point real FFT is grouped into 22 critical bands.
//! Band `i` covers bins `4 * EBAND[i] .. 4 * EBAND[i + 1]`, and every bin
//! inside a band carries a triangular weight split between the band and its
//! right neighbour.  The band correlator and the band-gain interpolator both
//! walk exactly this geometry; here it is defined once and proved to
//! partition the covered bins.

use vstd::prelude::*;

verus! {

use crate::NB_BANDS;

/// Band edge `i` of the critical-band table, in units of 4 FFT bins.
pub open spec fn spec_eband(i: int) -> int {
    if i == 0 {
        0
    } else if i == 1 {
        1
    } else if i == 2 {
        2
    } else if i == 3 {
        3
    } else if i == 4 {
        4
    } else if i == 5 {
        5
    } else if i == 6 {
        6
    } else if i == 7 {
        7
    } else if i == 8 {
        8
    } else if i == 9 {
        10
    } else if i == 10 {
        12
    } else if i == 11 {
        14
    } else if i == 12 {
        16
    } else if i == 13 {
        20
    } else if i == 14 {
        24
    } else if i == 15 {
        28
    } else if i == 16 {
        34
    } else if i == 17 {
        40
    } else if i == 18 {
        48
    } else if i == 19 {
        60
    } else if i == 20 {
        78
    } else {
        100
    }
}

/// First FFT bin of band `i`.
pub open spec fn spec_band_start(i: int) -> int {
    4 * spec_eband(i)
}

/// Number of FFT bins spanned by band `i`.
pub open spec fn spec_band_width(i: int) -> int {
    spec_band_start(i + 1) - spec_band_start(i)
}

/// The band edges increase strictly.
pub proof fn lemma_eband_increasing(i: int, j: int)
    requires
        0 <= i < j < NB_BANDS,
    ensures
        spec_eband(i) < spec_eband(j),
    decreases j - i,
{
    if j > i + 1 {
        lemma_eband_increasing(i, j - 1);
    }
}

/// Band edge `i` of the critical-band table, in units of 4 FFT bins.
pub fn eband(i: usize) -> (r: usize)
    requires
        i < NB_BANDS,
    ensures
        r == spec_eband(i as int),
{
    match i {
        0 => 0,
        1 => 1,
        2 => 2,
        3 => 3,
        4 => 4,
        5 => 5,
        6 => 6,
        7 => 7,
        8 => 8,
        9 => 10,
        10 => 12,
        11 => 14,
        12 => 16,
        13 => 20,
        14 => 24,
        15 => 28,
        16 => 34,
        17 => 40,
        18 => 48,
        19 => 60,
        20 => 78,
        _ => 100,
    }
}

/// First FFT bin of band `i`.
pub fn band_start(i: usize) -> (r: usize)
    requires
        i < NB_BANDS,
    ensures
        r == spec_band_start(i as int),
        r <= 400,
{
    4 * eband(i)
}

/// Number of FFT bins spanned by band `i`; always positive.
pub fn band_width(i: usize) -> (r: usize)
    requires
        i + 1 < NB_BANDS,
    ensures
        r == spec_band_width(i as int),
        0 < r <= 88,
{
    proof {
        lemma_eband_increasing(i as int, i as int + 1);
    }
    4 * eband(i + 1) - 4 * eband(i)
}

/// Which band a bin falls in: `bin_band(idx) == (i, j)` means bin `idx` is
/// the `j`-th bin of band `i`, so its triangular weights are `1 - j / width`
/// on band `i` and `j / width` on band `i + 1`.
pub fn bin_band(idx: usize) -> (r: (usize, usize))
    requires
        idx < 400,
    ensures
        r.0 + 1 < NB_BANDS,
        spec_band_start(r.0 as int) <= idx < spec_band_start(r.0 as int + 1),
        r.1 == idx - spec_band_start(r.0 as int),
{
    let mut i: usize = 0;
    while i < NB_BANDS - 2
        invariant
            i + 1 < NB_BANDS,
            spec_band_start(i as int) <= idx,
        decreases NB_BANDS - i,
    {
        if idx < band_start(i + 1) {
            return (i, idx - band_start(i));
        }
        i = i + 1;
    }
    (i, idx - band_start(i))
}

/// Each covered bin lies in exactly one band: the witness produced by
/// [`bin_band`] is the only pair that places the bin inside a band.
pub proof fn lemma_bin_band_unique(idx: int, i: int, j: int)
    requires
        0 <= i,
        i + 1 < NB_BANDS,
        0 <= j,
        j + 1 < NB_BANDS,
        spec_band_start(i) <= idx < spec_band_start(i + 1),
        spec_band_start(j) <= idx < spec_band_start(j + 1),
    ensures
        i == j,
{
    if i < j {
        lemma_eband_increasing(i + 1, j + 1);
    }
    if j < i {
        lemma_eband_increasing(j + 1, i + 1);
    }
}

/// The bands cover bins `0 .. 400` without gaps: adjacent bands share an
/// edge, the first starts at bin 0, and the last edge is bin 400 (bins
/// `400 .. FREQ_SIZE` of the half spectrum belong to no band).
pub proof fn lemma_bands_tile_bins()
    ensures
        spec_band_start(0) == 0,
        spec_band_start(NB_BANDS as int - 1) == 400,
        forall|i: int|
            0 <= i < NB_BANDS - 1 ==> spec_band_start(i) + spec_band_width(i) == spec_band_start(
                i + 1,
            ),
{
}

} // verus!
