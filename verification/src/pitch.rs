//! Integer scheduling of the pitch search and of the pitch-doubling
//! remover.
//!
//! The pitch estimator correlates `f32` samples, but which lags it probes,
//! which sub-periods it considers when removing octave errors, and how the
//! winning lag is clamped back into the supported period range are integer
//! decisions.  They are collected here with exact contracts; the sample
//! kernels only supply the correlation values that pick among the
//! candidates.

use vstd::prelude::*;

verus! {

use crate::{PITCH_BUF_SIZE, PITCH_MAX_PERIOD, PITCH_MIN_PERIOD, WINDOW_SIZE};
use vstd::arithmetic::div_mod::lemma_multiply_divide_lt;

/// Distance between two lags.
pub open spec fn spec_abs_diff(a: int, b: int) -> int {
    if a >= b {
        a - b
    } else {
        b - a
    }
}

/// Companion multiplier probed beside the sub-period `t0 / k`; chosen so
/// that a true period near `second_check(k) * t0 / k` also scores.
pub open spec fn spec_second_check(k: int) -> int {
    if k == 2 {
        3
    } else if k == 4 || k == 8 || k == 10 || k == 14 {
        3
    } else if k == 6 || k == 12 {
        5
    } else {
        2
    }
}

/// Companion multiplier probed beside the sub-period `t0 / k`.
pub fn second_check(k: usize) -> (r: usize)
    requires
        2 <= k <= 15,
    ensures
        r as int == spec_second_check(k as int),
        2 <= r <= 5,
        k >= 3 ==> r < k,
{
    match k {
        2 => 3,
        4 => 3,
        8 => 3,
        10 => 3,
        14 => 3,
        6 => 5,
        12 => 5,
        _ => 2,
    }
}

/// Halves the doubling remover's parameters to its working rate and
/// clamps the probed lag below the longest one, so that the lag indexes
/// the backward-energy table and leaves room for every sub-period
/// candidate.  Returns `(max_period, min_period, n, t0, prev_period)` at
/// half rate.
pub fn doubling_setup(
    max_period: usize,
    min_period: usize,
    n: usize,
    t0: usize,
    prev_period: usize,
) -> (r: (usize, usize, usize, usize, usize))
    requires
        max_period >= 2,
    ensures
        r.0 == max_period as int / 2,
        r.1 == min_period as int / 2,
        r.2 == n as int / 2,
        r.3 as int == (if t0 as int / 2 < max_period as int / 2 - 1 {
            t0 as int / 2
        } else {
            max_period as int / 2 - 1
        }),
        r.4 == prev_period as int / 2,
        r.3 < r.0,
{
    let half_max = max_period / 2;
    let mut half_t0 = t0 / 2;
    if half_t0 > half_max - 1 {
        half_t0 = half_max - 1;
    }
    (half_max, min_period / 2, n / 2, half_t0, prev_period / 2)
}

/// The sub-period `t0 / k`, rounded to the nearest integer.
pub open spec fn spec_sub_period(t0: int, k: int) -> int {
    (2 * t0 + k) / (2 * k)
}

/// A rounded sub-period never exceeds the period it divides.
pub proof fn lemma_sub_period_le(t0: int, k: int)
    requires
        0 <= t0,
        2 <= k,
    ensures
        0 <= spec_sub_period(t0, k) <= t0,
{
    assert(2 * t0 + k < (2 * k) * (t0 + 1)) by (nonlinear_arith)
        requires
            0 <= t0,
            2 <= k,
    ;
    lemma_multiply_divide_lt(2 * t0 + k, 2 * k, t0 + 1);
}

/// Sub-period candidate probed by the doubling remover for divisor `k`:
/// `Some((t1, t1b))` holds the rounded sub-period `t0 / k` and its
/// companion lag, or `None` when the sub-period falls below `min_period`
/// and the schedule stops.  Both returned lags stay within `max_period`,
/// so they index the backward-energy table safely.
pub fn doubling_candidate(t0: usize, k: usize, min_period: usize, max_period: usize) -> (r: Option<
    (usize, usize),
>)
    requires
        2 <= k <= 15,
        t0 < max_period,
        max_period <= PITCH_MAX_PERIOD,
    ensures
        r is Some <==> spec_sub_period(t0 as int, k as int) >= min_period,
        r matches Some(c) ==> c.0 == spec_sub_period(t0 as int, k as int),
        r matches Some(c) ==> (k == 2 ==> c.1 as int == (if c.0 + t0 > max_period {
            t0 as int
        } else {
            c.0 as int + t0 as int
        })),
        r matches Some(c) ==> (k >= 3 ==> c.1 as int == (2 * spec_second_check(k as int) * (
        t0 as int) + k as int) / (2 * k as int)),
        r matches Some(c) ==> c.0 <= t0 && c.1 <= max_period,
{
    proof {
        lemma_sub_period_le(t0 as int, k as int);
    }
    let t1 = (2 * t0 + k) / (2 * k);
    if t1 < min_period {
        return None;
    }
    let t1b = if k == 2 {
        if t1 + t0 > max_period {
            t0
        } else {
            t0 + t1
        }
    } else {
        let c = second_check(k);
        proof {
            let tt = t0 as int;
            let kk = k as int;
            let cc = c as int;
            assert((2 * cc) * tt <= 10 * (PITCH_MAX_PERIOD as int)) by (nonlinear_arith)
                requires
                    0 <= tt <= PITCH_MAX_PERIOD,
                    2 <= cc <= 5,
            ;
            assert(2 * cc * tt + kk < (2 * kk) * (tt + 1)) by (nonlinear_arith)
                requires
                    0 <= tt,
                    3 <= kk,
                    2 <= cc < kk,
            ;
            lemma_multiply_divide_lt(2 * cc * tt + kk, 2 * kk, tt + 1);
        }
        (2 * c * t0 + k) / (2 * k)
    };
    Some((t1, t1b))
}

/// Bias credited to a sub-period for agreeing with the period found on the
/// previous frame.
#[derive(PartialEq, Eq, Structural, Clone, Copy, Debug)]
pub enum ContinuityBias {
    /// Within one lag of the previous period: the full previous gain.
    Full,
    /// Within two lags, and the divisor is small next to the period: half
    /// the previous gain.
    Half,
    /// No agreement: no bias.
    Zero,
}

/// Continuity bias of sub-period `t1` against the previous period.
pub open spec fn spec_continuity_bias(t1: int, prev_period: int, t0: int, k: int) -> ContinuityBias {
    if spec_abs_diff(t1, prev_period) <= 1 {
        ContinuityBias::Full
    } else if spec_abs_diff(t1, prev_period) <= 2 && 5 * k * k < t0 {
        ContinuityBias::Half
    } else {
        ContinuityBias::Zero
    }
}

/// Continuity bias of sub-period `t1` against the previous period.
pub fn continuity_bias(t1: usize, prev_period: usize, t0: usize, k: usize) -> (r: ContinuityBias)
    requires
        k <= 15,
        t0 <= PITCH_MAX_PERIOD,
    ensures
        r == spec_continuity_bias(t1 as int, prev_period as int, t0 as int, k as int),
{
    proof {
        assert(5 * (k as int) * (k as int) <= 1125) by (nonlinear_arith)
            requires
                0 <= k as int <= 15,
        ;
    }
    let diff = if t1 >= prev_period {
        t1 - prev_period
    } else {
        prev_period - t1
    };
    if diff <= 1 {
        ContinuityBias::Full
    } else if diff <= 2 && 5 * k * k < t0 {
        ContinuityBias::Half
    } else {
        ContinuityBias::Zero
    }
}

/// Which acceptance threshold a sub-period faces: short sub-periods are
/// held to a stricter test to avoid mistaking short-term correlation for
/// pitch.
#[derive(PartialEq, Eq, Structural, Clone, Copy, Debug)]
pub enum ThresholdRegime {
    /// `t1 < 3 * min_period`.
    Short,
    /// `t1 < 2 * min_period` but not short; never actually selected.
    Mid,
    /// Everything longer.
    Long,
}

/// Threshold regime of sub-period `t1`, tested in order: short first.
pub open spec fn spec_threshold_regime(t1: int, min_period: int) -> ThresholdRegime {
    if t1 < 3 * min_period {
        ThresholdRegime::Short
    } else if t1 < 2 * min_period {
        ThresholdRegime::Mid
    } else {
        ThresholdRegime::Long
    }
}

/// Threshold regime of sub-period `t1`.
pub fn threshold_regime(t1: usize, min_period: usize) -> (r: ThresholdRegime)
    requires
        min_period <= PITCH_MAX_PERIOD,
    ensures
        r == spec_threshold_regime(t1 as int, min_period as int),
{
    if t1 < 3 * min_period {
        ThresholdRegime::Short
    } else if t1 < 2 * min_period {
        ThresholdRegime::Mid
    } else {
        ThresholdRegime::Long
    }
}

/// The middle regime is dead: any lag under twice the minimum period is
/// already under three times it, so the first test captures it.  The
/// selection keeps the branch to mirror the order in which the tests are
/// made, but only `Short` and `Long` are ever returned.
pub proof fn lemma_mid_regime_unreachable(t1: int, min_period: int)
    requires
        min_period >= 0,
    ensures
        spec_threshold_regime(t1, min_period) != ThresholdRegime::Mid,
{
}

/// Whether the fine pitch search evaluates lag `i`: only lags within two
/// steps of twice the coarse winner or twice the runner-up are correlated;
/// every other entry is left at zero.
pub fn keep_candidate(i: usize, best: usize, second: usize) -> (r: bool)
    ensures
        r == (spec_abs_diff(i as int, 2 * (best as int)) <= 2 || spec_abs_diff(
            i as int,
            2 * (second as int),
        ) <= 2),
{
    let ii = i as i128;
    let b2 = 2 * (best as i128);
    let s2 = 2 * (second as i128);
    let db = if ii >= b2 {
        ii - b2
    } else {
        b2 - ii
    };
    let ds = if ii >= s2 {
        ii - s2
    } else {
        s2 - ii
    };
    db <= 2 || ds <= 2
}

/// Doubles a winning half-rate lag and applies the pseudo-interpolation
/// offset.  The offset is `+1` or `-1` only when the correlation peak
/// leans toward a neighbouring lag, and never `+1` for the first lag.
pub fn interpolate_lag(best: usize, offset: i32) -> (r: usize)
    requires
        -1 <= offset <= 1,
        offset == 1 ==> best >= 1,
        2 * best + 1 <= usize::MAX,
    ensures
        r == 2 * (best as int) - offset as int,
{
    let d = 2 * best;
    if offset == 1 {
        d - 1
    } else if offset == -1 {
        d + 1
    } else {
        d
    }
}

/// Full-rate period reported by the doubling remover: twice the winning
/// half-rate lag, pseudo-interpolated, and floored at `init_min_period`.
pub fn final_period(t: usize, offset: i32, init_min_period: usize) -> (r: usize)
    requires
        -1 <= offset <= 1,
        offset == 1 ==> t >= 1,
        2 * t + 1 <= usize::MAX,
    ensures
        r as int == (if 2 * (t as int) - offset as int >= init_min_period as int {
            2 * (t as int) - offset as int
        } else {
            init_min_period as int
        }),
        init_min_period <= r,
        r <= 2 * t + 1 || r == init_min_period,
{
    let lag = interpolate_lag(t, offset);
    if lag < init_min_period {
        init_min_period
    } else {
        lag
    }
}

/// Start of the window of pitch history that lies one period back: a full
/// analysis window beginning there fits inside the history buffer for
/// every supported period.
pub fn pitch_window_start(period: usize) -> (r: usize)
    requires
        PITCH_MIN_PERIOD <= period <= PITCH_MAX_PERIOD,
    ensures
        r == PITCH_BUF_SIZE - WINDOW_SIZE - period,
        r + WINDOW_SIZE <= PITCH_BUF_SIZE,
{
    PITCH_BUF_SIZE - WINDOW_SIZE - period
}

/// Converts an index returned by the coarse-to-fine search, which counts
/// down from the longest probed lag, into a pitch period.
pub fn search_lag(idx: usize) -> (r: usize)
    requires
        idx <= PITCH_MAX_PERIOD,
    ensures
        r == PITCH_MAX_PERIOD - idx,
{
    PITCH_MAX_PERIOD - idx
}

} // verus!
