use nnnoiseless::pitch::{
    continuity_bias, doubling_candidate, doubling_setup, final_period, interpolate_lag,
    keep_candidate, pitch_window_start, search_lag, second_check, threshold_regime,
    ContinuityBias, ThresholdRegime,
};
use nnnoiseless::{PITCH_BUF_SIZE, PITCH_MAX_PERIOD, WINDOW_SIZE};

#[test]
fn second_check_matches_table() {
    let expected: [usize; 16] = [0, 0, 3, 2, 3, 2, 5, 2, 3, 2, 3, 2, 5, 2, 3, 2];
    for k in 2..=15 {
        assert_eq!(second_check(k), expected[k]);
    }
}

#[test]
fn doubling_setup_halves_and_clamps() {
    // A 240-sample full-rate lag works out to 120 at half rate.
    assert_eq!(doubling_setup(768, 60, 960, 240, 480), (384, 30, 480, 120, 240));
    // The longest lags are clamped just below the half-rate maximum.
    assert_eq!(doubling_setup(768, 60, 960, 768, 0), (384, 30, 480, 383, 0));
    assert_eq!(doubling_setup(768, 60, 960, 767, 0), (384, 30, 480, 383, 0));
}

#[test]
fn doubling_candidates_for_half_period_240() {
    // Half-rate parameters of the doubling remover: a 240-sample lag at
    // half rate is t0 = 120, probed inside [30, 384).
    assert_eq!(doubling_candidate(120, 2, 30, 384), Some((60, 180)));
    assert_eq!(doubling_candidate(120, 3, 30, 384), Some((40, 80)));
    assert_eq!(doubling_candidate(120, 4, 30, 384), Some((30, 90)));
    // t0 / 5 rounds to 24, below the minimum period: the schedule stops.
    assert_eq!(doubling_candidate(120, 5, 30, 384), None);
}

#[test]
fn doubling_companion_falls_back_when_out_of_range() {
    // For k = 2 the companion is t0 + t1 unless that runs past the
    // longest lag, in which case t0 itself is probed again.
    assert_eq!(doubling_candidate(383, 2, 30, 384), Some((192, 383)));
}

#[test]
fn doubling_candidates_stay_indexable() {
    for t0 in 0..384 {
        for k in 2..=15 {
            if let Some((t1, t1b)) = doubling_candidate(t0, k, 30, 384) {
                assert!(t1 <= t0);
                assert!(t1b <= 384);
            }
        }
    }
}

#[test]
fn continuity_bias_cases() {
    assert_eq!(continuity_bias(100, 101, 120, 2), ContinuityBias::Full);
    assert_eq!(continuity_bias(100, 100, 120, 2), ContinuityBias::Full);
    // Two lags away and 5 * k * k = 20 < t0: half credit.
    assert_eq!(continuity_bias(100, 102, 120, 2), ContinuityBias::Half);
    // Two lags away but the divisor is large next to the period: none.
    assert_eq!(continuity_bias(100, 102, 120, 5), ContinuityBias::Zero);
    assert_eq!(continuity_bias(100, 200, 120, 2), ContinuityBias::Zero);
}

#[test]
fn threshold_regime_is_short_or_long() {
    assert_eq!(threshold_regime(89, 30), ThresholdRegime::Short);
    assert_eq!(threshold_regime(90, 30), ThresholdRegime::Long);
    for t1 in 0..1000 {
        assert!(threshold_regime(t1, 30) != ThresholdRegime::Mid);
    }
}

#[test]
fn fine_search_keeps_lags_near_coarse_winners() {
    // Coarse winner 10 and runner-up 50 admit lags near 20 and near 100.
    for i in 18..=22 {
        assert!(keep_candidate(i, 10, 50));
    }
    for i in 98..=102 {
        assert!(keep_candidate(i, 10, 50));
    }
    assert!(!keep_candidate(17, 10, 50));
    assert!(!keep_candidate(23, 10, 50));
    assert!(!keep_candidate(60, 10, 50));
}

#[test]
fn interpolate_lag_shifts_by_offset() {
    assert_eq!(interpolate_lag(10, 0), 20);
    assert_eq!(interpolate_lag(10, 1), 19);
    assert_eq!(interpolate_lag(10, -1), 21);
    assert_eq!(interpolate_lag(0, 0), 0);
}

#[test]
fn final_period_floors_at_minimum() {
    assert_eq!(final_period(100, 0, 60), 200);
    assert_eq!(final_period(29, 1, 60), 60);
    assert_eq!(final_period(30, -1, 60), 61);
    assert_eq!(final_period(383, -1, 60), 767);
}

#[test]
fn pitch_window_fits_in_history() {
    assert_eq!(pitch_window_start(PITCH_MAX_PERIOD), 0);
    assert_eq!(pitch_window_start(60), 708);
    for period in 60..=PITCH_MAX_PERIOD {
        let start = pitch_window_start(period);
        assert!(start + WINDOW_SIZE <= PITCH_BUF_SIZE);
    }
}

#[test]
fn search_lag_counts_down_from_longest() {
    assert_eq!(search_lag(0), 768);
    assert_eq!(search_lag(588), 180);
    assert_eq!(search_lag(768), 0);
}
