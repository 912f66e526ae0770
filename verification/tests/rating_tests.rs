//! The rating engine against known match outcomes, in display units.

use rating_engine::rating::{
    calc_rating, update_mean_and_variance, RatingError, DRIFT_INPUT_MAX, DRIFT_MAX, DRIFT_MIN,
    MEAN_LIMIT,
};

const SCALE: f64 = 1_000_000.0;
const PROB: f64 = 1_000_000_000.0;

/// Runs one update on point-valued ratings and rounds every output to two
/// decimals, as the service displays them.
fn calc(mean_a: f64, drift_a: f64, mean_b: f64, drift_b: f64, a_wins: bool) -> (f64, f64, f64, f64, f64) {
    let (ma, da, mb, db, win) = update_mean_and_variance(
        (mean_a * SCALE).round() as i64,
        (drift_a * SCALE).round() as i64,
        (mean_b * SCALE).round() as i64,
        (drift_b * SCALE).round() as i64,
        a_wins,
    );
    (
        round2(ma as f64 / SCALE),
        round2(da as f64 / SCALE),
        round2(mb as f64 / SCALE),
        round2(db as f64 / SCALE),
        round2(win as f64 / PROB),
    )
}

fn round2(x: f64) -> f64 {
    format!("{:.2}", x).parse::<f64>().unwrap()
}

#[test]
fn test_1500w10_1500w10() {
    let (mean_a, sigma_a, mean_b, sigma_b, win) = calc(1500.0, 10.0, 1500.0, 10.0, true);

    assert_eq!(mean_a, 1501.93);
    assert_eq!(sigma_a, 9.95);
    assert_eq!(mean_b, 1498.07);
    assert_eq!(sigma_b, 9.95);
    assert_eq!(win, 0.5);
}

#[test]
fn test_2100w3_1700w20() {
    let (mean_a, sigma_a, mean_b, sigma_b, win) = calc(2100.0, 3.0, 1700.0, 20.0, false);

    assert_eq!(mean_a, 2097.96);
    assert_eq!(sigma_a, 4.13);
    assert_eq!(mean_b, 1706.26);
    assert_eq!(sigma_b, 24.75);
    assert_eq!(win, 0.94);
}

#[test]
fn test_1700w10_1800w50() {
    let (mean_a, sigma_a, mean_b, sigma_b, win) = calc(1700.0, 10.0, 1800.0, 50.0, true);

    assert_eq!(mean_a, 1701.89);
    assert_eq!(sigma_a, 10.71);
    assert_eq!(mean_b, 1791.07);
    assert_eq!(sigma_b, 53.17);
    assert_eq!(win, 0.37);
}

#[test]
fn test_1700w499_1800w499() {
    let (mean_a, sigma_a, mean_b, sigma_b, win) = calc(1700.5, 499.0, 1800.5, 499.0, true);

    assert_eq!(mean_a, 1758.31);
    assert_eq!(sigma_a, 500.00);
    assert_eq!(mean_b, 1742.69);
    assert_eq!(sigma_b, 500.00);
    assert_eq!(win, 0.46);
}

#[test]
fn test_2000w1_1500w200_a() {
    let (mean_a, sigma_a, mean_b, sigma_b, win) = calc(2000.0, 1.0, 1500.0, 200.0, true);

    assert_eq!(mean_a, 2000.26);
    assert_eq!(sigma_a, 1.00);
    assert_eq!(mean_b, 1493.36);
    assert_eq!(sigma_b, 162.00);
    assert_eq!(win, 0.87);
}

#[test]
fn test_2000w1_1500w200_b() {
    let (mean_a, sigma_a, mean_b, sigma_b, win) = calc(2000.0, 1.0, 1500.0, 200.0, false);

    assert_eq!(mean_a, 1998.26);
    assert_eq!(sigma_a, 1.56);
    assert_eq!(mean_b, 1545.06);
    assert_eq!(sigma_b, 236.36);
    assert_eq!(win, 0.87);
}

#[test]
fn symmetry_mirrors_exactly() {
    let r = update_mean_and_variance(1_500_000_000, 10_000_000, 1_500_000_000, 10_000_000, true);
    let q = update_mean_and_variance(1_500_000_000, 10_000_000, 1_500_000_000, 10_000_000, false);
    assert_eq!(r.0, q.2);
    assert_eq!(r.1, q.3);
    assert_eq!(r.2, q.0);
    assert_eq!(r.3, q.1);
    assert_eq!(r.4, q.4);
    assert_eq!(r.4, 500_000_000);
}

#[test]
fn swapping_seats_mirrors_exactly() {
    let r = update_mean_and_variance(2_134_000_000, 37_000_000, 1_872_000_000, 214_000_000, true);
    let q = update_mean_and_variance(1_872_000_000, 214_000_000, 2_134_000_000, 37_000_000, false);
    assert_eq!(r.0, q.2);
    assert_eq!(r.1, q.3);
    assert_eq!(r.2, q.0);
    assert_eq!(r.3, q.1);
    assert_eq!(q.4, 1_000_000_000 - r.4);
}

#[test]
fn zero_gap_is_fair_even_with_unequal_drifts() {
    let r = update_mean_and_variance(1_700_000_000, 2_000_000, 1_700_000_000, 450_000_000, false);
    assert_eq!(r.4, 500_000_000);
}

#[test]
fn win_probability_grows_with_mean() {
    let mut last: u64 = 0;
    let mut grew = false;
    for k in 0..40i64 {
        let mean_a = 1_000_000_000 + k * 50_000_000;
        let r = update_mean_and_variance(mean_a, 80_000_000, 1_500_000_000, 80_000_000, true);
        assert!(r.4 >= last);
        if r.4 > last && k > 0 {
            grew = true;
        }
        last = r.4;
    }
    assert!(grew);
}

#[test]
fn identical_inputs_give_identical_outputs() {
    let r = update_mean_and_variance(1_234_567_891, 23_456_789, 987_654_321, 345_678_912, true);
    let q = update_mean_and_variance(1_234_567_891, 23_456_789, 987_654_321, 345_678_912, true);
    assert_eq!(r, q);
}

#[test]
fn sweep_stays_clamped_and_inside_probability_range() {
    for ma in (-10_000..=10_000i64).step_by(2_500) {
        for mb in (-10_000..=10_000i64).step_by(2_500) {
            for d in [DRIFT_MIN, 250_500_000, DRIFT_MAX] {
                for a_wins in [true, false] {
                    let r = update_mean_and_variance(ma * 1_000_000, d, mb * 1_000_000, d, a_wins);
                    assert!(r.1 >= DRIFT_MIN && r.1 <= DRIFT_MAX);
                    assert!(r.3 >= DRIFT_MIN && r.3 <= DRIFT_MAX);
                    assert!(r.4 >= 1 && r.4 <= 999_999_999);
                }
            }
        }
    }
}

#[test]
fn saturated_gap_probability_is_extreme_but_finite() {
    let r = update_mean_and_variance(10_000_000_000, DRIFT_MIN, -10_000_000_000, DRIFT_MIN, false);
    assert_eq!(r.4, 999_999_999);
    let q = update_mean_and_variance(-10_000_000_000, DRIFT_MIN, 10_000_000_000, DRIFT_MIN, true);
    assert_eq!(q.4, 1);
}

#[test]
fn calc_rating_accepts_valid_inputs() {
    let r = calc_rating(1_500_000_000, 10_000_000, 1_500_000_000, 10_000_000, true).unwrap();
    let q = update_mean_and_variance(1_500_000_000, 10_000_000, 1_500_000_000, 10_000_000, true);
    assert_eq!(r, q);
}

#[test]
fn calc_rating_rejects_low_drift() {
    let r = calc_rating(1_500_000_000, DRIFT_MIN - 1, 1_500_000_000, 10_000_000, true);
    assert_eq!(r.unwrap_err(), RatingError::DriftTooLow);
    let q = calc_rating(1_500_000_000, 10_000_000, 1_500_000_000, 0, false);
    assert_eq!(q.unwrap_err(), RatingError::DriftTooLow);
}

#[test]
fn calc_rating_rejects_oversized_drift() {
    let r = calc_rating(1_500_000_000, DRIFT_INPUT_MAX + 1, 1_500_000_000, 10_000_000, true);
    assert_eq!(r.unwrap_err(), RatingError::DriftTooHigh);
}

#[test]
fn calc_rating_rejects_out_of_band_mean() {
    let r = calc_rating(MEAN_LIMIT + 1, 10_000_000, 1_500_000_000, 10_000_000, true);
    assert_eq!(r.unwrap_err(), RatingError::MeanOutOfRange);
    let q = calc_rating(0, 10_000_000, -MEAN_LIMIT - 1, 10_000_000, false);
    assert_eq!(q.unwrap_err(), RatingError::MeanOutOfRange);
}

#[test]
fn legacy_drift_above_clamp_is_accepted_and_clamped() {
    let r = calc_rating(1_500_000_000, 750_000_000, 1_500_000_000, 750_000_000, true).unwrap();
    assert!(r.1 <= DRIFT_MAX && r.3 <= DRIFT_MAX);
}
