//! Properties of the rating update engine, stated and proved once and for
//! all over [`update_spec`]. The engine's contract pins its result to
//! `update_spec`, so each law carries over to every call.

use vstd::prelude::*;
use crate::cdf::{
    cdf_frac, lemma_cdf_frac_bounds, lemma_cdf_frac_mirror, lemma_cdf_frac_monotone, PROB_HALF,
    PROB_ONE,
};
use crate::rating::{
    lemma_deviation_bounds, lemma_mean_shift_bounded, match_deviation, surprise_spec, update_spec,
    DRIFT_INPUT_MAX, DRIFT_MAX, DRIFT_MIN, UPSET_MARGIN,
};
use crate::sqrt::lemma_sqrt_floor_nonneg;

verus! {

/// Swapping the two players and negating the outcome mirrors the update:
/// each player's new rating is unchanged by which seat they sit in, and the
/// two win probabilities are complementary.
pub proof fn lemma_update_swap(mean_a: int, drift_a: int, mean_b: int, drift_b: int, a_wins: bool)
    ensures
        ({
            let r = update_spec(mean_a, drift_a, mean_b, drift_b, a_wins);
            let q = update_spec(mean_b, drift_b, mean_a, drift_a, !a_wins);
            &&& q.0 == r.2
            &&& q.1 == r.3
            &&& q.2 == r.0
            &&& q.3 == r.1
            &&& q.4 == PROB_ONE - r.4
        }),
{
    lemma_sqrt_floor_nonneg(drift_a * drift_a + drift_b * drift_b);
    let den = match_deviation(drift_a, drift_b) + UPSET_MARGIN;
    assert(drift_b * drift_b + drift_a * drift_a == drift_a * drift_a + drift_b * drift_b);
    lemma_cdf_frac_mirror(mean_a - mean_b, den);
    assert(-(mean_a - mean_b) == mean_b - mean_a);
}

/// Symmetry at equal ratings: with identical means and drifts, the two
/// possible outcomes produce mirror-image results, the win probability is
/// one half either way, and A's win probability plus B's complementary win
/// probability is one.
pub proof fn lemma_update_symmetric(mean: int, drift: int)
    ensures
        ({
            let r = update_spec(mean, drift, mean, drift, true);
            let q = update_spec(mean, drift, mean, drift, false);
            &&& r.0 == q.2
            &&& r.1 == q.3
            &&& r.2 == q.0
            &&& r.3 == q.1
            &&& r.4 == q.4
            &&& r.4 == PROB_HALF
            &&& r.4 + (PROB_ONE - q.4) == PROB_ONE
        }),
{
    lemma_update_swap(mean, drift, mean, drift, true);
    lemma_zero_gap_fair(mean, drift, drift, true);
    lemma_zero_gap_fair(mean, drift, drift, false);
}

/// Zero-gap fairness: players with equal means have a win probability of
/// exactly one half, whatever the drifts and the outcome.
pub proof fn lemma_zero_gap_fair(mean: int, drift_a: int, drift_b: int, a_wins: bool)
    ensures
        update_spec(mean, drift_a, mean, drift_b, a_wins).4 == PROB_HALF,
{
    lemma_sqrt_floor_nonneg(drift_a * drift_a + drift_b * drift_b);
    lemma_cdf_frac_bounds(0, match_deviation(drift_a, drift_b) + UPSET_MARGIN);
}

/// Monotonicity: raising one player's mean, everything else fixed, never
/// lowers their win probability.
///
/// Quantization keeps the growth from being strict everywhere: means that
/// agree after the grid division, and saturated gaps, give equal
/// probabilities.
pub proof fn lemma_win_probability_monotone(
    mean_a1: int,
    mean_a2: int,
    drift_a: int,
    mean_b: int,
    drift_b: int,
    a_wins: bool,
)
    requires
        mean_a1 <= mean_a2,
    ensures
        update_spec(mean_a1, drift_a, mean_b, drift_b, a_wins).4
            <= update_spec(mean_a2, drift_a, mean_b, drift_b, a_wins).4,
{
    lemma_sqrt_floor_nonneg(drift_a * drift_a + drift_b * drift_b);
    lemma_cdf_frac_monotone(
        mean_a1 - mean_b,
        mean_a2 - mean_b,
        match_deviation(drift_a, drift_b) + UPSET_MARGIN,
    );
}

/// Drift floor and ceiling: whatever the inputs, both updated drifts land
/// inside the configured clamp.
pub proof fn lemma_drift_clamped(mean_a: int, drift_a: int, mean_b: int, drift_b: int, a_wins: bool)
    ensures
        DRIFT_MIN <= update_spec(mean_a, drift_a, mean_b, drift_b, a_wins).1 <= DRIFT_MAX,
        DRIFT_MIN <= update_spec(mean_a, drift_a, mean_b, drift_b, a_wins).3 <= DRIFT_MAX,
{
}

/// A result is never punished: the winner's mean does not drop and the
/// loser's does not rise, whatever the ratings said about the outcome.
pub proof fn lemma_mean_moves_toward_winner(
    mean_a: int,
    drift_a: int,
    mean_b: int,
    drift_b: int,
    a_wins: bool,
)
    requires
        DRIFT_MIN <= drift_a <= DRIFT_INPUT_MAX,
        DRIFT_MIN <= drift_b <= DRIFT_INPUT_MAX,
    ensures
        a_wins ==> update_spec(mean_a, drift_a, mean_b, drift_b, a_wins).0 >= mean_a
            && update_spec(mean_a, drift_a, mean_b, drift_b, a_wins).2 <= mean_b,
        !a_wins ==> update_spec(mean_a, drift_a, mean_b, drift_b, a_wins).0 <= mean_a
            && update_spec(mean_a, drift_a, mean_b, drift_b, a_wins).2 >= mean_b,
{
    lemma_deviation_bounds(drift_a, drift_b);
    lemma_win_probability_in_range(mean_a, drift_a, mean_b, drift_b, a_wins);
    let deviation = match_deviation(drift_a, drift_b);
    let win = cdf_frac(mean_a - mean_b, deviation + UPSET_MARGIN);
    let s = surprise_spec(win, a_wins);
    lemma_mean_shift_bounded(s, drift_a, deviation);
    lemma_mean_shift_bounded(s, drift_b, deviation);
}

/// Determinism: the engine's contract pins the result to a function of the
/// inputs, so any two results of the same inputs are equal.
pub proof fn lemma_update_deterministic(
    mean_a: int,
    drift_a: int,
    mean_b: int,
    drift_b: int,
    a_wins: bool,
    r1: (int, int, int, int, int),
    r2: (int, int, int, int, int),
)
    requires
        r1 == update_spec(mean_a, drift_a, mean_b, drift_b, a_wins),
        r2 == update_spec(mean_a, drift_a, mean_b, drift_b, a_wins),
    ensures
        r1 == r2,
{
}

/// The win probability is never degenerate: it lies strictly between 0 and
/// [`PROB_ONE`] for every input, so clamped drifts and finite means leave no
/// path to an absorbing probability.
pub proof fn lemma_win_probability_in_range(
    mean_a: int,
    drift_a: int,
    mean_b: int,
    drift_b: int,
    a_wins: bool,
)
    ensures
        1 <= update_spec(mean_a, drift_a, mean_b, drift_b, a_wins).4 <= PROB_ONE - 1,
{
    lemma_sqrt_floor_nonneg(drift_a * drift_a + drift_b * drift_b);
    lemma_cdf_frac_bounds(mean_a - mean_b, match_deviation(drift_a, drift_b) + UPSET_MARGIN);
}

} // verus!
