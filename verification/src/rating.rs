//! The rating update engine.
//!
//! A rating is a pair of a skill estimate (`mean`) and an uncertainty
//! (`drift`). Both are held in fixed point: one rating point is
//! [`RATING_SCALE`] units, so `1500.0` is stored as `1_500_000_000`.
//! Probabilities are at scale [`PROB_ONE`](crate::cdf::PROB_ONE).
//!
//! One match between players A and B updates both ratings and reports the
//! pre-match probability that A wins:
//!
//! 1. The gap `mean_a - mean_b`, shrunk by the combined deviation of the two
//!    drifts plus the upset margin, is fed to the standard normal CDF; that
//!    is the win probability.
//! 2. The probability mass given to the outcome that did not happen (the
//!    surprise) scales both mean movements: a fixed participation transfer,
//!    plus a spread term that grows with the mover's own drift and shrinks
//!    with the fourth root of the match variability.
//! 3. Each drift is nudged multiplicatively toward larger values after an
//!    upset and smaller ones after an expected result, blended back toward
//!    the old drift when the mean barely moved, and clamped to
//!    [[`DRIFT_MIN`], [`DRIFT_MAX`]].
//!
//! Every step is integer arithmetic, so results are reproducible bit for bit
//! on any machine. All tunable constants of the formula are named here.

use vstd::prelude::*;
use vstd::arithmetic::div_mod::{
    lemma_div_is_ordered, lemma_div_is_ordered_by_denominator, lemma_div_nonincreasing,
    lemma_div_pos_is_pos,
};
use crate::cdf::{
    cdf_frac, cdf_positive, lemma_cdf_frac_bounds, lemma_cdf_frac_pos_bounds, PROB_HALF, PROB_ONE,
};
use crate::sqrt::{
    isqrt_u128, isqrt_u64, lemma_sqrt_floor_at_least, lemma_sqrt_floor_below,
    lemma_sqrt_floor_squeeze, sqrt_floor,
};

verus! {

/// Fixed-point units per rating point.
pub const RATING_SCALE: i64 = 1_000_000;

/// Lower clamp on drift: below this the formula divides by near zero, so it
/// must never persist.
pub const DRIFT_MIN: i64 = 1_000_000;

/// Upper clamp on drift: bounds how wild an unconverged rating can swing.
pub const DRIFT_MAX: i64 = 500_000_000;

/// Largest drift accepted as input: rows written before the upper clamp
/// existed can carry drifts above [`DRIFT_MAX`].
pub const DRIFT_INPUT_MAX: i64 = 2_000_000_000;

/// Largest mean magnitude accepted as input (one hundred thousand points;
/// observed means stay below four thousand).
pub const MEAN_LIMIT: i64 = 100_000_000_000;

/// Additive margin on the combined deviation: slows probability saturation
/// as the rating gap grows.
pub const UPSET_MARGIN: u64 = 241_000_000;

/// Weight of the fixed participation transfer, in rating points per unit of
/// surprise.
pub const PARTICIPATION_WEIGHT: u64 = 2;

/// Probability units per fixed-point rating unit.
pub const PROB_PER_UNIT: u64 = 1_000;

/// Divisor of the drift-driven spread term: a weight of one quarter times
/// [`PROB_PER_UNIT`].
pub const SPREAD_DIVISOR: u64 = 4_000;

/// Offset subtracted from drift before the 3/2-power in the spread term.
pub const SPREAD_OFFSET: i64 = 800_000;

/// Drift scale factor numerator at zero surprise, at probability scale.
pub const DRIFT_FACTOR_BASE: u64 = 1_500_000_000;

/// Drift scale factor denominator, at probability scale.
pub const DRIFT_FACTOR_DIVISOR: u64 = 2_010_000_000;

/// Divisor turning a product of two probabilities into fixed-point rating
/// units.
pub const SURPRISE_SQ_DIVISOR: u64 = 1_000_000_000_000;

/// One squared rating point in squared fixed-point units: the threshold of
/// the small-movement blend.
pub const GAP_UNIT_SQ: u64 = 1_000_000_000_000;

/// Default rating handed out by a rating store when a player has no row yet.
pub const DEFAULT_MEAN: i64 = 1_500_000_000;

/// Default drift for a new rating row.
pub const DEFAULT_DRIFT: i64 = 250_000_000;

/// The inputs the engine accepts: means within the supported band, drifts
/// at least the lower clamp and not beyond the legacy input cap.
pub open spec fn valid_rating_inputs(mean_a: i64, drift_a: i64, mean_b: i64, drift_b: i64) -> bool {
    &&& -MEAN_LIMIT <= mean_a <= MEAN_LIMIT
    &&& -MEAN_LIMIT <= mean_b <= MEAN_LIMIT
    &&& DRIFT_MIN <= drift_a <= DRIFT_INPUT_MAX
    &&& DRIFT_MIN <= drift_b <= DRIFT_INPUT_MAX
}

/// Combined deviation of the two drifts: the root of the sum of their
/// squares.
pub open spec fn match_deviation(drift_a: int, drift_b: int) -> int {
    sqrt_floor(drift_a * drift_a + drift_b * drift_b)
}

/// Pre-match probability that A wins, at scale [`PROB_ONE`]: the normal CDF
/// of the rating gap over the combined deviation plus the upset margin.
pub open spec fn win_probability_spec(mean_a: int, drift_a: int, mean_b: int, drift_b: int) -> int {
    cdf_frac(mean_a - mean_b, match_deviation(drift_a, drift_b) + UPSET_MARGIN)
}

/// Probability mass that was assigned to the outcome that did not happen.
pub open spec fn surprise_spec(win: int, a_wins: bool) -> int {
    if a_wins {
        PROB_ONE - win
    } else {
        win
    }
}

/// The drift-driven part of a mean movement, in fixed-point units:
/// `surprise * (drift - offset)^(3/2) / (4 * deviation^(1/2))`.
pub open spec fn spread_skew_spec(s: int, drift: int, deviation: int) -> int {
    let quarter_root = sqrt_floor(deviation * 1_000_000);
    let t = drift - SPREAD_OFFSET;
    let spread = sqrt_floor(t * t * t) / (PROB_PER_UNIT as int);
    (s * spread) / ((SPREAD_DIVISOR as int) * quarter_root)
}

/// How far one player's mean moves: the participation transfer plus the
/// drift-driven spread term.
pub open spec fn mean_shift_spec(s: int, drift: int, deviation: int) -> int {
    ((PARTICIPATION_WEIGHT as int) * s) / (PROB_PER_UNIT as int)
        + spread_skew_spec(s, drift, deviation)
}

/// Drift after the multiplicative adjustment, before blending and clamping:
/// `(drift + (s - 1/2) * s) * (3/2 + s) / (201/100)`.
pub open spec fn drift_raw_spec(drift: int, s: int) -> int {
    let base = if s >= PROB_HALF {
        drift + ((s - PROB_HALF) * s) / (SURPRISE_SQ_DIVISOR as int)
    } else {
        drift - ((PROB_HALF - s) * s) / (SURPRISE_SQ_DIVISOR as int)
    };
    (base * (DRIFT_FACTOR_BASE + s)) / (DRIFT_FACTOR_DIVISOR as int)
}

/// Drift after one match: the raw adjustment, blended back toward the old
/// drift when the mean moved by less than one point, then clamped.
pub open spec fn drift_next_spec(drift: int, s: int, shift: int) -> int {
    let raw = drift_raw_spec(drift, s);
    let gap_sq = shift * shift;
    let blended = if gap_sq < GAP_UNIT_SQ {
        (drift * (GAP_UNIT_SQ - gap_sq) + raw * gap_sq) / (GAP_UNIT_SQ as int)
    } else {
        raw
    };
    if blended < DRIFT_MIN {
        DRIFT_MIN as int
    } else if blended > DRIFT_MAX {
        DRIFT_MAX as int
    } else {
        blended
    }
}

/// The whole update: new mean and drift for both players, and the pre-match
/// win probability for A.
pub open spec fn update_spec(mean_a: int, drift_a: int, mean_b: int, drift_b: int, a_wins: bool)
    -> (int, int, int, int, int) {
    let deviation = match_deviation(drift_a, drift_b);
    let win = cdf_frac(mean_a - mean_b, deviation + UPSET_MARGIN);
    let s = surprise_spec(win, a_wins);
    let shift_a = mean_shift_spec(s, drift_a, deviation);
    let shift_b = mean_shift_spec(s, drift_b, deviation);
    let mean_a_new = if a_wins {
        mean_a + shift_a
    } else {
        mean_a - shift_a
    };
    let mean_b_new = if a_wins {
        mean_b - shift_b
    } else {
        mean_b + shift_b
    };
    (
        mean_a_new,
        drift_next_spec(drift_a, s, shift_a),
        mean_b_new,
        drift_next_spec(drift_b, s, shift_b),
        win,
    )
}

/// Bounds on the combined deviation under valid drifts.
pub proof fn lemma_deviation_bounds(drift_a: int, drift_b: int)
    requires
        DRIFT_MIN <= drift_a <= DRIFT_INPUT_MAX,
        DRIFT_MIN <= drift_b <= DRIFT_INPUT_MAX,
    ensures
        1_414_213 <= match_deviation(drift_a, drift_b) < 3_000_000_000,
{
    assert(2_000_000_000_000 <= drift_a * drift_a + drift_b * drift_b
        <= 8_000_000_000_000_000_000) by (nonlinear_arith)
        requires
            1_000_000 <= drift_a <= 2_000_000_000,
            1_000_000 <= drift_b <= 2_000_000_000,
    ;
    let mv = drift_a * drift_a + drift_b * drift_b;
    lemma_sqrt_floor_at_least(mv, 1_414_213);
    lemma_sqrt_floor_below(mv, 3_000_000_000);
}

/// Bound on the spread factor: under valid drifts the 3/2-power stays below
/// ninety billion fixed-point units.
proof fn lemma_spread_bounds(drift: int)
    requires
        DRIFT_MIN <= drift <= DRIFT_INPUT_MAX,
    ensures
        0 <= sqrt_floor((drift - SPREAD_OFFSET) * (drift - SPREAD_OFFSET) * (drift - SPREAD_OFFSET))
            / (PROB_PER_UNIT as int) < 90_000_000_000,
{
    let t = drift - SPREAD_OFFSET;
    assert(0 <= t * t * t < 8_100_000_000_000_000_000_000_000_000) by (nonlinear_arith)
        requires
            200_000 <= t <= 2_000_000_000,
    ;
    let t3 = t * t * t;
    lemma_sqrt_floor_squeeze(t3);
    lemma_sqrt_floor_below(t3, 90_000_000_000_000);
    lemma_div_pos_is_pos(sqrt_floor(t3), PROB_PER_UNIT as int);
    lemma_div_is_ordered(sqrt_floor(t3), 90_000_000_000_000, PROB_PER_UNIT as int);
}

/// The spread term never exceeds nineteen thousand rating points under valid
/// inputs.
pub proof fn lemma_skew_bounds(s: int, drift: int, deviation: int)
    requires
        0 <= s <= PROB_ONE,
        DRIFT_MIN <= drift <= DRIFT_INPUT_MAX,
        1_414_213 <= deviation,
    ensures
        0 <= spread_skew_spec(s, drift, deviation) <= 19_000_000_000,
{
    let quarter_root = sqrt_floor(deviation * 1_000_000);
    lemma_sqrt_floor_at_least(deviation * 1_000_000, 1_189_000);
    let t = drift - SPREAD_OFFSET;
    let spread = sqrt_floor(t * t * t) / (PROB_PER_UNIT as int);
    lemma_spread_bounds(drift);
    assert(0 <= s * spread <= 90_000_000_000_000_000_000) by (nonlinear_arith)
        requires
            0 <= s <= 1_000_000_000,
            0 <= spread < 90_000_000_000,
    ;
    assert((SPREAD_DIVISOR as int) * quarter_root >= 4_756_000_000) by (nonlinear_arith)
        requires
            quarter_root >= 1_189_000,
    ;
    let skew = (s * spread) / ((SPREAD_DIVISOR as int) * quarter_root);
    lemma_div_pos_is_pos(s * spread, (SPREAD_DIVISOR as int) * quarter_root);
    assert(skew <= (s * spread) / 4_756_000_000) by {
        lemma_div_is_ordered_by_denominator(
            s * spread,
            4_756_000_000,
            (SPREAD_DIVISOR as int) * quarter_root,
        );
    }
    assert((s * spread) / 4_756_000_000 <= 19_000_000_000) by {
        lemma_div_is_ordered(s * spread, 90_000_000_000_000_000_000, 4_756_000_000);
    }
}

/// How far a mean can move in one match, given valid inputs.
pub proof fn lemma_mean_shift_bounded(s: int, drift: int, deviation: int)
    requires
        0 <= s <= PROB_ONE,
        DRIFT_MIN <= drift <= DRIFT_INPUT_MAX,
        1_414_213 <= deviation,
    ensures
        0 <= mean_shift_spec(s, drift, deviation) <= 20_000_000_000,
{
    lemma_skew_bounds(s, drift, deviation);
    lemma_div_pos_is_pos((PARTICIPATION_WEIGHT as int) * s, PROB_PER_UNIT as int);
}

/// One match: takes both pre-match ratings and the outcome, returns
/// `(mean_a', drift_a', mean_b', drift_b', win_probability)`.
///
/// The result is exactly [`update_spec`] of the inputs, so equal inputs give
/// bit-identical outputs. Both new drifts are clamped to
/// [[`DRIFT_MIN`], [`DRIFT_MAX`]], the win probability lies strictly between
/// 0 and [`PROB_ONE`], and it is exactly one half whenever the means are
/// equal.
pub fn update_mean_and_variance(mean_a: i64, drift_a: i64, mean_b: i64, drift_b: i64, a_wins: bool)
    -> (r: (i64, i64, i64, i64, u64))
    requires
        valid_rating_inputs(mean_a, drift_a, mean_b, drift_b),
    ensures
        (r.0 as int, r.1 as int, r.2 as int, r.3 as int, r.4 as int)
            == update_spec(mean_a as int, drift_a as int, mean_b as int, drift_b as int, a_wins),
        DRIFT_MIN <= r.1 <= DRIFT_MAX,
        DRIFT_MIN <= r.3 <= DRIFT_MAX,
        r.4 == win_probability_spec(mean_a as int, drift_a as int, mean_b as int, drift_b as int),
        1 <= r.4 <= PROB_ONE - 1,
        mean_a == mean_b ==> r.4 == PROB_HALF,
{
    proof {
        lemma_deviation_bounds(drift_a as int, drift_b as int);
        assert((drift_a as int) * (drift_a as int) <= 4_000_000_000_000_000_000int)
            by (nonlinear_arith)
            requires
                0 <= drift_a as int <= 2_000_000_000,
        ;
        assert((drift_b as int) * (drift_b as int) <= 4_000_000_000_000_000_000int)
            by (nonlinear_arith)
            requires
                0 <= drift_b as int <= 2_000_000_000,
        ;
    }
    // Combined deviation of the two drifts.
    let mv: u64 = (drift_a as u64) * (drift_a as u64) + (drift_b as u64) * (drift_b as u64);
    let deviation: u64 = isqrt_u64(mv);
    let den: u64 = deviation + UPSET_MARGIN;

    // Win probability from the gap, by the mirror symmetry of the CDF.
    let diff: i64 = mean_a - mean_b;
    let win: u64 = if diff >= 0 {
        cdf_positive(diff as u64, den)
    } else {
        PROB_ONE - cdf_positive((-diff) as u64, den)
    };
    proof {
        lemma_cdf_frac_bounds(diff as int, den as int);
        if diff < 0 {
            lemma_cdf_frac_pos_bounds(-(diff as int), den as int);
        }
        assert(win as int == cdf_frac(mean_a as int - mean_b as int, den as int));
    }

    // Surprise of the observed outcome.
    let s: u64 = if a_wins {
        PROB_ONE - win
    } else {
        win
    };

    let shift_a: u64 = mean_shift(s, drift_a, deviation);
    let shift_b: u64 = mean_shift(s, drift_b, deviation);

    let mean_a_new: i64 = if a_wins {
        mean_a + shift_a as i64
    } else {
        mean_a - shift_a as i64
    };
    let mean_b_new: i64 = if a_wins {
        mean_b - shift_b as i64
    } else {
        mean_b + shift_b as i64
    };

    let drift_a_new: i64 = drift_next(drift_a, s, shift_a);
    let drift_b_new: i64 = drift_next(drift_b, s, shift_b);

    (mean_a_new, drift_a_new, mean_b_new, drift_b_new, win)
}

/// Why a rating query was rejected before computing.
#[derive(Clone, Copy, Debug, PartialEq, Eq, Structural)]
pub enum RatingError {
    /// A drift below the lower clamp: the formula would divide by near zero.
    DriftTooLow,
    /// A drift beyond the largest accepted input.
    DriftTooHigh,
    /// A mean outside the supported band.
    MeanOutOfRange,
}

/// Which rejection invalid inputs get: drifts below the clamp are reported
/// first, then oversized drifts, then out-of-band means.
pub open spec fn rating_error_spec(mean_a: i64, drift_a: i64, mean_b: i64, drift_b: i64)
    -> RatingError {
    if drift_a < DRIFT_MIN || drift_b < DRIFT_MIN {
        RatingError::DriftTooLow
    } else if drift_a > DRIFT_INPUT_MAX || drift_b > DRIFT_INPUT_MAX {
        RatingError::DriftTooHigh
    } else {
        RatingError::MeanOutOfRange
    }
}

/// The checked entry point behind the rating query endpoint: rejects exactly
/// the inputs that [`update_mean_and_variance`] excludes, with
/// [`rating_error_spec`] naming the rejection, and computes the update on
/// all others.
pub fn calc_rating(mean_a: i64, drift_a: i64, mean_b: i64, drift_b: i64, a_wins: bool)
    -> (r: Result<(i64, i64, i64, i64, u64), RatingError>)
    ensures
        r is Ok <==> valid_rating_inputs(mean_a, drift_a, mean_b, drift_b),
        (match r {
            Ok(t) => (t.0 as int, t.1 as int, t.2 as int, t.3 as int, t.4 as int)
                == update_spec(mean_a as int, drift_a as int, mean_b as int, drift_b as int, a_wins),
            Err(e) => e == rating_error_spec(mean_a, drift_a, mean_b, drift_b),
        }),
{
    if drift_a < DRIFT_MIN || drift_b < DRIFT_MIN {
        Err(RatingError::DriftTooLow)
    } else if drift_a > DRIFT_INPUT_MAX || drift_b > DRIFT_INPUT_MAX {
        Err(RatingError::DriftTooHigh)
    } else if mean_a < -MEAN_LIMIT || mean_a > MEAN_LIMIT || mean_b < -MEAN_LIMIT || mean_b
        > MEAN_LIMIT {
        Err(RatingError::MeanOutOfRange)
    } else {
        Ok(update_mean_and_variance(mean_a, drift_a, mean_b, drift_b, a_wins))
    }
}

/// The mean movement of one player, computed.
fn mean_shift(s: u64, drift: i64, deviation: u64) -> (shift: u64)
    requires
        s <= PROB_ONE,
        DRIFT_MIN <= drift <= DRIFT_INPUT_MAX,
        1_414_213 <= deviation < 3_000_000_000,
    ensures
        shift == mean_shift_spec(s as int, drift as int, deviation as int),
        shift <= 20_000_000_000,
{
    proof {
        lemma_skew_bounds(s as int, drift as int, deviation as int);
    }
    let participation: u64 = (PARTICIPATION_WEIGHT * s) / PROB_PER_UNIT;

    let quarter_root: u64 = isqrt_u64(deviation * 1_000_000);
    proof {
        lemma_sqrt_floor_at_least(deviation as int * 1_000_000, 1_189_000);
        lemma_sqrt_floor_below(deviation as int * 1_000_000, 60_000_000);
    }

    let t: u64 = (drift - SPREAD_OFFSET) as u64;
    proof {
        assert((t as int) * (t as int) <= 4_000_000_000_000_000_000int) by (nonlinear_arith)
            requires
                0 <= t as int <= 2_000_000_000,
        ;
        assert((t as int) * (t as int) * (t as int)
            <= 8_000_000_000_000_000_000_000_000_000int) by (nonlinear_arith)
            requires
                0 <= t as int <= 2_000_000_000,
        ;
        lemma_sqrt_floor_squeeze((t as int) * (t as int) * (t as int));
        lemma_sqrt_floor_below((t as int) * (t as int) * (t as int), 90_000_000_000_000);
    }
    let t3: u128 = (t as u128) * (t as u128) * (t as u128);
    let root: u128 = isqrt_u128(t3);
    proof {
        lemma_div_nonincreasing(root as int, PROB_PER_UNIT as int);
        lemma_div_pos_is_pos(root as int, PROB_PER_UNIT as int);
    }
    let spread: u64 = (root / (PROB_PER_UNIT as u128)) as u64;

    proof {
        assert((s as int) * (spread as int) <= 90_000_000_000_000_000_000int) by (nonlinear_arith)
            requires
                0 <= s as int <= 1_000_000_000,
                0 <= (spread as int) && (spread as int) < 90_000_000_000,
        ;
        assert(0 <= (s as int) * (spread as int)) by (nonlinear_arith)
            requires
                0 <= s as int,
                0 <= spread as int,
        ;
    }
    let skew128: u128 = ((s as u128) * (spread as u128))
        / ((SPREAD_DIVISOR as u128) * (quarter_root as u128));
    let skew: u64 = skew128 as u64;
    participation + skew
}

/// The drift update of one player, computed.
fn drift_next(drift: i64, s: u64, shift: u64) -> (d: i64)
    requires
        1 <= s <= PROB_ONE - 1,
        DRIFT_MIN <= drift <= DRIFT_INPUT_MAX,
        shift <= 20_000_000_000,
    ensures
        d == drift_next_spec(drift as int, s as int, shift as int),
        DRIFT_MIN <= d <= DRIFT_MAX,
{
    let base: u64 = if s >= PROB_HALF {
        proof {
            assert(0 <= ((s - PROB_HALF) as int) * (s as int) <= 500_000_000_000_000_000int)
                by (nonlinear_arith)
                requires
                    0 <= ((s - PROB_HALF) as int) <= 500_000_000,
                    0 <= s as int <= 1_000_000_000,
            ;
            lemma_div_is_ordered(
                ((s - PROB_HALF) as int) * (s as int),
                500_000_000_000_000_000,
                SURPRISE_SQ_DIVISOR as int,
            );
            lemma_div_pos_is_pos(((s - PROB_HALF) as int) * (s as int), SURPRISE_SQ_DIVISOR as int);
        }
        drift as u64 + ((s - PROB_HALF) * s) / SURPRISE_SQ_DIVISOR
    } else {
        proof {
            assert(0 <= ((PROB_HALF - s) as int) * (s as int) <= 62_500_000_000_000_000int)
                by (nonlinear_arith)
                requires
                    0 <= ((PROB_HALF - s) as int) <= 500_000_000,
                    0 <= s as int <= 500_000_000,
                    ((PROB_HALF - s) as int) + (s as int) == 500_000_000,
            ;
            lemma_div_is_ordered(
                ((PROB_HALF - s) as int) * (s as int),
                62_500_000_000_000_000,
                SURPRISE_SQ_DIVISOR as int,
            );
            lemma_div_pos_is_pos(((PROB_HALF - s) as int) * (s as int), SURPRISE_SQ_DIVISOR as int);
        }
        drift as u64 - ((PROB_HALF - s) * s) / SURPRISE_SQ_DIVISOR
    };
    proof {
        assert(0 <= (base as int) * ((DRIFT_FACTOR_BASE + s) as int)
            <= 6_000_000_000_000_000_000int) by (nonlinear_arith)
            requires
                0 <= base as int <= 2_000_500_000,
                0 <= (DRIFT_FACTOR_BASE + s) as int <= 2_500_000_000,
        ;
        lemma_div_is_ordered(
            (base as int) * ((DRIFT_FACTOR_BASE + s) as int),
            6_000_000_000_000_000_000,
            DRIFT_FACTOR_DIVISOR as int,
        );
        lemma_div_pos_is_pos(
            (base as int) * ((DRIFT_FACTOR_BASE + s) as int),
            DRIFT_FACTOR_DIVISOR as int,
        );
    }
    let raw: u64 = (((base as u128) * ((DRIFT_FACTOR_BASE + s) as u128))
        / (DRIFT_FACTOR_DIVISOR as u128)) as u64;

    proof {
        assert(0 <= (shift as int) * (shift as int)
            <= 400_000_000_000_000_000_000int) by (nonlinear_arith)
            requires
                0 <= shift as int <= 20_000_000_000,
        ;
    }
    let gap_sq: u128 = (shift as u128) * (shift as u128);
    let blended: u64 = if gap_sq < GAP_UNIT_SQ as u128 {
        proof {
            assert(0 <= (drift as int) * (GAP_UNIT_SQ - gap_sq)
                + (raw as int) * (gap_sq as int) <= 5_000_000_000_000_000_000_000int)
                by (nonlinear_arith)
                requires
                    0 <= drift as int <= 2_000_000_000,
                    0 <= raw as int <= 3_000_000_000,
                    0 <= gap_sq as int <= GAP_UNIT_SQ as int,
            ;
            lemma_div_is_ordered(
                (drift as int) * (GAP_UNIT_SQ - gap_sq) + (raw as int) * (gap_sq as int),
                5_000_000_000_000_000_000_000,
                GAP_UNIT_SQ as int,
            );
            lemma_div_pos_is_pos(
                (drift as int) * (GAP_UNIT_SQ - gap_sq) + (raw as int) * (gap_sq as int),
                GAP_UNIT_SQ as int,
            );
        }
        (((drift as u128) * ((GAP_UNIT_SQ as u128) - gap_sq) + (raw as u128) * gap_sq)
            / (GAP_UNIT_SQ as u128)) as u64
    } else {
        raw
    };
    if blended < DRIFT_MIN as u64 {
        DRIFT_MIN
    } else if blended > DRIFT_MAX as u64 {
        DRIFT_MAX
    } else {
        blended as i64
    }
}

} // verus!
