//! The threshold evaluator's configuration: the closed set of passing rules a
//! proposal can be created under, their fixed-point fractions, and the
//! validation run once at creation.

use vstd::prelude::*;
use vstd::arithmetic::div_mod::{
    lemma_div_is_ordered, lemma_div_pos_is_pos, lemma_fundamental_div_mod,
    lemma_fundamental_div_mod_converse,
};
use vstd::arithmetic::mul::{
    lemma_mul_inequality, lemma_mul_is_commutative, lemma_mul_is_distributive_sub_other_way,
};

verus! {

/// One unit in the fixed-point fraction representation: fractions carry
/// eighteen decimal places, so this value stands for 1.0.
pub const DECIMAL_FRACTIONAL: u128 = 1_000_000_000_000_000_000;

/// Atomic units in one hundredth, for the `percent` constructor.
pub const DECIMAL_PERCENT: u128 = 10_000_000_000_000_000;

/// A non-negative fixed-point fraction with eighteen decimal places.
/// `atomics` counts units of 10^-18, so `DECIMAL_FRACTIONAL` atomics are 1.0.
#[derive(Clone, Copy, Debug, PartialEq, Eq, Structural)]
pub struct Decimal {
    pub atomics: u128,
}

impl Decimal {
    /// The fraction 0.
    pub fn zero() -> (r: Decimal)
        ensures
            r.atomics == 0,
    {
        Decimal { atomics: 0 }
    }

    /// The fraction 1.
    pub fn one() -> (r: Decimal)
        ensures
            r.atomics == DECIMAL_FRACTIONAL,
    {
        Decimal { atomics: DECIMAL_FRACTIONAL }
    }

    /// The fraction `x`/100.
    pub fn percent(x: u64) -> (r: Decimal)
        ensures
            r.atomics == x * DECIMAL_PERCENT,
    {
        proof {
            lemma_mul_inequality(x as int, u64::MAX as int, DECIMAL_PERCENT as int);
        }
        Decimal { atomics: (x as u128) * DECIMAL_PERCENT }
    }
}

/// A fraction usable as a threshold or quorum: strictly positive and at most 1.
pub open spec fn valid_fraction(d: Decimal) -> bool {
    0 < d.atomics <= DECIMAL_FRACTIONAL
}

/// The least weight `k` with `k >= p * weight`, i.e. the fractional
/// requirement rounded up to whole voting weight.
pub open spec fn spec_votes_needed(weight: int, p: Decimal) -> int {
    (weight * p.atomics + (DECIMAL_FRACTIONAL - 1)) / (DECIMAL_FRACTIONAL as int)
}

/// Rounding a valid fraction of a weight up never exceeds the weight itself
/// and never goes negative.
pub proof fn lemma_votes_needed_le(weight: int, p: Decimal)
    requires
        0 <= weight,
        p.atomics <= DECIMAL_FRACTIONAL,
    ensures
        0 <= spec_votes_needed(weight, p) <= weight,
{
    let f = DECIMAL_FRACTIONAL as int;
    let numer = weight * p.atomics;
    lemma_mul_inequality(p.atomics as int, f, weight);
    lemma_mul_is_commutative(p.atomics as int, weight);
    lemma_mul_is_commutative(f, weight);
    assert(numer <= weight * f);
    lemma_div_is_ordered(numer + (f - 1), weight * f + (f - 1), f);
    lemma_fundamental_div_mod_converse(weight * f + (f - 1), f, weight, f - 1);
    lemma_mul_inequality(0, p.atomics as int, weight);
    lemma_div_pos_is_pos(numer + (f - 1), f);
}

/// The rounded-up requirement is exact: a whole weight `k` meets it precisely
/// when `k` is at least the fraction `p` of `weight` — so the rule is never
/// satisfiable below the stated fraction, and never demands more than the
/// next whole weight above it.
pub proof fn lemma_votes_needed_is_least(weight: int, p: Decimal, k: int)
    requires
        0 <= weight,
        0 <= k,
    ensures
        k >= spec_votes_needed(weight, p) <==> k * DECIMAL_FRACTIONAL >= weight * p.atomics,
{
    let f = DECIMAL_FRACTIONAL as int;
    let numer = weight * p.atomics;
    let needed = spec_votes_needed(weight, p);
    lemma_mul_inequality(0, p.atomics as int, weight);
    lemma_mul_is_commutative(p.atomics as int, weight);
    lemma_fundamental_div_mod(numer + (f - 1), f);
    let r = (numer + (f - 1)) % f;
    assert(numer + (f - 1) == f * needed + r);
    lemma_mul_is_commutative(f, needed);
    if k >= needed {
        lemma_mul_inequality(needed, k, f);
        assert(needed * f >= numer);
    } else {
        assert(k <= needed - 1);
        lemma_mul_inequality(k, needed - 1, f);
        assert((needed - 1) * f == needed * f - f) by {
            lemma_mul_is_distributive_sub_other_way(f, needed, 1);
        }
        assert(k * f < numer);
    }
    lemma_mul_is_commutative(k, f);
}

/// The least weight `k` with `k >= p * weight`, computed exactly.
pub fn votes_needed(weight: u64, p: &Decimal) -> (r: u64)
    requires
        p.atomics <= DECIMAL_FRACTIONAL,
    ensures
        r == spec_votes_needed(weight as int, *p),
        r <= weight,
{
    proof {
        lemma_mul_inequality(weight as int, u64::MAX as int, p.atomics as int);
        lemma_votes_needed_le(weight as int, *p);
    }
    let numer: u128 = (weight as u128) * p.atomics;
    let r: u128 = (numer + (DECIMAL_FRACTIONAL - 1)) / DECIMAL_FRACTIONAL;
    r as u64
}

/// The error a malformed threshold configuration is rejected with.
#[derive(Clone, Copy, Debug, PartialEq, Eq, Structural)]
pub enum ThresholdError {
    /// A configured fraction lies outside (0, 1].
    InvalidThreshold,
    /// The required weight exceeds the total eligible weight, so the rule
    /// could never be satisfied.
    UnreachableWeight,
}

/// The passing rule a proposal is evaluated under, snapshotted at creation.
#[derive(Clone, Copy, Debug, PartialEq, Eq, Structural)]
pub enum Threshold {
    /// Passes when the Yes weight reaches the absolute weight given.
    AbsoluteCount { weight: u64 },
    /// Passes when the Yes weight reaches the given fraction of the total
    /// eligible weight, rounded up.
    AbsolutePercentage { percentage: Decimal },
    /// Requires the cast weight to reach `quorum` of the total weight; given
    /// that, passes when the Yes weight reaches `threshold` of the
    /// non-abstaining cast weight, rounded up.
    ThresholdQuorum { threshold: Decimal, quorum: Decimal },
}

impl Threshold {
    /// Every fraction the rule is configured with lies in (0, 1].
    pub open spec fn fractions_valid(self) -> bool {
        match self {
            Threshold::AbsoluteCount { weight: _ } => true,
            Threshold::AbsolutePercentage { percentage } => valid_fraction(percentage),
            Threshold::ThresholdQuorum { threshold, quorum } => valid_fraction(threshold)
                && valid_fraction(quorum),
        }
    }

    /// The weight the rule implies is required, against the given total:
    /// the absolute count itself, or the configured fraction of the total
    /// rounded up (for the quorum rule, the participation it demands).
    pub open spec fn spec_required_weight(self, total_weight: u64) -> int {
        match self {
            Threshold::AbsoluteCount { weight } => weight as int,
            Threshold::AbsolutePercentage { percentage } => spec_votes_needed(
                total_weight as int,
                percentage,
            ),
            Threshold::ThresholdQuorum { threshold: _, quorum } => spec_votes_needed(
                total_weight as int,
                quorum,
            ),
        }
    }

    /// The outcome of validating the rule against the total eligible weight.
    pub open spec fn spec_validate(self, total_weight: u64) -> Result<(), ThresholdError> {
        match self {
            Threshold::AbsoluteCount { weight } => if weight > total_weight {
                Err(ThresholdError::UnreachableWeight)
            } else {
                Ok(())
            },
            Threshold::AbsolutePercentage { percentage } => if !valid_fraction(percentage) {
                Err(ThresholdError::InvalidThreshold)
            } else {
                Ok(())
            },
            Threshold::ThresholdQuorum { threshold, quorum } => if !valid_fraction(threshold)
                || !valid_fraction(quorum) {
                Err(ThresholdError::InvalidThreshold)
            } else {
                Ok(())
            },
        }
    }

    /// Checks, once at creation, that the rule is well formed and satisfiable
    /// against the total eligible weight.
    pub fn validate(&self, total_weight: u64) -> (r: Result<(), ThresholdError>)
        ensures
            r == self.spec_validate(total_weight),
    {
        match self {
            Threshold::AbsoluteCount { weight } => if *weight > total_weight {
                Err(ThresholdError::UnreachableWeight)
            } else {
                Ok(())
            },
            Threshold::AbsolutePercentage { percentage } => if !(0 < percentage.atomics
                && percentage.atomics <= DECIMAL_FRACTIONAL) {
                Err(ThresholdError::InvalidThreshold)
            } else {
                Ok(())
            },
            Threshold::ThresholdQuorum { threshold, quorum } => if !(0 < threshold.atomics
                && threshold.atomics <= DECIMAL_FRACTIONAL) || !(0 < quorum.atomics
                && quorum.atomics <= DECIMAL_FRACTIONAL) {
                Err(ThresholdError::InvalidThreshold)
            } else {
                Ok(())
            },
        }
    }

    /// The rule together with the total weight it is evaluated against, as
    /// exposed to queries.
    pub open spec fn spec_to_response(self, total_weight: u64) -> ThresholdResponse {
        match self {
            Threshold::AbsoluteCount { weight } => ThresholdResponse::AbsoluteCount {
                weight,
                total_weight,
            },
            Threshold::AbsolutePercentage { percentage } => ThresholdResponse::AbsolutePercentage {
                percentage,
                total_weight,
            },
            Threshold::ThresholdQuorum { threshold, quorum } => ThresholdResponse::ThresholdQuorum {
                threshold,
                quorum,
                total_weight,
            },
        }
    }

    /// Converts the rule and the live total-weight snapshot into the query
    /// response, without touching any proposal state.
    pub fn to_response(&self, total_weight: u64) -> (r: ThresholdResponse)
        ensures
            r == self.spec_to_response(total_weight),
    {
        match self {
            Threshold::AbsoluteCount { weight } => ThresholdResponse::AbsoluteCount {
                weight: *weight,
                total_weight,
            },
            Threshold::AbsolutePercentage { percentage } => ThresholdResponse::AbsolutePercentage {
                percentage: *percentage,
                total_weight,
            },
            Threshold::ThresholdQuorum { threshold, quorum } => ThresholdResponse::ThresholdQuorum {
                threshold: *threshold,
                quorum: *quorum,
                total_weight,
            },
        }
    }
}

/// A threshold configuration paired with the total weight it is measured
/// against, the shape in which queries report it.
#[derive(Clone, Copy, Debug, PartialEq, Eq, Structural)]
pub enum ThresholdResponse {
    AbsoluteCount { weight: u64, total_weight: u64 },
    AbsolutePercentage { percentage: Decimal, total_weight: u64 },
    ThresholdQuorum { threshold: Decimal, quorum: Decimal, total_weight: u64 },
}

} // verus!
