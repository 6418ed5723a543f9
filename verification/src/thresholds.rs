//! Coherence thresholds: generic bands for coherence state classification.
//!
//! Coherence is conventionally a value in [0, 1]; this module holds it in
//! thousandths of full scale, so the admissible range is `0..=COHERENCE_SCALE`
//! and every threshold of the reference data is an exact integer.

use vstd::prelude::*;
use vstd::arithmetic::div_mod::{lemma_div_is_ordered, lemma_div_multiples_vanish, lemma_div_pos_is_pos};
use vstd::arithmetic::mul::{lemma_mul_inequality, lemma_mul_upper_bound};

verus! {

/// The coherence value 1.0, in thousandths.
pub const COHERENCE_SCALE: u32 = 1000;

/// High coherence threshold (85%), in thousandths.
pub const HIGH_COHERENCE: u32 = 850;

/// Medium coherence threshold (60%), in thousandths.
pub const MEDIUM_COHERENCE: u32 = 600;

/// Low coherence threshold (30%), in thousandths.
pub const LOW_COHERENCE: u32 = 300;

/// Minimum detectable coherence (10%), in thousandths.
pub const MINIMUM_COHERENCE: u32 = 100;

/// Upper bound of the topmost band, deliberately just above full scale so
/// that the closed endpoint value 1.0 falls inside it.
pub const PEAK_UPPER: u32 = 1010;

/// Definition of a coherence band: a half-open interval in thousandths.
#[derive(Debug, Clone, Copy)]
pub struct CoherenceBand {
    /// Lower bound (inclusive), in thousandths.
    pub lower: u32,
    /// Upper bound (exclusive), in thousandths.
    pub upper: u32,
    /// Human-readable name.
    pub name: &'static str,
}

impl CoherenceBand {
    /// Create a new coherence band.
    pub fn new(lower: u32, upper: u32, name: &'static str) -> (b: Self)
        ensures
            b.lower == lower,
            b.upper == upper,
            b.name == name,
    {
        Self { lower, upper, name }
    }

    /// Check if a value falls within this band: `lower <= value < upper`.
    pub fn contains(&self, value: u32) -> (r: bool)
        ensures
            r == (self.lower <= value < self.upper),
    {
        self.lower <= value && value < self.upper
    }
}

/// Coherence level classification, ordered from highest to lowest.
#[derive(Debug, Clone, Copy, PartialEq, Eq, Structural)]
pub enum CoherenceLevel {
    Peak,
    High,
    Medium,
    Low,
    Minimal,
}

impl CoherenceLevel {
    /// Lower bound of this level's band, in thousandths.
    pub open spec fn spec_lower(self) -> u32 {
        match self {
            CoherenceLevel::Peak => HIGH_COHERENCE,
            CoherenceLevel::High => MEDIUM_COHERENCE,
            CoherenceLevel::Medium => LOW_COHERENCE,
            CoherenceLevel::Low => MINIMUM_COHERENCE,
            CoherenceLevel::Minimal => 0,
        }
    }

    /// Upper bound of this level's band, in thousandths.
    pub open spec fn spec_upper(self) -> u32 {
        match self {
            CoherenceLevel::Peak => PEAK_UPPER,
            CoherenceLevel::High => HIGH_COHERENCE,
            CoherenceLevel::Medium => MEDIUM_COHERENCE,
            CoherenceLevel::Low => LOW_COHERENCE,
            CoherenceLevel::Minimal => MINIMUM_COHERENCE,
        }
    }

    /// Get the band definition for this level.
    pub fn band(&self) -> (b: CoherenceBand)
        ensures
            b.lower == self.spec_lower(),
            b.upper == self.spec_upper(),
    {
        match self {
            CoherenceLevel::Peak => CoherenceBand::new(HIGH_COHERENCE, PEAK_UPPER, "peak"),
            CoherenceLevel::High => CoherenceBand::new(MEDIUM_COHERENCE, HIGH_COHERENCE, "high"),
            CoherenceLevel::Medium => CoherenceBand::new(LOW_COHERENCE, MEDIUM_COHERENCE, "medium"),
            CoherenceLevel::Low => CoherenceBand::new(MINIMUM_COHERENCE, LOW_COHERENCE, "low"),
            CoherenceLevel::Minimal => CoherenceBand::new(0, MINIMUM_COHERENCE, "minimal"),
        }
    }

    /// Get the lower bound of this level's band, in thousandths.
    pub fn lower(&self) -> (r: u32)
        ensures
            r == self.spec_lower(),
    {
        self.band().lower
    }

    /// Get the upper bound of this level's band, in thousandths.
    pub fn upper(&self) -> (r: u32)
        ensures
            r == self.spec_upper(),
    {
        self.band().upper
    }

    /// The level whose band contains the value, bands checked from Peak down.
    pub open spec fn spec_classify(value: u32) -> CoherenceLevel {
        if value >= HIGH_COHERENCE {
            CoherenceLevel::Peak
        } else if value >= MEDIUM_COHERENCE {
            CoherenceLevel::High
        } else if value >= LOW_COHERENCE {
            CoherenceLevel::Medium
        } else if value >= MINIMUM_COHERENCE {
            CoherenceLevel::Low
        } else {
            CoherenceLevel::Minimal
        }
    }

    /// Classify a coherence value (in thousandths of full scale) into a
    /// level; the value must lie in the admissible range `0..=COHERENCE_SCALE`.
    pub fn classify(value: u32) -> (r: Self)
        requires
            value <= COHERENCE_SCALE,
        ensures
            r == Self::spec_classify(value),
            r.spec_lower() <= value < r.spec_upper(),
    {
        let peak = CoherenceLevel::Peak;
        if peak.band().contains(value) {
            return peak;
        }
        let high = CoherenceLevel::High;
        if high.band().contains(value) {
            return high;
        }
        let medium = CoherenceLevel::Medium;
        if medium.band().contains(value) {
            return medium;
        }
        let low = CoherenceLevel::Low;
        if low.band().contains(value) {
            return low;
        }
        let minimal = CoherenceLevel::Minimal;
        if minimal.band().contains(value) {
            return minimal;
        }
        // Defensive fallback; unreachable for values within the admissible range.
        CoherenceLevel::Peak
    }

    /// Check if a value (in thousandths) falls within this level's band.
    pub fn contains(&self, value: u32) -> (r: bool)
        ensures
            r == (self.spec_lower() <= value < self.spec_upper()),
    {
        self.band().contains(value)
    }
}

/// Each admissible value is classified into exactly the band that holds it:
/// the five bands cover the admissible range without gaps or overlaps.
pub proof fn lemma_classify_bands(value: u32)
    requires
        value <= COHERENCE_SCALE,
    ensures
        (CoherenceLevel::spec_classify(value) == CoherenceLevel::Peak <==> HIGH_COHERENCE <= value),
        (CoherenceLevel::spec_classify(value) == CoherenceLevel::High <==> MEDIUM_COHERENCE <= value < HIGH_COHERENCE),
        (CoherenceLevel::spec_classify(value) == CoherenceLevel::Medium <==> LOW_COHERENCE <= value < MEDIUM_COHERENCE),
        (CoherenceLevel::spec_classify(value) == CoherenceLevel::Low <==> MINIMUM_COHERENCE <= value < LOW_COHERENCE),
        (CoherenceLevel::spec_classify(value) == CoherenceLevel::Minimal <==> value < MINIMUM_COHERENCE),
{
}

/// The five bands partition the admissible range contiguously: each band's
/// upper bound is the next band's lower bound, the lowest band starts at
/// zero, and the topmost band reaches past full scale so that the closed
/// endpoint is classifiable.
pub proof fn lemma_bands_partition()
    ensures
        CoherenceLevel::Minimal.spec_lower() == 0,
        CoherenceLevel::Minimal.spec_upper() == CoherenceLevel::Low.spec_lower(),
        CoherenceLevel::Low.spec_upper() == CoherenceLevel::Medium.spec_lower(),
        CoherenceLevel::Medium.spec_upper() == CoherenceLevel::High.spec_lower(),
        CoherenceLevel::High.spec_upper() == CoherenceLevel::Peak.spec_lower(),
        CoherenceLevel::Peak.spec_upper() > COHERENCE_SCALE,
        forall|l: CoherenceLevel| #[trigger] l.spec_lower() < l.spec_upper(),
{
    assert forall|l: CoherenceLevel| #[trigger] l.spec_lower() < l.spec_upper() by {
        match l {
            CoherenceLevel::Peak => {},
            CoherenceLevel::High => {},
            CoherenceLevel::Medium => {},
            CoherenceLevel::Low => {},
            CoherenceLevel::Minimal => {},
        }
    }
}

/// `value` rescaled linearly from [min_val, max_val] onto the coherence
/// scale, saturating at the ends; the quotient rounds toward zero.
pub open spec fn normalize_spec(value: int, min_val: int, max_val: int) -> int {
    let clamped = if value < min_val {
        min_val
    } else if value > max_val {
        max_val
    } else {
        value
    };
    (clamped - min_val) * COHERENCE_SCALE / (max_val - min_val)
}

/// Normalize a value (in thousandths) from the range [min_val, max_val] to
/// the coherence range `0..=COHERENCE_SCALE`; inputs outside the source
/// range saturate rather than extrapolate.
pub fn normalize_coherence(value: i64, min_val: i64, max_val: i64) -> (r: u32)
    requires
        min_val < max_val,
    ensures
        r == normalize_spec(value as int, min_val as int, max_val as int),
        r <= COHERENCE_SCALE,
{
    let clamped: i64 = if value < min_val {
        min_val
    } else if value > max_val {
        max_val
    } else {
        value
    };
    let num: u128 = ((clamped as i128 - min_val as i128) as u128) * (COHERENCE_SCALE as u128);
    let den: u128 = (max_val as i128 - min_val as i128) as u128;
    proof {
        let diff = clamped - min_val;
        let span = max_val - min_val;
        lemma_mul_inequality(diff as int, span as int, COHERENCE_SCALE as int);
        lemma_div_is_ordered(diff * COHERENCE_SCALE, span * COHERENCE_SCALE, span as int);
        lemma_div_multiples_vanish(COHERENCE_SCALE as int, span as int);
        lemma_div_pos_is_pos(diff * COHERENCE_SCALE, span as int);
    }
    let q: u128 = num / den;
    q as u32
}

/// The change in coherence between two measurements, in thousandths;
/// positive means increasing coherence.
pub fn coherence_delta(current: i64, previous: i64) -> (r: i64)
    requires
        i64::MIN <= current - previous <= i64::MAX,
    ensures
        r == current - previous,
{
    current - previous
}

/// Sum of a series of coherence values.
pub open spec fn sum_of(s: Seq<u32>) -> int
    decreases s.len(),
{
    if s.len() == 0 {
        0
    } else {
        sum_of(s.drop_last()) + s.last()
    }
}

/// Sum of squares of a series of coherence values.
pub open spec fn sum_sq_of(s: Seq<u32>) -> int
    decreases s.len(),
{
    if s.len() == 0 {
        0
    } else {
        sum_sq_of(s.drop_last()) + s.last() * s.last()
    }
}

/// Stability of a series: fewer than two samples, or population standard
/// deviation at most the threshold.  Stated exactly over the integers,
/// cleared of the n-squared denominator: n * sum(x^2) - sum(x)^2 <= n^2 * t^2.
pub open spec fn stable_spec(s: Seq<u32>, threshold: int) -> bool {
    s.len() < 2 || s.len() * sum_sq_of(s) - sum_of(s) * sum_of(s) <= s.len() * s.len() * (
    threshold * threshold)
}

/// Check if a series of coherence measurements (in thousandths) is stable:
/// its population standard deviation is at most `threshold` (in thousandths).
pub fn is_coherence_stable(values: &[u32], threshold: u32) -> (r: bool)
    requires
        values@.len() < 0x8000_0000,
    ensures
        r == stable_spec(values@, threshold as int),
{
    let n = values.len();
    if n < 2 {
        return true;
    }
    let mut sum: u64 = 0;
    let mut sum_sq: u128 = 0;
    let mut i: usize = 0;
    while i < n
        invariant
            i <= n,
            n == values@.len(),
            n < 0x8000_0000,
            sum == sum_of(values@.take(i as int)),
            sum_sq == sum_sq_of(values@.take(i as int)),
            sum <= (i as int) * 0xffff_ffff,
            sum_sq <= (i as int) * 0xffff_ffff_ffff_ffff,
        decreases n - i,
    {
        let x = values[i];
        proof {
            assert(values@.take(i as int + 1).drop_last() =~= values@.take(i as int));
            assert((x as int) * (x as int) < 0x1_0000_0000_0000_0000) by (nonlinear_arith)
                requires
                    x < 0x1_0000_0000,
            ;
        }
        sum = sum + (x as u64);
        sum_sq = sum_sq + (x as u128) * (x as u128);
        i = i + 1;
    }
    proof {
        assert(values@.take(n as int) =~= values@);
        let ni = n as int;
        let ssq = sum_sq as int;
        let si = sum as int;
        let ti = threshold as int;
        lemma_mul_upper_bound(ni, 0x8000_0000, ssq, 0x8000_0000int * 0xffff_ffff_ffff_ffff);
        lemma_mul_upper_bound(si, 0x8000_0000int * 0xffff_ffff, si, 0x8000_0000int * 0xffff_ffff);
        lemma_mul_upper_bound(ni, 0x8000_0000, ni, 0x8000_0000);
        lemma_mul_upper_bound(ti, 0xffff_ffff, ti, 0xffff_ffff);
        lemma_mul_upper_bound(
            ni * ni,
            0x8000_0000int * 0x8000_0000,
            ti * ti,
            0xffff_ffffint * 0xffff_ffff,
        );
    }
    let nn: u128 = n as u128;
    let lhs: u128 = nn * sum_sq;
    let s_sq: u128 = (sum as u128) * (sum as u128);
    let t128: u128 = threshold as u128;
    let rhs: u128 = (nn * nn) * (t128 * t128);
    lhs <= rhs + s_sq
}

/// Default stability threshold (0.05, in thousandths).
pub const STABILITY_THRESHOLD: u32 = 50;

/// Check if a series of coherence measurements is stable with the default
/// threshold.
pub fn is_coherence_stable_default(values: &[u32]) -> (r: bool)
    requires
        values@.len() < 0x8000_0000,
    ensures
        r == stable_spec(values@, STABILITY_THRESHOLD as int),
{
    is_coherence_stable(values, STABILITY_THRESHOLD)
}

/// A series of fewer than two samples is always stable, whatever the
/// threshold.
pub proof fn lemma_short_series_stable(s: Seq<u32>, threshold: int)
    requires
        s.len() < 2,
    ensures
        stable_spec(s, threshold),
{
}

} // verus!
