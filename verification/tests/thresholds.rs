use ra_constants::thresholds::{
    coherence_delta, is_coherence_stable, is_coherence_stable_default, normalize_coherence,
    CoherenceBand, CoherenceLevel, COHERENCE_SCALE, HIGH_COHERENCE, LOW_COHERENCE,
    MEDIUM_COHERENCE, MINIMUM_COHERENCE, PEAK_UPPER, STABILITY_THRESHOLD,
};

#[test]
fn test_coherence_level_classify() {
    assert_eq!(CoherenceLevel::classify(900), CoherenceLevel::Peak);
    assert_eq!(CoherenceLevel::classify(700), CoherenceLevel::High);
    assert_eq!(CoherenceLevel::classify(400), CoherenceLevel::Medium);
    assert_eq!(CoherenceLevel::classify(200), CoherenceLevel::Low);
    assert_eq!(CoherenceLevel::classify(50), CoherenceLevel::Minimal);
}

#[test]
fn test_normalize_coherence() {
    assert_eq!(normalize_coherence(50_000, 0, 100_000), 500);
    assert_eq!(normalize_coherence(-10_000, 0, 100_000), 0);
    assert_eq!(normalize_coherence(150_000, 0, 100_000), 1000);
}

#[test]
fn test_is_coherence_stable() {
    assert!(is_coherence_stable_default(&[500, 510, 490, 500]));
    assert!(!is_coherence_stable_default(&[100, 900, 100, 900]));
}

#[test]
fn threshold_constants_are_ordered() {
    assert!(MINIMUM_COHERENCE < LOW_COHERENCE);
    assert!(LOW_COHERENCE < MEDIUM_COHERENCE);
    assert!(MEDIUM_COHERENCE < HIGH_COHERENCE);
    assert!(HIGH_COHERENCE < COHERENCE_SCALE);
    assert!(COHERENCE_SCALE < PEAK_UPPER);
}

#[test]
fn classify_band_boundaries() {
    assert_eq!(CoherenceLevel::classify(COHERENCE_SCALE), CoherenceLevel::Peak);
    assert_eq!(CoherenceLevel::classify(HIGH_COHERENCE), CoherenceLevel::Peak);
    assert_eq!(CoherenceLevel::classify(HIGH_COHERENCE - 1), CoherenceLevel::High);
    assert_eq!(CoherenceLevel::classify(MEDIUM_COHERENCE), CoherenceLevel::High);
    assert_eq!(CoherenceLevel::classify(MEDIUM_COHERENCE - 1), CoherenceLevel::Medium);
    assert_eq!(CoherenceLevel::classify(LOW_COHERENCE), CoherenceLevel::Medium);
    assert_eq!(CoherenceLevel::classify(LOW_COHERENCE - 1), CoherenceLevel::Low);
    assert_eq!(CoherenceLevel::classify(MINIMUM_COHERENCE), CoherenceLevel::Low);
    assert_eq!(CoherenceLevel::classify(MINIMUM_COHERENCE - 1), CoherenceLevel::Minimal);
    assert_eq!(CoherenceLevel::classify(0), CoherenceLevel::Minimal);
}

#[test]
fn band_definitions() {
    let peak = CoherenceLevel::Peak.band();
    assert_eq!(peak.lower, HIGH_COHERENCE);
    assert_eq!(peak.upper, PEAK_UPPER);
    assert_eq!(peak.name, "peak");
    let minimal = CoherenceLevel::Minimal.band();
    assert_eq!(minimal.lower, 0);
    assert_eq!(minimal.upper, MINIMUM_COHERENCE);
    assert_eq!(minimal.name, "minimal");
    assert_eq!(CoherenceLevel::High.band().name, "high");
    assert_eq!(CoherenceLevel::Medium.band().name, "medium");
    assert_eq!(CoherenceLevel::Low.band().name, "low");
    assert_eq!(CoherenceLevel::High.lower(), MEDIUM_COHERENCE);
    assert_eq!(CoherenceLevel::High.upper(), HIGH_COHERENCE);
}

#[test]
fn band_contains_is_half_open() {
    let band = CoherenceBand::new(100, 300, "test");
    assert!(band.contains(100));
    assert!(band.contains(299));
    assert!(!band.contains(300));
    assert!(!band.contains(99));
}

#[test]
fn level_contains_matches_band() {
    assert!(CoherenceLevel::Peak.contains(COHERENCE_SCALE));
    assert!(!CoherenceLevel::Peak.contains(HIGH_COHERENCE - 1));
    assert!(CoherenceLevel::Minimal.contains(0));
    assert!(!CoherenceLevel::Minimal.contains(MINIMUM_COHERENCE));
}

#[test]
fn delta_is_signed_difference() {
    assert_eq!(coherence_delta(700, 500), 200);
    assert_eq!(coherence_delta(500, 700), -200);
    assert_eq!(coherence_delta(0, 0), 0);
}

#[test]
fn normalize_saturates_at_range_ends() {
    assert_eq!(normalize_coherence(0, 0, 100_000), 0);
    assert_eq!(normalize_coherence(100_000, 0, 100_000), 1000);
    assert_eq!(normalize_coherence(-500, -1_000, 0), 500);
}

#[test]
fn normalize_rounds_toward_zero() {
    assert_eq!(normalize_coherence(1, 0, 3), 333);
    assert_eq!(normalize_coherence(2, 0, 3), 666);
}

#[test]
fn short_series_are_stable() {
    assert!(is_coherence_stable_default(&[]));
    assert!(is_coherence_stable_default(&[900]));
    assert!(is_coherence_stable(&[], 0));
    assert!(is_coherence_stable(&[123], 0));
}

#[test]
fn stability_boundary_is_inclusive() {
    // Two samples 0 and 100 have a standard deviation of exactly the default
    // threshold of 50; one thousandth more tips the series unstable.
    assert_eq!(STABILITY_THRESHOLD, 50);
    assert!(is_coherence_stable_default(&[0, 100]));
    assert!(!is_coherence_stable_default(&[0, 102]));
}

#[test]
fn constant_series_is_stable_at_zero_threshold() {
    assert!(is_coherence_stable(&[400, 400, 400], 0));
    assert!(!is_coherence_stable(&[400, 400, 401], 0));
}
