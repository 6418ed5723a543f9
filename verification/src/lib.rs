//! Reference library of harmonic-resonance constants and the pure math that
//! operates on them: frequency shifting, golden-ratio arithmetic and
//! detection, and coherence classification.
//!
//! Every quantity is held as an exact fixed-point integer, so that each
//! constant of the reference data is represented exactly and each operation
//! carries an exact arithmetic contract.  Each module states the unit it
//! works in.

use vstd::prelude::*;

pub mod frequencies;
pub mod phi;
pub mod thresholds;

pub use frequencies::{
    harmonic_of, octave_of, schumann_harmonics, solfeggio_frequencies, MaterialFrequency,
    MaterialProperties, A432, A440, SCHUMANN_2ND, SCHUMANN_3RD, SCHUMANN_4TH, SCHUMANN_5TH,
    SCHUMANN_FUNDAMENTAL, SOLFEGGIO_FA, SOLFEGGIO_LA, SOLFEGGIO_MI, SOLFEGGIO_RE, SOLFEGGIO_SOL,
    SOLFEGGIO_UT,
};

pub use phi::{
    fibonacci_ratio, is_phi_ratio, is_phi_ratio_default, E, FIXED_ONE, PHI, PHI_INVERSE,
    PHI_RATIO_TOLERANCE, PHI_SQUARED, PI, SQRT_2, SQRT_3, SQRT_5, TAU,
};

pub use thresholds::{
    coherence_delta, is_coherence_stable, is_coherence_stable_default, normalize_coherence,
    CoherenceBand, CoherenceLevel, COHERENCE_SCALE, HIGH_COHERENCE, LOW_COHERENCE,
    MEDIUM_COHERENCE, MINIMUM_COHERENCE, PEAK_UPPER, STABILITY_THRESHOLD,
};

verus! {

/// Library version identifier.
pub const VERSION: &'static str = "0.1.0";

} // verus!
