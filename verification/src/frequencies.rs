//! Frequency constants and harmonic math.
//!
//! All frequencies in this module are exact integers in millihertz
//! (1 Hz = 1000 mHz); material affinity and conductivity factors are in
//! thousandths of full scale.

use vstd::prelude::*;
use vstd::arithmetic::power2::{pow2, lemma_pow2_pos, lemma_pow2_strictly_increases, lemma2_to64, lemma2_to64_rest};
use vstd::arithmetic::div_mod::{lemma_basic_div, lemma_div_by_multiple, lemma_fundamental_div_mod};
use vstd::arithmetic::mul::{lemma_mul_inequality, lemma_mul_is_commutative};
use vstd::bits::{lemma_u64_shl_is_mul, lemma_u64_shr_is_div};

verus! {

/// Schumann resonance fundamental frequency (millihertz).
pub const SCHUMANN_FUNDAMENTAL: u64 = 7_830;

/// Second Schumann harmonic (millihertz).
pub const SCHUMANN_2ND: u64 = 14_300;

/// Third Schumann harmonic (millihertz).
pub const SCHUMANN_3RD: u64 = 20_800;

/// Fourth Schumann harmonic (millihertz).
pub const SCHUMANN_4TH: u64 = 27_300;

/// Fifth Schumann harmonic (millihertz).
pub const SCHUMANN_5TH: u64 = 33_800;

/// Concert pitch A at 432 Hz, in millihertz (natural/Verdi tuning).
pub const A432: u64 = 432_000;

/// Concert pitch A at 440 Hz, in millihertz (ISO 16 standard).
pub const A440: u64 = 440_000;

/// Ut (Do) - Liberation from fear and guilt (millihertz).
pub const SOLFEGGIO_UT: u64 = 396_000;

/// Re - Facilitating change, undoing situations (millihertz).
pub const SOLFEGGIO_RE: u64 = 417_000;

/// Mi - Transformation, miracles, DNA repair (millihertz).
pub const SOLFEGGIO_MI: u64 = 528_000;

/// Fa - Connecting relationships, harmony (millihertz).
pub const SOLFEGGIO_FA: u64 = 639_000;

/// Sol - Awakening intuition, expression (millihertz).
pub const SOLFEGGIO_SOL: u64 = 741_000;

/// La - Returning to spiritual order (millihertz).
pub const SOLFEGGIO_LA: u64 = 852_000;

/// All Schumann harmonics, fundamental first.
pub fn schumann_harmonics() -> (v: Vec<u64>)
    ensures
        v@ == seq![SCHUMANN_FUNDAMENTAL, SCHUMANN_2ND, SCHUMANN_3RD, SCHUMANN_4TH, SCHUMANN_5TH],
{
    let mut v: Vec<u64> = Vec::new();
    v.push(SCHUMANN_FUNDAMENTAL);
    v.push(SCHUMANN_2ND);
    v.push(SCHUMANN_3RD);
    v.push(SCHUMANN_4TH);
    v.push(SCHUMANN_5TH);
    proof {
        assert(v@ =~= seq![SCHUMANN_FUNDAMENTAL, SCHUMANN_2ND, SCHUMANN_3RD, SCHUMANN_4TH, SCHUMANN_5TH]);
    }
    v
}

/// All Solfeggio frequencies, lowest first.
pub fn solfeggio_frequencies() -> (v: Vec<u64>)
    ensures
        v@ == seq![SOLFEGGIO_UT, SOLFEGGIO_RE, SOLFEGGIO_MI, SOLFEGGIO_FA, SOLFEGGIO_SOL, SOLFEGGIO_LA],
{
    let mut v: Vec<u64> = Vec::new();
    v.push(SOLFEGGIO_UT);
    v.push(SOLFEGGIO_RE);
    v.push(SOLFEGGIO_MI);
    v.push(SOLFEGGIO_FA);
    v.push(SOLFEGGIO_SOL);
    v.push(SOLFEGGIO_LA);
    proof {
        assert(v@ =~= seq![SOLFEGGIO_UT, SOLFEGGIO_RE, SOLFEGGIO_MI, SOLFEGGIO_FA, SOLFEGGIO_SOL, SOLFEGGIO_LA]);
    }
    v
}

/// Properties of a resonant material: base frequency in millihertz, and
/// affinity and conductivity factors in thousandths of full scale.
#[derive(Debug, Clone, Copy, PartialEq, Eq, Structural)]
pub struct MaterialProperties {
    /// Base frequency in millihertz.
    pub frequency: u64,
    /// Coherence affinity, in thousandths (0..=1000).
    pub alpha_affinity: u32,
    /// Electrical/energetic conductivity, in thousandths (0..=1000).
    pub conductivity: u32,
}

impl MaterialProperties {
    /// Well-formed: positive frequency, affinity and conductivity within scale.
    pub open spec fn wf(self) -> bool {
        self.frequency > 0 && self.alpha_affinity <= 1000 && self.conductivity <= 1000
    }

    /// Create new material properties.
    pub fn new(frequency: u64, alpha_affinity: u32, conductivity: u32) -> (p: Self)
        requires
            frequency > 0,
            alpha_affinity <= 1000,
            conductivity <= 1000,
        ensures
            p.frequency == frequency,
            p.alpha_affinity == alpha_affinity,
            p.conductivity == conductivity,
            p.wf(),
    {
        Self { frequency, alpha_affinity, conductivity }
    }
}

/// Material resonance frequencies and properties.
#[derive(Debug, Clone, Copy, PartialEq, Eq, Structural)]
pub enum MaterialFrequency {
    Quartz,
    Gold,
    Silver,
    Copper,
    Iron,
    Obsidian,
    Granite,
    Limestone,
}

impl MaterialFrequency {
    /// The reference property table: each material maps to exactly one record.
    pub open spec fn spec_properties(self) -> MaterialProperties {
        match self {
            MaterialFrequency::Quartz => MaterialProperties { frequency: 32_768_000, alpha_affinity: 900, conductivity: 300 },
            MaterialFrequency::Gold => MaterialProperties { frequency: 24_576_000, alpha_affinity: 950, conductivity: 950 },
            MaterialFrequency::Silver => MaterialProperties { frequency: 20_480_000, alpha_affinity: 850, conductivity: 900 },
            MaterialFrequency::Copper => MaterialProperties { frequency: 16_384_000, alpha_affinity: 800, conductivity: 850 },
            MaterialFrequency::Iron => MaterialProperties { frequency: 12_288_000, alpha_affinity: 600, conductivity: 500 },
            MaterialFrequency::Obsidian => MaterialProperties { frequency: 8_192_000, alpha_affinity: 700, conductivity: 100 },
            MaterialFrequency::Granite => MaterialProperties { frequency: 4_096_000, alpha_affinity: 500, conductivity: 50 },
            MaterialFrequency::Limestone => MaterialProperties { frequency: 2_048_000, alpha_affinity: 400, conductivity: 20 },
        }
    }

    /// Get the properties for this material.
    pub fn properties(&self) -> (p: MaterialProperties)
        ensures
            p == self.spec_properties(),
            p.wf(),
    {
        match self {
            MaterialFrequency::Quartz => MaterialProperties::new(32_768_000, 900, 300),
            MaterialFrequency::Gold => MaterialProperties::new(24_576_000, 950, 950),
            MaterialFrequency::Silver => MaterialProperties::new(20_480_000, 850, 900),
            MaterialFrequency::Copper => MaterialProperties::new(16_384_000, 800, 850),
            MaterialFrequency::Iron => MaterialProperties::new(12_288_000, 600, 500),
            MaterialFrequency::Obsidian => MaterialProperties::new(8_192_000, 700, 100),
            MaterialFrequency::Granite => MaterialProperties::new(4_096_000, 500, 50),
            MaterialFrequency::Limestone => MaterialProperties::new(2_048_000, 400, 20),
        }
    }

    /// Get the base resonance frequency in millihertz.
    pub fn frequency(&self) -> (f: u64)
        ensures
            f == self.spec_properties().frequency,
    {
        self.properties().frequency
    }

    /// Get the alpha/coherence affinity in thousandths (0..=1000).
    pub fn alpha_affinity(&self) -> (a: u32)
        ensures
            a == self.spec_properties().alpha_affinity,
    {
        self.properties().alpha_affinity
    }

    /// Get the conductivity factor in thousandths (0..=1000).
    pub fn conductivity(&self) -> (c: u32)
        ensures
            c == self.spec_properties().conductivity,
    {
        self.properties().conductivity
    }
}

/// A frequency shifted by a number of octaves: multiplied by `2^octaves`,
/// with downward shifts rounding the millihertz value toward zero.
pub open spec fn octave_spec(frequency: int, octaves: int) -> int {
    if octaves >= 0 {
        frequency * pow2(octaves as nat)
    } else {
        frequency / (pow2((-octaves) as nat) as int)
    }
}

/// Calculate frequency shifted by octaves (positive = up, negative = down).
pub fn octave_of(frequency: u64, octaves: i32) -> (r: u64)
    requires
        octaves >= 0 ==> frequency * pow2(octaves as nat) <= u64::MAX,
    ensures
        r == octave_spec(frequency as int, octaves as int),
{
    if octaves >= 0 {
        if frequency == 0 {
            return 0;
        }
        proof {
            if octaves >= 64 {
                lemma2_to64_rest();
                if octaves > 64 {
                    lemma_pow2_strictly_increases(64, octaves as nat);
                }
                lemma_mul_inequality(1, frequency as int, pow2(octaves as nat) as int);
            }
        }
        let shift: u64 = octaves as u64;
        proof {
            lemma_u64_shl_is_mul(frequency, shift);
        }
        frequency << shift
    } else {
        let down: i64 = -(octaves as i64);
        if down >= 64 {
            proof {
                lemma2_to64_rest();
                if down > 64 {
                    lemma_pow2_strictly_increases(64, down as nat);
                }
                lemma_basic_div(frequency as int, pow2(down as nat) as int);
            }
            0
        } else {
            let shift: u64 = down as u64;
            proof {
                lemma_u64_shr_is_div(frequency, shift);
            }
            frequency >> shift
        }
    }
}

/// Shifting by `octaves` and back is the identity, provided the shift is
/// exact: no overflow going up and no lost remainder going down.
pub proof fn lemma_octave_round_trip(frequency: int, octaves: int)
    requires
        frequency >= 0,
        octaves < 0 ==> frequency % (pow2((-octaves) as nat) as int) == 0,
    ensures
        octave_spec(octave_spec(frequency, octaves), -octaves) == frequency,
{
    if octaves == 0 {
        lemma2_to64();
    } else if octaves > 0 {
        let p = pow2(octaves as nat) as int;
        lemma_pow2_pos(octaves as nat);
        lemma_div_by_multiple(frequency, p);
    } else {
        let p = pow2((-octaves) as nat) as int;
        lemma_pow2_pos((-octaves) as nat);
        lemma_fundamental_div_mod(frequency, p);
        assert(frequency == p * (frequency / p));
        lemma_mul_is_commutative(frequency / p, p);
        assert((frequency / p) * p == frequency);
    }
}

/// Calculate the nth harmonic of a frequency: the exact product of the
/// fundamental (millihertz) and the harmonic number.
pub fn harmonic_of(frequency: u64, harmonic: u32) -> (r: u64)
    requires
        harmonic >= 1,
        frequency * harmonic <= u64::MAX,
    ensures
        r == frequency * harmonic,
{
    frequency * (harmonic as u64)
}

} // verus!
