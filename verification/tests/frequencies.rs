use ra_constants::frequencies::{
    harmonic_of, octave_of, schumann_harmonics, solfeggio_frequencies, MaterialFrequency,
    MaterialProperties, A432, A440, SCHUMANN_5TH, SCHUMANN_FUNDAMENTAL, SOLFEGGIO_MI,
};
use ra_constants::VERSION;

#[test]
fn test_schumann_harmonics() {
    let harmonics = schumann_harmonics();
    assert_eq!(harmonics.len(), 5);
    assert_eq!(harmonics[0], SCHUMANN_FUNDAMENTAL);
}

#[test]
fn test_material_frequency() {
    assert_eq!(MaterialFrequency::Quartz.frequency(), 32_768_000);
    assert_eq!(MaterialFrequency::Gold.alpha_affinity(), 950);
}

#[test]
fn test_octave_of() {
    assert_eq!(octave_of(440_000, 1), 880_000);
    assert_eq!(octave_of(440_000, -1), 220_000);
}

#[test]
fn test_harmonic_of() {
    assert_eq!(harmonic_of(100_000, 2), 200_000);
    assert_eq!(harmonic_of(100_000, 3), 300_000);
}

#[test]
fn schumann_table_values() {
    let harmonics = schumann_harmonics();
    assert_eq!(harmonics, vec![7_830, 14_300, 20_800, 27_300, 33_800]);
    assert_eq!(harmonics[4], SCHUMANN_5TH);
}

#[test]
fn solfeggio_table_values() {
    let tones = solfeggio_frequencies();
    assert_eq!(tones, vec![396_000, 417_000, 528_000, 639_000, 741_000, 852_000]);
    assert_eq!(tones[2], SOLFEGGIO_MI);
}

#[test]
fn concert_pitches() {
    assert_eq!(A432, 432_000);
    assert_eq!(A440, 440_000);
}

#[test]
fn octave_zero_shift_is_identity() {
    assert_eq!(octave_of(SCHUMANN_FUNDAMENTAL, 0), SCHUMANN_FUNDAMENTAL);
}

#[test]
fn octave_shift_rounds_down() {
    // 7830 mHz two octaves down: 7830 / 4 = 1957.5, rounded toward zero.
    assert_eq!(octave_of(SCHUMANN_FUNDAMENTAL, -2), 1_957);
}

#[test]
fn octave_deep_downshift_reaches_zero() {
    assert_eq!(octave_of(1, -1), 0);
    assert_eq!(octave_of(440_000, -64), 0);
    assert_eq!(octave_of(440_000, -100), 0);
}

#[test]
fn octave_round_trip_on_even_values() {
    let shifted = octave_of(A440, 3);
    assert_eq!(shifted, 3_520_000);
    assert_eq!(octave_of(shifted, -3), A440);
}

#[test]
fn harmonic_one_is_fundamental() {
    assert_eq!(harmonic_of(A432, 1), A432);
}

#[test]
fn material_properties_new_keeps_fields() {
    let p = MaterialProperties::new(1_000, 250, 750);
    assert_eq!(p.frequency, 1_000);
    assert_eq!(p.alpha_affinity, 250);
    assert_eq!(p.conductivity, 750);
}

#[test]
fn material_table_is_consistent() {
    let materials = [
        MaterialFrequency::Quartz,
        MaterialFrequency::Gold,
        MaterialFrequency::Silver,
        MaterialFrequency::Copper,
        MaterialFrequency::Iron,
        MaterialFrequency::Obsidian,
        MaterialFrequency::Granite,
        MaterialFrequency::Limestone,
    ];
    for m in materials {
        let p = m.properties();
        assert_eq!(m.frequency(), p.frequency);
        assert_eq!(m.alpha_affinity(), p.alpha_affinity);
        assert_eq!(m.conductivity(), p.conductivity);
        assert!(p.frequency > 0);
        assert!(p.alpha_affinity <= 1000);
        assert!(p.conductivity <= 1000);
    }
    assert_eq!(MaterialFrequency::Limestone.frequency(), 2_048_000);
    assert_eq!(MaterialFrequency::Obsidian.conductivity(), 100);
}

#[test]
fn version_string() {
    assert_eq!(VERSION, "0.1.0");
}
