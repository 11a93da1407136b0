use chrono::{TimeZone, Utc};
use moontui::phase::{
    calculate_moon_phase, illumination_milli_for, phase_of_fraction, simple_phase_ppm, MoonPhase,
    J2000_UNIX_SEC, KNOWN_NEW_MOON_SEC, SYNODIC_MONTH_MICRO_DAYS, SYNODIC_MONTH_MILLIS,
};

#[test]
fn illumination_close_to_timeanddate_example_2025_12_13_utc() {
    // timeanddate.com shows ~37.1% illumination for Washington DC at Dec 12, 2025 11:46:50 pm local.
    // That corresponds to 2025-12-13 04:46:50 UTC (EST is UTC-5).
    let dt = Utc.with_ymd_and_hms(2025, 12, 13, 4, 46, 50).unwrap();
    let moon = calculate_moon_phase(dt.timestamp());
    let illumination = moon.illumination_milli as f64 / 1000.0;
    let expected = 37.1;
    let diff = (illumination - expected).abs();
    assert!(
        diff <= 6.0,
        "illumination {:.2}% differs too much from expected {:.1}% (diff {:.2}%)",
        illumination,
        expected,
        diff
    );
}

#[test]
fn near_full_moon_is_highly_illuminated_2025_12_04_utc() {
    // timeanddate.com lists Full Moon on Dec 4, 2025 at 6:14 pm (Washington DC).
    // That's 2025-12-04 23:14:00 UTC.
    let dt = Utc.with_ymd_and_hms(2025, 12, 4, 23, 14, 0).unwrap();
    let moon = calculate_moon_phase(dt.timestamp());
    let illumination = moon.illumination_milli as f64 / 1000.0;
    assert!(
        illumination >= 95.0,
        "expected near-full illumination, got {:.2}%",
        illumination
    );
}

#[test]
fn illumination_range_and_endpoints() {
    assert_eq!(illumination_milli_for(0), 0);
    assert_eq!(illumination_milli_for(500000), 100000);
    for ppm in (0..1000000u64).step_by(12345) {
        let v = illumination_milli_for(ppm);
        assert!(v <= 100000, "illumination {} out of range at ppm {}", v, ppm);
    }
}

#[test]
fn illumination_monotone_waxing_then_waning() {
    let mut prev = illumination_milli_for(0);
    for ppm in (0..=500000u64).step_by(2500) {
        let v = illumination_milli_for(ppm);
        assert!(v >= prev, "waxing illumination dropped at ppm {}", ppm);
        prev = v;
    }
    let mut prev = illumination_milli_for(500000);
    for ppm in (500000..1000000u64).step_by(2500) {
        let v = illumination_milli_for(ppm);
        assert!(v <= prev, "waning illumination rose at ppm {}", ppm);
        prev = v;
    }
}

#[test]
fn phase_name_discretization() {
    assert!(matches!(phase_of_fraction(0), MoonPhase::New));
    assert!(matches!(phase_of_fraction(500000), MoonPhase::Full));
    // Exactly one eighth: round half away from zero resolves to the crescent.
    assert!(matches!(phase_of_fraction(125000), MoonPhase::WaxingCrescent));
    assert!(matches!(phase_of_fraction(250000), MoonPhase::FirstQuarter));
    assert!(matches!(phase_of_fraction(375000), MoonPhase::WaxingGibbous));
    assert!(matches!(phase_of_fraction(625000), MoonPhase::WaningGibbous));
    assert!(matches!(phase_of_fraction(750000), MoonPhase::LastQuarter));
    assert!(matches!(phase_of_fraction(875000), MoonPhase::WaningCrescent));
    // Close to wrapping: rounding takes it back to the new moon.
    assert!(matches!(phase_of_fraction(999999), MoonPhase::New));
}

#[test]
fn phase_names_spell_out() {
    assert_eq!(MoonPhase::New.name(), "New Moon");
    assert_eq!(MoonPhase::Full.name(), "Full Moon");
    assert_eq!(MoonPhase::WaxingCrescent.name(), "Waxing Crescent");
    assert_eq!(MoonPhase::LastQuarter.name(), "Last Quarter");
}

#[test]
fn simple_model_reference_new_moon() {
    // At the reference new moon the simple model is exactly at phase zero.
    let ppm = simple_phase_ppm(KNOWN_NEW_MOON_SEC);
    assert_eq!(ppm, 0);
    assert_eq!(illumination_milli_for(ppm), 0);
    // Half a synodic month later the moon is full.
    let half = KNOWN_NEW_MOON_SEC + (SYNODIC_MONTH_MILLIS / 2000) as i64;
    let ppm_half = simple_phase_ppm(half);
    let frac = ppm_half as f64 / 1000000.0;
    assert!((frac - 0.5).abs() < 0.001, "phase fraction {} not near 0.5", frac);
    let ill = illumination_milli_for(ppm_half) as f64 / 1000.0;
    assert!(ill >= 99.9, "expected full illumination, got {:.3}%", ill);
}

#[test]
fn meeus_status_is_consistent() {
    let dt = Utc.with_ymd_and_hms(2025, 12, 13, 4, 46, 50).unwrap();
    let moon = calculate_moon_phase(dt.timestamp());
    assert!(moon.phase_ppm < 1000000);
    assert_eq!(moon.illumination_milli, illumination_milli_for(moon.phase_ppm));
    // age = fraction of the synodic month, in microdays
    assert_eq!(moon.age_micro_days, moon.phase_ppm * SYNODIC_MONTH_MICRO_DAYS / 1000000);
    // A phase fraction near 0.79 is a waning moon between full and last quarter.
    assert!(matches!(moon.phase, MoonPhase::LastQuarter));
}

#[test]
fn j2000_epoch_was_a_waning_crescent() {
    // On 2000-01-01 12:00 UTC the moon was about 23% illuminated and waning.
    let moon = calculate_moon_phase(J2000_UNIX_SEC);
    assert!(matches!(moon.phase, MoonPhase::WaningCrescent));
    let ill = moon.illumination_milli as f64 / 1000.0;
    assert!((ill - 23.0).abs() < 3.0, "unexpected J2000 illumination {:.2}%", ill);
    let age_days = moon.age_micro_days as f64 / 1_000_000.0;
    assert!((age_days - 24.8).abs() < 0.5, "unexpected J2000 age {:.2}", age_days);
}
