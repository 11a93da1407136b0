//! Moon phase calculation.
//!
//! A timestamp (Unix seconds, UTC) is turned into a phase fraction of the
//! synodic cycle (0 = new moon, 1/2 = full moon, wrapping at 1), an
//! illuminated percentage, an age in days and a named phase.
//!
//! Two models are provided:
//! - a Meeus-style trigonometric approximation: the Sun's and the Moon's
//!   ecliptic longitudes are computed from their mean elements plus periodic
//!   correction terms, and the phase fraction is their elongation over a
//!   full turn;
//! - a simple model: elapsed time since a reference new moon, modulo the
//!   mean synodic month.
//!
//! All arithmetic is fixed point: angles in microdegrees or millidegrees,
//! fractions in millionths.  The phase fraction is expressed in ppm
//! (millionths of a cycle, `0..1_000_000`) and the illumination in
//! milli-percent (`0..=100_000`).

use vstd::prelude::*;
use vstd::arithmetic::div_mod::{lemma_div_is_ordered, lemma_small_mod};
use crate::trig::{
    rem_euclid_i128, sin_mdeg, cos_mdeg, spec_sin_mdeg, spec_cos_mdeg, lemma_sin_half_bounds,
    lemma_cos_mdeg_bounds, lemma_cos_antitone_first_half, lemma_cos_monotone_second_half,
};

verus! {

/// Mean synodic month (29.53058867 days) in microdays.
pub const SYNODIC_MONTH_MICRO_DAYS: u64 = 29_530_589;

/// Mean synodic month in milliseconds.
pub const SYNODIC_MONTH_MILLIS: u64 = 2_551_442_861;

/// A reference new moon: 1970-01-07 20:35:00 UTC, as Unix seconds.
pub const KNOWN_NEW_MOON_SEC: i64 = 592_500;

/// The J2000.0 epoch (2000-01-01 12:00:00 UTC) as Unix seconds.
pub const J2000_UNIX_SEC: i64 = 946_728_000;

#[derive(Clone, Copy, Debug, PartialEq, Eq, Structural)]
pub enum MoonPhase {
    New,
    WaxingCrescent,
    FirstQuarter,
    WaxingGibbous,
    Full,
    WaningGibbous,
    LastQuarter,
    WaningCrescent,
}

pub open spec fn spec_phase_label(p: MoonPhase) -> Seq<char> {
    match p {
        MoonPhase::New => "New Moon"@,
        MoonPhase::WaxingCrescent => "Waxing Crescent"@,
        MoonPhase::FirstQuarter => "First Quarter"@,
        MoonPhase::WaxingGibbous => "Waxing Gibbous"@,
        MoonPhase::Full => "Full Moon"@,
        MoonPhase::WaningGibbous => "Waning Gibbous"@,
        MoonPhase::LastQuarter => "Last Quarter"@,
        MoonPhase::WaningCrescent => "Waning Crescent"@,
    }
}

impl MoonPhase {
    /// The English display name of the phase.
    pub fn name(&self) -> (r: &'static str)
        ensures
            r@ == spec_phase_label(*self),
    {
        match self {
            MoonPhase::New => "New Moon",
            MoonPhase::WaxingCrescent => "Waxing Crescent",
            MoonPhase::FirstQuarter => "First Quarter",
            MoonPhase::WaxingGibbous => "Waxing Gibbous",
            MoonPhase::Full => "Full Moon",
            MoonPhase::WaningGibbous => "Waning Gibbous",
            MoonPhase::LastQuarter => "Last Quarter",
            MoonPhase::WaningCrescent => "Waning Crescent",
        }
    }
}

/// The result of a phase computation.
pub struct MoonStatus {
    pub phase: MoonPhase,
    /// Phase fraction in millionths of a synodic cycle, `0..1_000_000`.
    pub phase_ppm: u64,
    /// Age of the moon in microdays (display quantity).
    pub age_micro_days: u64,
    /// Illuminated fraction of the disc in milli-percent, `0..=100_000`.
    pub illumination_milli: u64,
}

// ---------------------------------------------------------------------------
// Specification of the Meeus-style pipeline.
// ---------------------------------------------------------------------------

/// A mean orbital element in microdegrees, normalized to `[0, 360_000_000)`.
/// `base_udeg` is the value at J2000.0 in microdegrees; `rate7` is the daily
/// rate in 1e-7 degrees per day; `s` is seconds since J2000.0.
pub open spec fn spec_mean_element_udeg(base_udeg: int, rate7: int, s: int) -> int {
    ((base_udeg * 864000 + rate7 * s) % 311040000000000) / 864000
}

/// An angle combination in microdegrees normalized to `[0, 360_000_000)`.
pub open spec fn spec_norm_udeg(x: int) -> int {
    x % 360000000
}

/// The sine (scaled by 1e6) of an angle given in microdegrees.
pub open spec fn spec_sin_of_udeg(u: int) -> int {
    spec_sin_mdeg(u / 1000)
}

/// The Sun's apparent ecliptic longitude in microdegrees.
pub open spec fn spec_sun_longitude_udeg(s: int) -> int {
    let l0 = spec_mean_element_udeg(280460000, 9856474, s);
    let g = spec_mean_element_udeg(357528000, 9856003, s);
    let scaled = l0 * 1000000 + 1915000 * spec_sin_of_udeg(g) + 20000 * spec_sin_of_udeg(
        spec_norm_udeg(2 * g),
    );
    (scaled % 360000000000000) / 1000000
}

/// The Moon's ecliptic longitude in microdegrees, from the mean longitude
/// plus fourteen periodic correction terms.
pub open spec fn spec_moon_longitude_udeg(s: int) -> int {
    let l = spec_mean_element_udeg(218316000, 131763960, s);
    let mm = spec_mean_element_udeg(134963000, 130649930, s);
    let d = spec_mean_element_udeg(297850000, 121907490, s);
    let f = spec_mean_element_udeg(93272000, 132293500, s);
    let g = spec_mean_element_udeg(357528000, 9856003, s);
    let scaled = l * 1000000 + 6289000 * spec_sin_of_udeg(mm) + 1274000 * spec_sin_of_udeg(
        spec_norm_udeg(2 * d - mm),
    ) + 658000 * spec_sin_of_udeg(spec_norm_udeg(2 * d)) + 214000 * spec_sin_of_udeg(
        spec_norm_udeg(2 * mm),
    ) - 186000 * spec_sin_of_udeg(g) - 59000 * spec_sin_of_udeg(spec_norm_udeg(2 * d - 2 * mm))
        - 57000 * spec_sin_of_udeg(spec_norm_udeg(2 * d - mm - g)) + 53000 * spec_sin_of_udeg(
        spec_norm_udeg(2 * d + mm),
    ) + 46000 * spec_sin_of_udeg(spec_norm_udeg(2 * d - g)) + 41000 * spec_sin_of_udeg(
        spec_norm_udeg(mm - g),
    ) - 35000 * spec_sin_of_udeg(d) - 31000 * spec_sin_of_udeg(spec_norm_udeg(mm + g)) - 15000
        * spec_sin_of_udeg(spec_norm_udeg(2 * f - 2 * d)) + 11000 * spec_sin_of_udeg(
        spec_norm_udeg(2 * d - 4 * mm),
    );
    (scaled % 360000000000000) / 1000000
}

/// Elongation of the Moon from the Sun in microdegrees, `[0, 360_000_000)`.
pub open spec fn spec_elongation_udeg(s: int) -> int {
    (spec_moon_longitude_udeg(s) - spec_sun_longitude_udeg(s)) % 360000000
}

/// Meeus-model phase fraction in ppm of a cycle for a Unix timestamp.
pub open spec fn spec_phase_ppm(unix_sec: int) -> int {
    spec_elongation_udeg(unix_sec - 946728000) / 360
}

/// Simple-model phase fraction in ppm: elapsed time since the reference new
/// moon, modulo the mean synodic month.
pub open spec fn spec_simple_phase_ppm(unix_sec: int) -> int {
    (((unix_sec - 592500) * 1000) % 2551442861) * 1000000 / 2551442861
}

/// The phase angle in millidegrees corresponding to a phase fraction.
pub open spec fn spec_phase_angle_mdeg(ppm: int) -> int {
    ppm * 360000 / 1000000
}

/// Illumination in milli-percent: `50 * (1 - cos(angle))` percent.
pub open spec fn spec_illumination_milli(ppm: int) -> int {
    50000 * (1000000 - spec_cos_mdeg(spec_phase_angle_mdeg(ppm))) / 1000000
}

/// Age of the moon in microdays for a phase fraction.
pub open spec fn spec_age_micro_days(ppm: int) -> int {
    ppm * 29530589 / 1000000
}

/// The named phase: the fraction times eight, rounded half away from zero,
/// modulo eight.
pub open spec fn spec_phase_index(ppm: int) -> int {
    ((ppm * 8 + 500000) / 1000000) % 8
}

pub open spec fn spec_phase_of_fraction(ppm: int) -> MoonPhase {
    let idx = spec_phase_index(ppm);
    if idx == 0 {
        MoonPhase::New
    } else if idx == 1 {
        MoonPhase::WaxingCrescent
    } else if idx == 2 {
        MoonPhase::FirstQuarter
    } else if idx == 3 {
        MoonPhase::WaxingGibbous
    } else if idx == 4 {
        MoonPhase::Full
    } else if idx == 5 {
        MoonPhase::WaningGibbous
    } else if idx == 6 {
        MoonPhase::LastQuarter
    } else {
        MoonPhase::WaningCrescent
    }
}

// ---------------------------------------------------------------------------
// Executable pipeline.
// ---------------------------------------------------------------------------

fn mean_element_udeg(base_udeg: i64, rate7: i64, s: i128) -> (v: u64)
    requires
        0 <= base_udeg < 360000000,
        0 < rate7 <= 132293500,
        -10000000000000000000 <= s <= 10000000000000000000,
    ensures
        v == spec_mean_element_udeg(base_udeg as int, rate7 as int, s as int),
        v < 360000000,
{
    proof {
        assert(-(1400000000000000000000000000int) <= (rate7 as int) * (s as int)
            <= 1400000000000000000000000000int) by (nonlinear_arith)
            requires
                0 < rate7 as int <= 132293500,
                -10000000000000000000 <= s as int <= 10000000000000000000,
        ;
    }
    let scaled: i128 = (base_udeg as i128) * 864000 + (rate7 as i128) * s;
    let t: u64 = rem_euclid_i128(scaled, 311040000000000);
    let v: u64 = t / 864000;
    proof {
        lemma_div_is_ordered(t as int, 311039999999999int, 864000);
        assert(311039999999999int / 864000 == 359999999) by {
            vstd::arithmetic::div_mod::lemma_fundamental_div_mod_converse(
                311039999999999int,
                864000,
                359999999,
                863999,
            );
        }
    }
    v
}

/// Normalize a microdegree value into `[0, 360_000_000)`.
fn norm_udeg(x: i64) -> (r: u64)
    requires
        x > i64::MIN,
    ensures
        r == spec_norm_udeg(x as int),
        r < 360000000,
{
    rem_euclid_i128(x as i128, 360000000)
}

/// Sine (scaled by 1e6) of an angle in microdegrees.
fn sin_of_udeg(u: u64) -> (s: i64)
    requires
        u < 360000000,
    ensures
        s == spec_sin_of_udeg(u as int),
        -1000000 <= s <= 1000000,
{
    let m: u64 = u / 1000;
    proof {
        lemma_div_is_ordered(u as int, 359999999int, 1000);
    }
    sin_mdeg(m)
}

/// Illumination in milli-percent for a phase fraction in ppm.
pub fn illumination_milli_for(ppm: u64) -> (r: u64)
    requires
        ppm < 1000000,
    ensures
        r == spec_illumination_milli(ppm as int),
        r <= 100000,
{
    let a: u64 = ppm * 360000 / 1000000;
    proof {
        lemma_div_is_ordered(ppm as int * 360000, 359999640000int, 1000000);
    }
    let c: i64 = cos_mdeg(a);
    let t: u64 = (1000000i64 - c) as u64;
    let r: u64 = 50000 * t / 1000000;
    proof {
        lemma_div_is_ordered(50000 * (t as int), 100000000000int, 1000000);
    }
    r
}

/// The named phase for a phase fraction in ppm.
pub fn phase_of_fraction(ppm: u64) -> (p: MoonPhase)
    requires
        ppm < 1000000,
    ensures
        p == spec_phase_of_fraction(ppm as int),
{
    let idx: u64 = (ppm * 8 + 500000) / 1000000 % 8;
    if idx == 0 {
        MoonPhase::New
    } else if idx == 1 {
        MoonPhase::WaxingCrescent
    } else if idx == 2 {
        MoonPhase::FirstQuarter
    } else if idx == 3 {
        MoonPhase::WaxingGibbous
    } else if idx == 4 {
        MoonPhase::Full
    } else if idx == 5 {
        MoonPhase::WaningGibbous
    } else if idx == 6 {
        MoonPhase::LastQuarter
    } else {
        MoonPhase::WaningCrescent
    }
}

/// Age of the moon in microdays for a phase fraction in ppm.
pub fn age_micro_days_for(ppm: u64) -> (r: u64)
    requires
        ppm < 1000000,
    ensures
        r == spec_age_micro_days(ppm as int),
        r <= 29530589,
{
    let r: u64 = ppm * 29530589 / 1000000;
    proof {
        lemma_div_is_ordered(ppm as int * 29530589, 29530589000000int, 1000000);
    }
    r
}

/// Phase fraction (ppm of a cycle) by the Meeus-style model.
#[verifier::rlimit(100)]
pub fn phase_ppm_meeus(unix_sec: i64) -> (ppm: u64)
    ensures
        ppm == spec_phase_ppm(unix_sec as int),
        ppm < 1000000,
{
    let s: i128 = unix_sec as i128 - 946728000;

    // Sun: mean longitude and mean anomaly, then the apparent longitude.
    let l0: u64 = mean_element_udeg(280460000, 9856474, s);
    let g: u64 = mean_element_udeg(357528000, 9856003, s);
    let sin_g: i64 = sin_of_udeg(g);
    let g2: u64 = norm_udeg(2 * (g as i64));
    let sin_g2: i64 = sin_of_udeg(g2);
    let sun_scaled: i64 = (l0 as i64) * 1000000 + 1915000 * sin_g + 20000 * sin_g2;
    let lam_sun: u64 = rem_euclid_i128(sun_scaled as i128, 360000000000000) / 1000000;

    // Moon: mean longitude, mean anomaly, mean elongation, argument of
    // latitude, plus fourteen periodic terms.
    let l: u64 = mean_element_udeg(218316000, 131763960, s);
    let mm: u64 = mean_element_udeg(134963000, 130649930, s);
    let d: u64 = mean_element_udeg(297850000, 121907490, s);
    let f: u64 = mean_element_udeg(93272000, 132293500, s);
    let li: i64 = l as i64;
    let mmi: i64 = mm as i64;
    let di: i64 = d as i64;
    let fi: i64 = f as i64;
    let gi: i64 = g as i64;

    let t01: i64 = 6289000 * sin_of_udeg(mm);
    let t02: i64 = 1274000 * sin_of_udeg(norm_udeg(2 * di - mmi));
    let t03: i64 = 658000 * sin_of_udeg(norm_udeg(2 * di));
    let t04: i64 = 214000 * sin_of_udeg(norm_udeg(2 * mmi));
    let t05: i64 = 186000 * sin_g;
    let t06: i64 = 59000 * sin_of_udeg(norm_udeg(2 * di - 2 * mmi));
    let t07: i64 = 57000 * sin_of_udeg(norm_udeg(2 * di - mmi - gi));
    let t08: i64 = 53000 * sin_of_udeg(norm_udeg(2 * di + mmi));
    let t09: i64 = 46000 * sin_of_udeg(norm_udeg(2 * di - gi));
    let t10: i64 = 41000 * sin_of_udeg(norm_udeg(mmi - gi));
    let t11: i64 = 35000 * sin_of_udeg(d);
    let t12: i64 = 31000 * sin_of_udeg(norm_udeg(mmi + gi));
    let t13: i64 = 15000 * sin_of_udeg(norm_udeg(2 * fi - 2 * di));
    let t14: i64 = 11000 * sin_of_udeg(norm_udeg(2 * di - 4 * mmi));

    let moon_scaled: i64 = li * 1000000 + t01 + t02 + t03 + t04 - t05 - t06 - t07 + t08 + t09 + t10
        - t11 - t12 - t13 + t14;
    let lam_moon: u64 = rem_euclid_i128(moon_scaled as i128, 360000000000000) / 1000000;

    let elong: u64 = rem_euclid_i128(lam_moon as i128 - lam_sun as i128, 360000000);
    let ppm: u64 = elong / 360;
    proof {
        lemma_div_is_ordered(elong as int, 359999999int, 360);
    }
    ppm
}

/// Phase fraction (ppm of a cycle) by the simple model: time since the
/// reference new moon, modulo the mean synodic month.
pub fn simple_phase_ppm(unix_sec: i64) -> (ppm: u64)
    ensures
        ppm == spec_simple_phase_ppm(unix_sec as int),
        ppm < 1000000,
{
    let e: i128 = (unix_sec as i128 - 592500) * 1000;
    let m: u64 = rem_euclid_i128(e, 2551442861);
    let ppm: u64 = m * 1000000 / 2551442861;
    proof {
        lemma_div_is_ordered(m as int * 1000000, 2551442860000000int, 2551442861);
    }
    ppm
}

/// The full Meeus-style phase computation for a Unix timestamp.
pub fn calculate_moon_phase(unix_sec: i64) -> (st: MoonStatus)
    ensures
        st.phase_ppm == spec_phase_ppm(unix_sec as int),
        st.phase_ppm < 1000000,
        st.illumination_milli == spec_illumination_milli(st.phase_ppm as int),
        st.illumination_milli <= 100000,
        st.age_micro_days == spec_age_micro_days(st.phase_ppm as int),
        st.phase == spec_phase_of_fraction(st.phase_ppm as int),
{
    let ppm: u64 = phase_ppm_meeus(unix_sec);
    MoonStatus {
        phase: phase_of_fraction(ppm),
        phase_ppm: ppm,
        age_micro_days: age_micro_days_for(ppm),
        illumination_milli: illumination_milli_for(ppm),
    }
}

// ---------------------------------------------------------------------------
// Laws of the illumination curve and of the discretization.
// ---------------------------------------------------------------------------

/// For every phase fraction the illumination lies in `[0, 100]` percent;
/// it is exactly 0 at the new moon and exactly 100 at the full moon.
pub proof fn lemma_illumination_range(ppm: int)
    requires
        0 <= ppm < 1000000,
    ensures
        0 <= spec_illumination_milli(ppm) <= 100000,
        ppm == 0 ==> spec_illumination_milli(ppm) == 0,
        ppm == 500000 ==> spec_illumination_milli(ppm) == 100000,
{
    let a = spec_phase_angle_mdeg(ppm);
    lemma_div_is_ordered(0, ppm * 360000, 1000000);
    lemma_div_is_ordered(ppm * 360000, 359999640000int, 1000000);
    lemma_cos_mdeg_bounds(a);
    let c = spec_cos_mdeg(a);
    lemma_div_is_ordered(0, 50000 * (1000000 - c), 1000000);
    lemma_div_is_ordered(50000 * (1000000 - c), 100000000000int, 1000000);
    if ppm == 0 {
        assert(a == 0);
        lemma_small_mod(90000nat, 360000nat);
        lemma_sin_half_bounds(90000);
        assert(c == 1000000);
    }
    if ppm == 500000 {
        assert(a == 180000);
        lemma_small_mod(270000nat, 360000nat);
        lemma_sin_half_bounds(90000);
        assert(c == -1000000);
    }
}

/// While the moon waxes (phase fraction up to one half), the illumination
/// does not decrease.
pub proof fn lemma_illumination_waxing_monotone(p1: int, p2: int)
    requires
        0 <= p1 <= p2 <= 500000,
    ensures
        spec_illumination_milli(p1) <= spec_illumination_milli(p2),
{
    let a1 = spec_phase_angle_mdeg(p1);
    let a2 = spec_phase_angle_mdeg(p2);
    lemma_div_is_ordered(0, p1 * 360000, 1000000);
    lemma_div_is_ordered(p1 * 360000, p2 * 360000, 1000000);
    lemma_div_is_ordered(p2 * 360000, 180000000000int, 1000000);
    lemma_cos_antitone_first_half(a1, a2);
    lemma_div_is_ordered(
        50000 * (1000000 - spec_cos_mdeg(a1)),
        50000 * (1000000 - spec_cos_mdeg(a2)),
        1000000,
    );
}

/// While the moon wanes (phase fraction past one half), the illumination
/// does not increase.
pub proof fn lemma_illumination_waning_monotone(p1: int, p2: int)
    requires
        500000 <= p1 <= p2 < 1000000,
    ensures
        spec_illumination_milli(p2) <= spec_illumination_milli(p1),
{
    let a1 = spec_phase_angle_mdeg(p1);
    let a2 = spec_phase_angle_mdeg(p2);
    lemma_div_is_ordered(180000000000int, p1 * 360000, 1000000);
    lemma_div_is_ordered(p1 * 360000, p2 * 360000, 1000000);
    lemma_div_is_ordered(p2 * 360000, 359999640000int, 1000000);
    lemma_cos_monotone_second_half(a1, a2);
    lemma_div_is_ordered(
        50000 * (1000000 - spec_cos_mdeg(a2)),
        50000 * (1000000 - spec_cos_mdeg(a1)),
        1000000,
    );
}

/// The discretization of the phase fraction into eight named phases:
/// 0 is the new moon, one half is the full moon, and exactly one eighth
/// falls to the waxing crescent by the round-half-away-from-zero rule.
pub proof fn lemma_phase_discretization()
    ensures
        spec_phase_of_fraction(0) == MoonPhase::New,
        spec_phase_of_fraction(500000) == MoonPhase::Full,
        spec_phase_of_fraction(125000) == MoonPhase::WaxingCrescent,
{
    assert(spec_phase_index(0) == 0);
    assert(spec_phase_index(500000) == 4);
    assert(spec_phase_index(125000) == 1);
}

} // verus!
