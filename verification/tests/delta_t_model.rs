use tempoch::delta_t::{delta_t_seconds_from_ut, delta_t_table};
use tempoch::{Days, JulianDate, Time, JD, PS_PER_DAY, UT};

/// A day count with at most three binary fraction digits, exact in picoseconds.
fn d(x: f64) -> Days {
    Days::from_ps((x * 8.0).round() as i128 * (PS_PER_DAY / 8))
}

/// A second count with at most nine decimals, exact in picoseconds.
fn s(x: f64) -> i128 {
    (x * 1e9).round() as i128 * 1_000
}

fn abs(x: i128) -> i128 {
    if x < 0 {
        -x
    } else {
        x
    }
}

#[test]
fn delta_t_ancient_sample() {
    let dt = delta_t_seconds_from_ut(d(2_000_000.0));
    assert!(abs(dt.ps() - s(2_734.342_214_024_879_5)) < s(1e-6));
}

#[test]
fn delta_t_medieval_sample() {
    let dt = delta_t_seconds_from_ut(d(2_100_000.0));
    assert!(abs(dt.ps() - s(1_485.280_240_204_242_3)) < s(1e-6));
}

#[test]
fn delta_t_table_sample() {
    let dt = delta_t_seconds_from_ut(d(2_312_752.5));
    assert!(abs(dt.ps() - s(115.0)) < s(1e-6));
}

#[test]
fn delta_t_table_upper_clip() {
    let dt = delta_t_table(d(2_449_356.0));
    assert!(abs(dt.ps() - s(59.3)) < s(1e-6));
}

#[test]
fn delta_t_2000() {
    // IERS observed value: 63.83 s
    let dt = delta_t_seconds_from_ut(d(2_451_545.0));
    assert!(abs(dt.ps() - s(63.83)) < s(0.1));
}

#[test]
fn delta_t_2010() {
    // IERS observed value for 2010.0: ~66.07 s (JD 2455197.5 ≈ 2010-01-01)
    let dt = delta_t_seconds_from_ut(d(2_455_197.5));
    assert!(abs(dt.ps() - s(66.07)) < s(0.5));
}

#[test]
fn delta_t_2020() {
    // IERS observed value for 2020.0: ~69.36 s; the old quadratic
    // extrapolation gave ~121 s here — way off.
    let dt = delta_t_seconds_from_ut(d(2_458_849.5));
    assert!(abs(dt.ps() - s(69.36)) < s(0.5));
}

#[test]
fn delta_t_2025() {
    // IERS observed value for 2025.0: ~69.36 s (JD 2460676.5 ≈ 2025-01-01)
    let dt = delta_t_seconds_from_ut(d(2_460_676.5));
    assert!(abs(dt.ps() - s(69.36)) < s(0.5));
}

#[test]
fn delta_t_extrapolated_near_future() {
    // Beyond 2026, linear extrapolation at ~0.02 s/yr:
    // at 2030.0 ΔT ≈ 69.36 + 0.02 × 4 ≈ 69.44 s.
    let dt = delta_t_seconds_from_ut(d(2_462_502.5));
    assert!(abs(dt.ps() - s(69.44)) < s(1.0));
    // Must NOT be the old ~135+ s value.
    assert!(dt.ps() < s(75.0));
}

#[test]
fn ut_scale_applies_delta_t() {
    let ut = Time::<UT>::new(d(2_451_545.0));
    let jd_tt = ut.to::<JD>();
    let offset = jd_tt.quantity().ps() - d(2_451_545.0).ps();
    let expected = delta_t_seconds_from_ut(d(2_451_545.0)).ps();
    assert!(abs(offset - expected) < (86_400e12 * 1e-9) as i128);
}

#[test]
fn ut_scale_roundtrip() {
    let jd_tt = JulianDate::new(d(2_451_545.0));
    let ut: Time<UT> = jd_tt.to::<UT>();
    let back: JulianDate = ut.to::<JD>();
    assert!(abs(back.quantity().ps() - jd_tt.quantity().ps()) < (86_400e12 * 1e-12) as i128);
}

#[test]
fn delta_t_convenience_method() {
    let ut = Time::<UT>::new(d(2_451_545.0));
    let dt = ut.delta_t();
    assert!(abs(dt.ps() - s(63.83)) < s(0.5));
}

#[test]
fn delta_t_regime_boundaries_stay_plausible() {
    // Sample near the regime boundaries: values must stay within the
    // documented historical magnitudes, with no wild jumps introduced by
    // the dispatch itself.
    let near_948 = delta_t_seconds_from_ut(d(2_067_314.5));
    assert!(abs(near_948.ps()) < s(4_000.0));
    let near_1600 = delta_t_seconds_from_ut(d(2_305_447.5));
    assert!(abs(near_1600.ps()) < s(400.0));
    let near_1992 = delta_t_seconds_from_ut(d(2_448_622.5));
    assert!(abs(near_1992.ps() - s(58.31)) < s(1.0));
    let near_2026 = delta_t_seconds_from_ut(d(2_461_041.5));
    assert!(abs(near_2026.ps() - s(69.36)) < s(0.5));
}

#[test]
fn ut_inverse_is_stable_in_observed_era() {
    // The proved stability window covers the observed data 1992–2026.
    let tt = d(2_455_197.5);
    let ut = JulianDate::new(tt).to::<UT>();
    let back = ut.to::<JD>();
    assert!(abs(back.quantity().ps() - tt.ps()) <= 4);
}

#[test]
fn ut_inverse_is_stable_in_table_era() {
    // In the biennial-table era the inverse is checked empirically: away
    // from the table's node epochs the round trip stays far inside a
    // nanosecond of a day.
    let tt = d(2_400_000.0);
    let ut = JulianDate::new(tt).to::<UT>();
    let back = ut.to::<JD>();
    assert!(abs(back.quantity().ps() - tt.ps()) < (86_400e12 * 1e-9) as i128);
}

#[test]
fn ut_inverse_is_stable_in_early_eras() {
    // Ancient and medieval quadratic regimes, away from their boundaries.
    for tt in [d(1_500_000.0), d(2_200_000.0)] {
        let ut = JulianDate::new(tt).to::<UT>();
        let back = ut.to::<JD>();
        assert!(abs(back.quantity().ps() - tt.ps()) <= 600_000);
    }
}

#[test]
fn ut_inverse_is_stable_in_extrapolated_era() {
    // tt → UT → tt lands within a couple of picoseconds once past the
    // observed data (the proved stability window of the inverse).
    let tt = d(2_470_000.0);
    let ut = JulianDate::new(tt).to::<UT>();
    let back = ut.to::<JD>();
    assert!(abs(back.quantity().ps() - tt.ps()) <= 2);
}
