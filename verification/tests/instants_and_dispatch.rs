use chrono::{DateTime, Datelike};
use tempoch::julian_date_ext::{JULIAN_CENTURY_PS, JULIAN_MILLENNIUM_PS, JULIAN_YEAR_PS};
use tempoch::{
    convert, jd_to_scale, scale_to_jd, Days, JulianDate, ModifiedJulianDate, TempochScale,
    TempochStatus, Time, TimeInstant, JD, MJD, PS_PER_DAY, PS_PER_SEC,
};

/// A day count with at most three binary fraction digits, exact in picoseconds.
fn d(x: f64) -> Days {
    Days::from_ps((x * 8.0).round() as i128 * (PS_PER_DAY / 8))
}

/// A second count with at most nine decimals, exact in picoseconds.
fn s(x: f64) -> i128 {
    (x * 1e9).round() as i128 * 1_000
}

fn abs(x: i128) -> i128 {
    if x < 0 {
        -x
    } else {
        x
    }
}

/// Nanoseconds between two (seconds, nanoseconds) timestamps.
fn ns_between(a: (i64, u32), b: (i64, u32)) -> i64 {
    (a.0 - b.0) * 1_000_000_000 + a.1 as i64 - b.1 as i64
}

#[test]
fn test_julian_day_creation() {
    let jd = Time::<JD>::new(d(2_451_545.0));
    assert_eq!(jd.quantity().ps(), d(2_451_545.0).ps());
}

#[test]
fn test_jd_utc_roundtrip() {
    // from_utc_timestamp applies ΔT (UT→TT); to_utc_timestamp inverts it.
    let jd = Time::<JD>::from_utc_timestamp(946_728_000, 0);
    let back = jd.to_utc_timestamp();
    assert!(ns_between(back, (946_728_000, 0)).abs() < 1_000);
}

#[test]
fn test_from_utc_applies_delta_t() {
    // 2000-01-01 12:00:00 UTC → JD(UT) = 2451545.0; ΔT ≈ 63.83 s
    let jd = Time::<JD>::from_utc_timestamp(946_728_000, 0);
    let delta = jd.quantity().ps() - d(2_451_545.0).ps();
    assert!(abs(delta - s(63.83)) < s(1.0));
}

#[test]
fn test_julian_conversions() {
    let jd = JulianDate::new(Days::from_ps(d(2_451_545.0).ps() + 365_250 * PS_PER_DAY));
    // One Julian millennium past J2000, at 1e-15 resolution.
    assert!((jd.julian_millennias() - 1_000_000_000_000_000).abs() < 1_000);
    assert!((jd.julian_centuries() - 10_000_000_000_000_000).abs() < 10_000);
    assert!((jd.julian_years() - 1_000_000_000_000_000_000).abs() < 100_000);
}

#[test]
fn test_tt_to_tdb_and_min_max() {
    let j2000 = JulianDate::j2000();
    let jd_tdb = Time::<JD>::tt_to_tdb(j2000);
    assert!(abs(jd_tdb.quantity().ps() - j2000.quantity().ps()) < (1e-6 * 86_400e12) as i128);

    let earlier = j2000;
    let later = earlier.add_duration(d(1.0));
    assert_eq!(earlier.min(later), earlier);
    assert_eq!(earlier.max(later), later);
}

#[test]
fn test_const_min_max() {
    let a = Time::<JD>::new(d(10.0));
    let b = Time::<JD>::new(d(14.0));
    assert_eq!(a.min(b).quantity().ps(), d(10.0).ps());
    assert_eq!(a.max(b).quantity().ps(), d(14.0).ps());
}

#[test]
fn test_mean_and_const_mean() {
    let a = Time::<JD>::new(d(10.0));
    let b = Time::<JD>::new(d(14.0));
    assert_eq!(a.mean(b).quantity().ps(), d(12.0).ps());
    assert_eq!(b.mean(a).quantity().ps(), d(12.0).ps());
}

#[test]
fn test_into_days() {
    let jd = Time::<JD>::new(d(2_451_547.5));
    let days: Days = jd.quantity();
    assert_eq!(days.ps(), d(2_451_547.5).ps());
    let roundtrip = Time::<JD>::from_days(days);
    assert_eq!(roundtrip, jd);
}

#[test]
fn test_mjd_creation() {
    let mjd = Time::<MJD>::new(d(51_544.5));
    assert_eq!(mjd.quantity().ps(), d(51_544.5).ps());
}

#[test]
fn test_mjd_into_jd() {
    let mjd = Time::<MJD>::new(d(51_544.5));
    let jd: Time<JD> = mjd.to::<JD>();
    assert_eq!(jd.quantity().ps(), d(2_451_545.0).ps());
}

#[test]
fn test_mjd_utc_roundtrip() {
    let mjd = Time::<MJD>::from_utc_timestamp(946_728_000, 0);
    let back = mjd.to_utc_timestamp();
    assert!(ns_between(back, (946_728_000, 0)).abs() < 1_000);
}

#[test]
fn test_mjd_from_utc_applies_delta_t() {
    // MJD epoch is JD − 2400000.5; ΔT shifts the value by ~63.83 s.
    let mjd = Time::<MJD>::from_utc_timestamp(946_728_000, 0);
    let delta = mjd.quantity().ps() - d(51_544.5).ps();
    assert!(abs(delta - s(63.83)) < s(1.0));
}

#[test]
fn test_mjd_add_days() {
    let mjd = Time::<MJD>::new(d(59_000.0));
    let result = mjd.add_duration(d(1.5));
    assert_eq!(result.quantity().ps(), d(59_001.5).ps());
}

#[test]
fn test_mjd_sub_days() {
    let mjd = Time::<MJD>::new(d(59_000.0));
    let result = mjd.sub_duration(d(1.5));
    assert_eq!(result.quantity().ps(), d(58_998.5).ps());
}

#[test]
fn test_mjd_sub_mjd() {
    let mjd1 = Time::<MJD>::new(d(59_001.0));
    let mjd2 = Time::<MJD>::new(d(59_000.0));
    let diff = mjd1.difference(&mjd2);
    assert_eq!(diff.ps(), d(1.0).ps());
}

#[test]
fn test_mjd_comparison() {
    let mjd1 = Time::<MJD>::new(d(59_000.0));
    let mjd2 = Time::<MJD>::new(d(59_001.0));
    assert!(mjd1 < mjd2);
    assert!(mjd2 > mjd1);
}

#[test]
fn test_to_method_jd_mjd() {
    let jd = Time::<JD>::new(d(2_451_545.0));
    let mjd = jd.to::<MJD>();
    assert!(abs(mjd.quantity().ps() - d(51_544.5).ps()) < 8_640);
}

#[test]
fn timeinstant_for_julian_date_handles_arithmetic() {
    let jd = Time::<JD>::new(d(2_451_545.0));
    let other = jd.add_duration(d(2.0));
    assert_eq!(jd.difference(&other).ps(), d(-2.0).ps());
    assert_eq!(jd.add_duration(d(1.5)).quantity().ps(), d(2_451_546.5).ps());
    assert_eq!(other.sub_duration(d(0.5)).quantity().ps(), d(2_451_546.5).ps());
}

#[test]
fn timeinstant_for_modified_julian_date_roundtrips_utc() {
    // 2000-01-01T00:00:00.123Z
    let mjd = Time::<MJD>::from_utc_timestamp(946_684_800, 123_000_000);
    let back = mjd.to_utc_timestamp();
    assert_eq!(mjd.difference(&mjd).ps(), 0);
    assert_eq!(
        mjd.add_duration(d(1.0)).quantity().ps(),
        mjd.quantity().ps() + d(1.0).ps()
    );
    assert_eq!(
        mjd.sub_duration(d(0.5)).quantity().ps(),
        mjd.quantity().ps() - d(0.5).ps()
    );
    assert!(ns_between(back, (946_684_800, 123_000_000)).abs() < 10_000);
}

#[test]
fn utc_roundtrip_j2000_is_stable() {
    let jd = JulianDate::from_utc_timestamp(946_728_000, 0);
    let back = jd.to_utc_timestamp();
    assert!(ns_between(back, (946_728_000, 0)).abs() < 1_000);
}

#[test]
fn ut_applies_delta_t_near_j2000() {
    let ut = Time::<tempoch::UT>::new(d(2_451_545.0));
    let jd: JulianDate = ut.to::<JD>();
    let offset = jd.quantity().ps() - ut.quantity().ps();
    assert!(abs(offset - s(63.83)) < s(1.0));
}

#[test]
fn jd_j2000_value() {
    assert_eq!(JulianDate::j2000().quantity().ps(), d(2_451_545.0).ps());
}

#[test]
fn jd_to_mjd_roundtrip() {
    let mjd = JulianDate::new(d(2_451_545.0)).to_mjd();
    assert!(abs(mjd.quantity().ps() - d(51_544.5).ps()) < 8_640);
}

#[test]
fn mjd_to_jd_roundtrip() {
    let jd = ModifiedJulianDate::new(d(51_544.5)).to::<JD>();
    assert!(abs(jd.quantity().ps() - d(2_451_545.0).ps()) < 8_640);
}

#[test]
fn jd_from_utc_success() {
    // End to end: the civil timestamp 2000-01-01T12:00:00 UTC converts to
    // a Julian Date within 0.01 days of 2 451 545.0 (the ΔT offset of
    // ~63.8 s is far below a hundredth of a day).
    let jd = JulianDate::from_utc_timestamp(946_728_000, 0);
    assert!(abs(jd.quantity().ps() - d(2_451_545.0).ps()) < (0.01 * 86_400e12) as i128);
    // And the applied offset is exactly ΔT at J2000, scaled consistently
    // for MJD.
    let mjd = ModifiedJulianDate::from_utc_timestamp(946_728_000, 0);
    let jd_offset = jd.quantity().ps() - d(2_451_545.0).ps();
    let mjd_offset = mjd.quantity().ps() - d(51_544.5).ps();
    assert_eq!(jd_offset, mjd_offset);
    assert!(abs(jd_offset - s(63.83)) < s(0.5));
}

#[test]
fn mjd_from_utc_success() {
    let mjd = ModifiedJulianDate::from_utc_timestamp(946_728_000, 0);
    assert!(abs(mjd.quantity().ps() - d(51_544.5).ps()) < (0.01 * 86_400e12) as i128);
}

#[test]
fn jd_to_utc_success() {
    let (secs, nanos) = JulianDate::new(d(2_451_545.0)).to_utc_timestamp();
    let dt = DateTime::from_timestamp(secs, nanos).expect("in range");
    assert_eq!(dt.year(), 2000);
    assert_eq!(dt.month(), 1);
    assert_eq!(dt.day(), 1);
}

#[test]
fn mjd_to_utc_success() {
    let (secs, nanos) = ModifiedJulianDate::new(d(51_544.5)).to_utc_timestamp();
    let dt = DateTime::from_timestamp(secs, nanos).expect("in range");
    assert_eq!(dt.year(), 2000);
}

#[test]
fn jd_difference_returns_days() {
    let diff = JulianDate::new(d(2_451_546.0)).difference(&JulianDate::new(d(2_451_545.0)));
    assert_eq!(diff.ps(), d(1.0).ps());
}

#[test]
fn jd_add_days_advances_epoch() {
    let result = JulianDate::new(d(2_451_545.0)).add_duration(d(1.5));
    assert_eq!(result.quantity().ps(), d(2_451_546.5).ps());
}

#[test]
fn mjd_difference_returns_days() {
    let diff = ModifiedJulianDate::new(d(59_001.0)).difference(&ModifiedJulianDate::new(d(59_000.0)));
    assert_eq!(diff.ps(), d(1.0).ps());
}

#[test]
fn mjd_add_days_advances_epoch() {
    let result = ModifiedJulianDate::new(d(59_000.0)).add_duration(d(0.5));
    assert_eq!(result.quantity().ps(), d(59_000.5).ps());
}

#[test]
fn jd_julian_centuries_at_j2000_is_zero() {
    let c = JulianDate::new(d(2_451_545.0)).julian_centuries();
    assert_eq!(c, 0);
}

#[test]
fn julian_period_constants_are_consistent() {
    assert_eq!(JULIAN_YEAR_PS, 365 * PS_PER_DAY + PS_PER_DAY / 4);
    assert_eq!(JULIAN_CENTURY_PS, 36_525 * PS_PER_DAY);
    assert_eq!(JULIAN_MILLENNIUM_PS, 365_250 * PS_PER_DAY);
}

#[test]
fn convert_dispatch_routes_through_canonical_axis() {
    // convert(v, A, B) agrees with the typed conversion A → B.
    let v = d(2_451_545.0);
    let via_dispatch = convert(v, TempochScale::JD, TempochScale::MJD);
    let via_typed = Time::<JD>::new(v).to::<MJD>();
    assert_eq!(via_dispatch.ps(), via_typed.quantity().ps());

    let back = convert(via_dispatch, TempochScale::MJD, TempochScale::JD);
    assert_eq!(back.ps(), v.ps());
}

#[test]
fn jd_scale_dispatch_is_total_over_the_enumeration() {
    let jd = Time::<JD>::new(d(2_451_545.0));
    let scales = [
        TempochScale::JD,
        TempochScale::MJD,
        TempochScale::TDB,
        TempochScale::TT,
        TempochScale::TAI,
        TempochScale::TCG,
        TempochScale::TCB,
        TempochScale::GPS,
        TempochScale::UT,
        TempochScale::JDE,
        TempochScale::UnixTime,
    ];
    for scale in scales {
        let v = jd_to_scale(jd, scale);
        let back = scale_to_jd(v, scale);
        // Every scale is invertible near J2000 well within a millisecond.
        assert!(abs(back.quantity().ps() - jd.quantity().ps()) < s(0.001));
    }
}

#[test]
fn status_codes_are_stable() {
    assert_eq!(TempochStatus::Success.code(), 0);
    assert_eq!(TempochStatus::NullPointer.code(), 1);
    assert_eq!(TempochStatus::UtcConversionFailed.code(), 2);
    assert_eq!(TempochStatus::InvalidPeriod.code(), 3);
    assert_eq!(TempochStatus::NoIntersection.code(), 4);
    assert_eq!(TempochScale::JD.code(), 0);
    assert_eq!(TempochScale::UnixTime.code(), 10);
}

#[test]
fn period_mjd_new_rejects_reversed_endpoints() {
    let r = tempoch::dispatch::period_mjd_new(d(59_001.0), d(59_000.0));
    assert_eq!(r.unwrap_err(), TempochStatus::InvalidPeriod);
    let ok = tempoch::dispatch::period_mjd_new(d(59_000.0), d(59_001.0)).unwrap();
    assert_eq!(ok.start.quantity().ps(), d(59_000.0).ps());
}

#[test]
fn period_mjd_intersection_reports_no_overlap() {
    let a = tempoch::dispatch::period_mjd_new(d(0.0), d(3.0)).unwrap();
    let b = tempoch::dispatch::period_mjd_new(d(3.0), d(8.0)).unwrap();
    let r = tempoch::dispatch::period_mjd_intersection(a, b);
    assert_eq!(r.unwrap_err(), TempochStatus::NoIntersection);
    let c = tempoch::dispatch::period_mjd_new(d(2.0), d(8.0)).unwrap();
    let overlap = tempoch::dispatch::period_mjd_intersection(a, c).unwrap();
    assert_eq!(overlap.start.quantity().ps(), d(2.0).ps());
    assert_eq!(overlap.end.quantity().ps(), d(3.0).ps());
}

#[test]
fn delta_t_for_jd_dispatch_matches_model() {
    let dt = tempoch::dispatch::delta_t_seconds_for_jd(JulianDate::new(d(2_451_545.0)));
    assert!(abs(dt.ps() - s(63.83)) < s(0.5));
}
