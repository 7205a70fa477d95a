use tempoch::{Days, Time, TimeScale, UnixTime, GPS, JD, JDE, MJD, PS_PER_DAY, TAI, TCB, TCG, TDB, TT, UT};

/// A day count with at most three binary fraction digits, exact in picoseconds.
fn d(x: f64) -> Days {
    Days::from_ps((x * 8.0).round() as i128 * (PS_PER_DAY / 8))
}

/// A second count with at most nine decimals, exact in picoseconds.
fn s(x: f64) -> i128 {
    (x * 1e9).round() as i128 * 1_000
}

fn abs(x: i128) -> i128 {
    if x < 0 {
        -x
    } else {
        x
    }
}

/// Picoseconds in the given number of days (for tolerances).
fn tol_days(x: f64) -> i128 {
    (x * 86_400e12) as i128
}

#[test]
fn jd_mjd_roundtrip() {
    let jd = Time::<JD>::new(d(2_451_545.0));
    let mjd: Time<MJD> = jd.to::<MJD>();
    assert!(abs(mjd.quantity().ps() - d(51_544.5).ps()) < tol_days(1e-10));
    let back: Time<JD> = mjd.to::<JD>();
    assert!(abs(back.quantity().ps() - d(2_451_545.0).ps()) < tol_days(1e-10));
}

#[test]
fn tai_tt_offset() {
    // TT = TAI + 32.184 s
    let tai = Time::<TAI>::new(d(2_451_545.0));
    let tt: Time<TT> = tai.to::<TT>();
    let expected = tai.quantity().ps() + s(32.184);
    assert!(abs(tt.quantity().ps() - expected) < tol_days(1e-15));
}

#[test]
fn gps_epoch_roundtrip() {
    // GPS epoch is JD 2444244.5 (in UTC); in TT it is shifted by 51.184 s
    let gps_zero = Time::<GPS>::new(d(0.0));
    let jd: Time<JD> = gps_zero.to::<JD>();
    let expected = d(2_444_244.5).ps() + s(51.184);
    assert!(abs(jd.quantity().ps() - expected) < tol_days(1e-12));
}

#[test]
fn unix_epoch_roundtrip() {
    // Unix epoch (1970-01-01) has 10 s TAI−UTC and 32.184 s TT−TAI,
    // so TT − UTC = 42.184 s
    let unix_zero = Time::<UnixTime>::new(d(0.0));
    let jd: Time<JD> = unix_zero.to::<JD>();
    let expected = d(2_440_587.5).ps() + s(42.184);
    assert!(abs(jd.quantity().ps() - expected) < tol_days(1e-10));
}

#[test]
fn unix_2020_leap_seconds() {
    // 2020-01-01 00:00:00 UTC: TAI−UTC = 37 s, TT−UTC = 69.184 s.
    // JD(UTC) of 2020-01-01 = 2458849.5; Unix days = 18262.0.
    let unix_2020 = Time::<UnixTime>::new(d(18_262.0));
    let jd: Time<JD> = unix_2020.to::<JD>();
    let expected = d(2_458_849.5).ps() + s(69.184);
    assert!(abs(jd.quantity().ps() - expected) < tol_days(1e-10));
}

#[test]
fn tdb_tt_offset() {
    // TDB − TT periodic correction is at most ~1.7 ms.
    let jd = Time::<JD>::new(d(2_451_545.0));
    let tdb: Time<TDB> = jd.to::<TDB>();
    let offset = tdb.quantity().ps() - jd.quantity().ps();
    assert!(abs(offset) < s(0.002));
}

#[test]
fn tdb_tt_roundtrip() {
    let jd = Time::<JD>::new(d(2_451_545.0));
    let tdb: Time<TDB> = jd.to::<TDB>();
    let back: Time<JD> = tdb.to::<JD>();
    assert!(abs(back.quantity().ps() - jd.quantity().ps()) < tol_days(1e-14));
}

#[test]
fn tcg_tt_offset_at_j2000() {
    // TCG runs ahead of TT by ~L_G × (2451545 − 2443144.5) × 86400 ≈ 0.506 s.
    let tt = Time::<TT>::new(d(2_451_545.0));
    let tcg: Time<TCG> = tt.to::<TCG>();
    let offset = tcg.quantity().ps() - tt.quantity().ps();
    assert!(abs(offset - s(0.506)) < s(0.01));
}

#[test]
fn tcg_tt_roundtrip() {
    let tt = Time::<TT>::new(d(2_451_545.0));
    let tcg: Time<TCG> = tt.to::<TCG>();
    let back: Time<TT> = tcg.to::<TT>();
    assert!(abs(back.quantity().ps() - tt.quantity().ps()) < tol_days(1e-12));
}

#[test]
fn tcb_tdb_offset_at_j2000() {
    // TCB runs ahead of TT/TDB by ~L_B × (2451545 − 2443144.5) × 86400 ≈ 11.25 s.
    let tt = Time::<TT>::new(d(2_451_545.0));
    let tcb: Time<TCB> = tt.to::<TCB>();
    let offset = tcb.quantity().ps() - tt.quantity().ps();
    assert!(abs(offset - s(11.25)) < s(0.5));
}

#[test]
fn tcb_tt_roundtrip() {
    let tt = Time::<TT>::new(d(2_458_000.0));
    let tcb: Time<TCB> = tt.to::<TCB>();
    let back: Time<TT> = tcb.to::<TT>();
    assert!(abs(back.quantity().ps() - tt.quantity().ps()) < tol_days(1e-10));
}

#[test]
fn ut_to_jd_applies_delta_t() {
    let ut = Time::<UT>::new(d(2_451_545.0));
    let jd: Time<JD> = ut.to::<JD>();
    // ΔT at J2000 ≈ 63.83 s
    let offset = jd.quantity().ps() - ut.quantity().ps();
    assert!(abs(offset - s(63.83)) < s(1.0));
}

#[test]
fn ut_jd_roundtrip() {
    let jd = Time::<JD>::new(d(2_451_545.0));
    let ut: Time<UT> = jd.to::<UT>();
    let back: Time<JD> = ut.to::<JD>();
    assert!(abs(back.quantity().ps() - jd.quantity().ps()) < tol_days(1e-12));
}

#[test]
fn jde_roundtrip() {
    // JDE is numerically identical to JD; test both conversion directions.
    let jde = Time::<JDE>::new(d(2_451_545.0));
    let jd: Time<JD> = jde.to::<JD>();
    assert!(abs(jd.quantity().ps() - d(2_451_545.0).ps()) < tol_days(1e-10));
    let back: Time<JDE> = jd.to::<JDE>();
    assert!(abs(back.quantity().ps() - jde.quantity().ps()) < tol_days(1e-10));
}

#[test]
fn tt_to_tai() {
    // TT = TAI + 32.184 s, so TAI = TT − 32.184 s; round trip recovers TT.
    let tt = Time::<TT>::new(d(2_451_545.0));
    let tai: Time<TAI> = tt.to::<TAI>();
    let back: Time<TT> = tai.to::<TT>();
    assert!(abs(back.quantity().ps() - tt.quantity().ps()) < tol_days(1e-15));
}

#[test]
fn gps_from_jd() {
    let gps_zero = Time::<GPS>::new(d(0.0));
    let jd: Time<JD> = gps_zero.to::<JD>();
    let back: Time<GPS> = jd.to::<GPS>();
    assert!(abs(back.quantity().ps() - gps_zero.quantity().ps()) < tol_days(1e-12));
}

#[test]
fn unix_from_jd() {
    let unix_2020 = Time::<UnixTime>::new(d(18_262.0));
    let jd: Time<JD> = unix_2020.to::<JD>();
    let back: Time<UnixTime> = jd.to::<UnixTime>();
    assert!(abs(back.quantity().ps() - unix_2020.quantity().ps()) < tol_days(1e-10));
}

#[test]
fn tai_minus_utc_pre_1972_returns_10() {
    // Before 1972-01-01 (JD 2 441 317.5) the leap-second table has no
    // applicable entry, so the conventional initial 10 s offset is returned.
    let ls = tempoch::tai_minus_utc(d(2_400_000.0));
    assert_eq!(ls.ps(), s(10.0));
}

#[test]
fn leap_second_lookup_is_monotonic_across_epochs() {
    // Sample the lookup across the table and check it never decreases.
    let mut prev = i128::MIN;
    let mut day = 2_440_000.0;
    while day < 2_460_000.0 {
        let ls = tempoch::tai_minus_utc(d(day)).ps();
        assert!(ls >= prev);
        prev = ls;
        day += 100.0;
    }
    assert_eq!(tempoch::tai_minus_utc(d(2_457_754.5)).ps(), s(37.0));
}

#[test]
fn scale_labels_name_the_scales() {
    assert!(<JD as TimeScale>::label().contains("Julian Day"));
    assert_eq!(<MJD as TimeScale>::label(), "MJD");
    assert_eq!(<UT as TimeScale>::label(), "UT");
    assert_eq!(<UnixTime as TimeScale>::label(), "Unix");
}
