use tempoch::{
    complement_within, intersect_periods, Days, Interval, JulianDate, ModifiedJulianDate, Period,
    Time, JD, MJD, PS_PER_DAY,
};

/// A day count with at most three binary fraction digits, exact in picoseconds.
fn d(x: f64) -> Days {
    Days::from_ps((x * 8.0).round() as i128 * (PS_PER_DAY / 8))
}

fn mjd(x: f64) -> ModifiedJulianDate {
    ModifiedJulianDate::new(d(x))
}

fn abs(x: i128) -> i128 {
    if x < 0 {
        -x
    } else {
        x
    }
}

#[test]
fn test_period_creation_jd() {
    let start = JulianDate::new(d(2_451_545.0));
    let end = JulianDate::new(d(2_451_546.0));
    let period = Period::new(start, end);
    assert_eq!(period.start, start);
    assert_eq!(period.end, end);
}

#[test]
fn test_period_scale_conversion_jd_to_mjd() {
    let period_jd = Period::new(
        Time::<JD>::new(d(2_451_545.0)),
        Time::<JD>::new(d(2_451_546.0)),
    );
    let period_mjd = period_jd.to::<MJD>();
    assert!(abs(period_mjd.start.quantity().ps() - d(51_544.5).ps()) < (86_400.0 * 1e-12 * 1e12) as i128);
    assert!(abs(period_mjd.end.quantity().ps() - d(51_545.5).ps()) < (86_400.0 * 1e-12 * 1e12) as i128);
}

#[test]
fn test_period_scale_conversion_roundtrip() {
    let original = Period::new(mjd(59_000.125), mjd(59_001.75));
    let roundtrip = original.to::<JD>().to::<MJD>();
    assert!(abs(roundtrip.start.quantity().ps() - original.start.quantity().ps()) < 86_400);
    assert!(abs(roundtrip.end.quantity().ps() - original.end.quantity().ps()) < 86_400);
}

#[test]
fn test_period_creation_mjd() {
    let start = mjd(59_000.0);
    let end = mjd(59_001.0);
    let period = Period::new(start, end);
    assert_eq!(period.start, start);
    assert_eq!(period.end, end);
}

#[test]
fn test_period_duration_jd() {
    let period = Period::new(JulianDate::new(d(2_451_545.0)), JulianDate::new(d(2_451_546.5)));
    assert_eq!(period.duration_days().ps(), d(1.5).ps());
}

#[test]
fn test_period_duration_mjd() {
    let period = Period::new(mjd(59_000.0), mjd(59_001.5));
    assert_eq!(period.duration_days().ps(), d(1.5).ps());
}

#[test]
fn test_period_intersection_overlap() {
    let a = Period::new(mjd(0.0), mjd(5.0));
    let b = Period::new(mjd(3.0), mjd(8.0));
    let overlap = a.intersection(&b).expect("expected overlap");
    assert_eq!(overlap.start.quantity().ps(), d(3.0).ps());
    assert_eq!(overlap.end.quantity().ps(), d(5.0).ps());
}

#[test]
fn test_period_intersection_disjoint() {
    let a = Period::new(mjd(0.0), mjd(3.0));
    let b = Period::new(mjd(5.0), mjd(8.0));
    assert_eq!(a.intersection(&b), None);
}

#[test]
fn test_period_intersection_touching_edges() {
    let a = Period::new(mjd(0.0), mjd(3.0));
    let b = Period::new(mjd(3.0), mjd(8.0));
    assert_eq!(a.intersection(&b), None);
}

#[test]
fn test_period_intersection_is_commutative() {
    let a = Period::new(mjd(1.0), mjd(6.0));
    let b = Period::new(mjd(4.0), mjd(9.0));
    assert_eq!(a.intersection(&b), b.intersection(&a));
    let c = Period::new(mjd(7.0), mjd(9.0));
    assert_eq!(a.intersection(&c), c.intersection(&a));
    assert_eq!(a.intersection(&c), None);
}

#[test]
fn test_complement_within_gaps() {
    let outer = Period::new(mjd(0.0), mjd(10.0));
    let periods = vec![
        Period::new(mjd(2.0), mjd(4.0)),
        Period::new(mjd(6.0), mjd(8.0)),
    ];
    let gaps = complement_within(outer, &periods);
    assert_eq!(gaps.len(), 3);
    assert_eq!(gaps[0].start.quantity().ps(), d(0.0).ps());
    assert_eq!(gaps[0].end.quantity().ps(), d(2.0).ps());
    assert_eq!(gaps[1].start.quantity().ps(), d(4.0).ps());
    assert_eq!(gaps[1].end.quantity().ps(), d(6.0).ps());
    assert_eq!(gaps[2].start.quantity().ps(), d(8.0).ps());
    assert_eq!(gaps[2].end.quantity().ps(), d(10.0).ps());
}

#[test]
fn test_complement_within_empty() {
    let outer = Period::new(mjd(0.0), mjd(10.0));
    let gaps = complement_within(outer, &[]);
    assert_eq!(gaps.len(), 1);
    assert_eq!(gaps[0].start.quantity().ps(), d(0.0).ps());
    assert_eq!(gaps[0].end.quantity().ps(), d(10.0).ps());
}

#[test]
fn test_complement_within_full() {
    let outer = Period::new(mjd(0.0), mjd(10.0));
    let periods = vec![Period::new(mjd(0.0), mjd(10.0))];
    let gaps = complement_within(outer, &periods);
    assert!(gaps.is_empty());
}

#[test]
fn test_intersect_periods_overlap() {
    let a = vec![Period::new(mjd(0.0), mjd(5.0))];
    let b = vec![Period::new(mjd(3.0), mjd(8.0))];
    let overlap = intersect_periods(&a, &b);
    assert_eq!(overlap.len(), 1);
    assert_eq!(overlap[0].start.quantity().ps(), d(3.0).ps());
    assert_eq!(overlap[0].end.quantity().ps(), d(5.0).ps());
}

#[test]
fn test_intersect_periods_no_overlap() {
    let a = vec![Period::new(mjd(0.0), mjd(3.0))];
    let b = vec![Period::new(mjd(5.0), mjd(8.0))];
    let overlap = intersect_periods(&a, &b);
    assert!(overlap.is_empty());
}

#[test]
fn test_complement_intersect_roundtrip() {
    // above(min) ∩ complement(above(max)) = between(min, max):
    // outer = [0,10), A = [1,3) ∪ [5,9), B = [2,4) ∪ [7,8)
    // ⇒ result = [1,2) ∪ [5,7) ∪ [8,9).
    let outer = Period::new(mjd(0.0), mjd(10.0));
    let above_min = vec![
        Period::new(mjd(1.0), mjd(3.0)),
        Period::new(mjd(5.0), mjd(9.0)),
    ];
    let above_max = vec![
        Period::new(mjd(2.0), mjd(4.0)),
        Period::new(mjd(7.0), mjd(8.0)),
    ];
    let below_max = complement_within(outer, &above_max);
    let between = intersect_periods(&above_min, &below_max);
    assert_eq!(between.len(), 3);
    assert_eq!(between[0].start.quantity().ps(), d(1.0).ps());
    assert_eq!(between[0].end.quantity().ps(), d(2.0).ps());
    assert_eq!(between[1].start.quantity().ps(), d(5.0).ps());
    assert_eq!(between[1].end.quantity().ps(), d(7.0).ps());
    assert_eq!(between[2].start.quantity().ps(), d(8.0).ps());
    assert_eq!(between[2].end.quantity().ps(), d(9.0).ps());
}

#[test]
fn period_set_ops_match_expected_intervals() {
    let outer = Period::new(mjd(0.0), mjd(10.0));
    let a = vec![
        Period::new(mjd(1.0), mjd(3.0)),
        Period::new(mjd(5.0), mjd(9.0)),
    ];
    let b = vec![
        Period::new(mjd(2.0), mjd(4.0)),
        Period::new(mjd(7.0), mjd(8.0)),
    ];
    let below_b = complement_within(outer, &b);
    let between = intersect_periods(&a, &below_b);
    assert_eq!(between.len(), 3);
    assert_eq!(between[0].start.quantity().ps(), d(1.0).ps());
    assert_eq!(between[0].end.quantity().ps(), d(2.0).ps());
    assert_eq!(between[1].start.quantity().ps(), d(5.0).ps());
    assert_eq!(between[1].end.quantity().ps(), d(7.0).ps());
    assert_eq!(between[2].start.quantity().ps(), d(8.0).ps());
    assert_eq!(between[2].end.quantity().ps(), d(9.0).ps());
}

#[test]
fn intersect_periods_advances_both_lists_on_shared_ends() {
    // Two lists whose current heads end at the same instant: the merge
    // must not miss the overlap that follows.
    let a = vec![
        Period::new(mjd(0.0), mjd(2.0)),
        Period::new(mjd(3.0), mjd(6.0)),
    ];
    let b = vec![
        Period::new(mjd(1.0), mjd(2.0)),
        Period::new(mjd(4.0), mjd(5.0)),
    ];
    let overlap = intersect_periods(&a, &b);
    assert_eq!(overlap.len(), 2);
    assert_eq!(overlap[0].start.quantity().ps(), d(1.0).ps());
    assert_eq!(overlap[0].end.quantity().ps(), d(2.0).ps());
    assert_eq!(overlap[1].start.quantity().ps(), d(4.0).ps());
    assert_eq!(overlap[1].end.quantity().ps(), d(5.0).ps());
}

#[test]
fn complement_within_keeps_half_open_edges() {
    // A sub-period touching the outer start leaves no leading gap.
    let outer = Period::new(mjd(0.0), mjd(10.0));
    let periods = vec![Period::new(mjd(0.0), mjd(4.0))];
    let gaps = complement_within(outer, &periods);
    assert_eq!(gaps.len(), 1);
    assert_eq!(gaps[0].start.quantity().ps(), d(4.0).ps());
    assert_eq!(gaps[0].end.quantity().ps(), d(10.0).ps());
}

#[test]
fn interval_duration_works_generically() {
    let period = Interval::new(JulianDate::new(d(10.0)), JulianDate::new(d(11.5)));
    assert_eq!(period.duration().ps(), d(1.5).ps());
}
