//! Time-scale marker types.
//!
//! Each zero-sized type identifies a specific time scale and encodes how
//! values in that scale relate to the canonical **Julian Date in TT**
//! (Terrestrial Time).  Epoch counters (JD, JDE, MJD, Unix, GPS) differ
//! from the canonical axis by a constant; physical scales (TAI, TCG, TCB,
//! TDB, UT) apply an offset model on top.

use vstd::prelude::*;

use crate::days::{
    div_floor, lemma_div_abs_bound, Days, MAX_SCALE_PS, OFFSET_BOUND_PS, PS_PER_DAY,
    PS_PER_HALF_DAY, PS_PER_SEC,
};
use crate::instant::TimeScale;

verus! {

/// The constant offset between JD and MJD: `JD = MJD + MJD_EPOCH_PS`.
pub const MJD_EPOCH_PS: i128 = 2_400_000 * PS_PER_DAY + PS_PER_HALF_DAY;

/// `TT = TAI + 32.184 s`, expressed in picoseconds.
pub const TT_MINUS_TAI_PS: i128 = 32_184_000_000_000;

/// JD(TT) of the GPS epoch (1980-01-06T00:00:00 UTC).
/// GPS = TAI − 19 s and TT = TAI + 32.184 s, so TT = GPS + 51.184 s.
pub const GPS_EPOCH_JD_TT_PS: i128 = 2_444_244 * PS_PER_DAY + PS_PER_HALF_DAY
    + 51_184_000_000_000;

/// JD of the Unix epoch (1970-01-01T00:00:00Z).
pub const UNIX_EPOCH_JD_PS: i128 = 2_440_587 * PS_PER_DAY + PS_PER_HALF_DAY;

/// TCG/TCB epoch T₀: JD 2 443 144.500 372 5, i.e. 1977 January 1.0 TAI
/// (the fractional day is exactly 32.184 s).
pub const COORD_EPOCH_T0_PS: i128 = 2_443_144 * PS_PER_DAY + PS_PER_HALF_DAY + TT_MINUS_TAI_PS;

/// Numerator of the IAU defining constant L_G = 6.969 290 134 × 10⁻¹⁰
/// over the denominator [`L_RATE_DEN`].
pub const L_G_NUM: i128 = 6_969_290_134;

/// Numerator of the IAU defining constant L_B = 1.550 519 768 × 10⁻⁸
/// over the denominator [`L_RATE_DEN`].
pub const L_B_NUM: i128 = 155_051_976_800;

/// Common denominator of the linear-drift rate constants.
pub const L_RATE_DEN: i128 = 10_000_000_000_000_000_000;

/// Julian Date — the identity scale: the quantity *is* a Julian Day
/// number on the TT axis.
#[derive(Clone, Copy, Debug, PartialEq, Eq, Structural)]
pub struct JD;

impl TimeScale for JD {
    open spec fn to_canonical(v: int) -> int {
        v
    }

    open spec fn from_canonical(c: int) -> int {
        c
    }

    fn label() -> &'static str {
        "Julian Day:"
    }

    fn to_jd_tt(value: Days) -> (r: Days) {
        value
    }

    fn from_jd_tt(jd_tt: Days) -> (r: Days) {
        jd_tt
    }
}

/// Julian Ephemeris Day — a semantic label for ephemeris formulas;
/// numerically an absolute Julian day on the TT axis.
#[derive(Clone, Copy, Debug, PartialEq, Eq, Structural)]
pub struct JDE;

impl TimeScale for JDE {
    open spec fn to_canonical(v: int) -> int {
        v
    }

    open spec fn from_canonical(c: int) -> int {
        c
    }

    fn label() -> &'static str {
        "JDE"
    }

    fn to_jd_tt(value: Days) -> (r: Days) {
        value
    }

    fn from_jd_tt(jd_tt: Days) -> (r: Days) {
        jd_tt
    }
}

/// Modified Julian Date — JD minus 2 400 000.5.
#[derive(Clone, Copy, Debug, PartialEq, Eq, Structural)]
pub struct MJD;

impl TimeScale for MJD {
    open spec fn to_canonical(v: int) -> int {
        v + MJD_EPOCH_PS as int
    }

    open spec fn from_canonical(c: int) -> int {
        c - MJD_EPOCH_PS as int
    }

    fn label() -> &'static str {
        "MJD"
    }

    fn to_jd_tt(value: Days) -> (r: Days) {
        Days::from_ps(value.ps() + MJD_EPOCH_PS)
    }

    fn from_jd_tt(jd_tt: Days) -> (r: Days) {
        Days::from_ps(jd_tt.ps() - MJD_EPOCH_PS)
    }
}

/// Terrestrial Time — the basis for astronomical ephemerides; numerically
/// identical to the canonical Julian Day axis used throughout this crate.
#[derive(Clone, Copy, Debug, PartialEq, Eq, Structural)]
pub struct TT;

impl TimeScale for TT {
    open spec fn to_canonical(v: int) -> int {
        v
    }

    open spec fn from_canonical(c: int) -> int {
        c
    }

    fn label() -> &'static str {
        "TT"
    }

    fn to_jd_tt(value: Days) -> (r: Days) {
        value
    }

    fn from_jd_tt(jd_tt: Days) -> (r: Days) {
        jd_tt
    }
}

/// International Atomic Time: `TT = TAI + 32.184 s`.
#[derive(Clone, Copy, Debug, PartialEq, Eq, Structural)]
pub struct TAI;

impl TimeScale for TAI {
    open spec fn to_canonical(v: int) -> int {
        v + TT_MINUS_TAI_PS as int
    }

    open spec fn from_canonical(c: int) -> int {
        c - TT_MINUS_TAI_PS as int
    }

    fn label() -> &'static str {
        "TAI"
    }

    fn to_jd_tt(value: Days) -> (r: Days) {
        Days::from_ps(value.ps() + TT_MINUS_TAI_PS)
    }

    fn from_jd_tt(jd_tt: Days) -> (r: Days) {
        Days::from_ps(jd_tt.ps() - TT_MINUS_TAI_PS)
    }
}

/// GPS Time — continuous day count since 1980-01-06T00:00:00 UTC, with a
/// fixed offset from TAI: `GPS = TAI − 19 s`.
#[derive(Clone, Copy, Debug, PartialEq, Eq, Structural)]
pub struct GPS;

impl TimeScale for GPS {
    open spec fn to_canonical(v: int) -> int {
        v + GPS_EPOCH_JD_TT_PS as int
    }

    open spec fn from_canonical(c: int) -> int {
        c - GPS_EPOCH_JD_TT_PS as int
    }

    fn label() -> &'static str {
        "GPS"
    }

    fn to_jd_tt(value: Days) -> (r: Days) {
        Days::from_ps(value.ps() + GPS_EPOCH_JD_TT_PS)
    }

    fn from_jd_tt(jd_tt: Days) -> (r: Days) {
        Days::from_ps(jd_tt.ps() - GPS_EPOCH_JD_TT_PS)
    }
}

/// The linear drift a coordinate time scale accumulates against the
/// canonical axis since the 1977 epoch, at `num / L_RATE_DEN` per unit.
pub open spec fn coord_drift(v: int, num: int) -> int {
    (v - COORD_EPOCH_T0_PS) * num / (L_RATE_DEN as int)
}

/// The drift of an in-range value is far below the offset bound.
proof fn lemma_coord_drift_bound(v: int, num: int)
    requires
        -(MAX_SCALE_PS + 3 * OFFSET_BOUND_PS) <= v <= MAX_SCALE_PS + 3 * OFFSET_BOUND_PS,
        0 < num <= 200_000_000_000,
    ensures
        -(PS_PER_DAY as int) <= coord_drift(v, num) <= PS_PER_DAY as int,
{
    let diff = v - COORD_EPOCH_T0_PS;
    assert(-2_000_000_000_000_000_000_000_000 <= diff <= 2_000_000_000_000_000_000_000_000);
    let prod = diff * num;
    assert(-400_000_000_000_000_000_000_000_000_000_000_000 <= prod
        <= 400_000_000_000_000_000_000_000_000_000_000_000) by (nonlinear_arith)
        requires
            -2_000_000_000_000_000_000_000_000 <= diff <= 2_000_000_000_000_000_000_000_000,
            0 < num <= 200_000_000_000,
            prod == diff * num,
    ;
    lemma_div_abs_bound(
        prod,
        L_RATE_DEN as int,
        400_000_000_000_000_000_000_000_000_000_000_000,
        86_400_000_000_000_000,
    );
}

/// Geocentric Coordinate Time — the coordinate time of the GCRS
/// (IAU 2000 Resolution B1.9): `TT = TCG − L_G × (JD_TCG − T₀)`.
/// The inverse applies the first-order form
/// `JD_TCG = JD_TT + L_G × (JD_TT − T₀) / (1 − L_G)`.
#[derive(Clone, Copy, Debug, PartialEq, Eq, Structural)]
pub struct TCG;

impl TimeScale for TCG {
    open spec fn to_canonical(v: int) -> int {
        v - coord_drift(v, L_G_NUM as int)
    }

    open spec fn from_canonical(c: int) -> int {
        c + (c - COORD_EPOCH_T0_PS) * L_G_NUM / (L_RATE_DEN - L_G_NUM) as int
    }

    fn label() -> &'static str {
        "TCG"
    }

    fn to_jd_tt(value: Days) -> (r: Days) {
        proof {
            lemma_coord_drift_bound(value@, L_G_NUM as int);
        }
        let diff: i128 = value.ps() - COORD_EPOCH_T0_PS;
        let corr: i128 = div_floor(diff * L_G_NUM, L_RATE_DEN);
        Days::from_ps(value.ps() - corr)
    }

    fn from_jd_tt(jd_tt: Days) -> (r: Days) {
        let diff: i128 = jd_tt.ps() - COORD_EPOCH_T0_PS;
        let corr: i128 = div_floor(diff * L_G_NUM, L_RATE_DEN - L_G_NUM);
        proof {
            let prod = diff * L_G_NUM;
            assert(-400_000_000_000_000_000_000_000_000_000_000_000 <= prod
                <= 400_000_000_000_000_000_000_000_000_000_000_000) by (nonlinear_arith)
                requires
                    -2_000_000_000_000_000_000_000_000 <= diff
                        <= 2_000_000_000_000_000_000_000_000,
                    prod == diff * L_G_NUM,
            ;
            lemma_div_abs_bound(
                prod,
                L_RATE_DEN - L_G_NUM,
                400_000_000_000_000_000_000_000_000_000_000_000,
                86_400_000_000_000_000,
            );
        }
        Days::from_ps(jd_tt.ps() + corr)
    }
}

/// Barycentric Coordinate Time — the coordinate time of the BCRS
/// (IAU 2006 Resolution B3): `TDB = TCB − L_B × (JD_TCB − T₀)`, treating
/// TDB ≈ TT on this axis (the ≈1.7 ms periodic difference is the TDB
/// scale's own business).
#[derive(Clone, Copy, Debug, PartialEq, Eq, Structural)]
pub struct TCB;

impl TimeScale for TCB {
    open spec fn to_canonical(v: int) -> int {
        v - coord_drift(v, L_B_NUM as int)
    }

    open spec fn from_canonical(c: int) -> int {
        c + coord_drift(c, L_B_NUM as int)
    }

    fn label() -> &'static str {
        "TCB"
    }

    fn to_jd_tt(value: Days) -> (r: Days) {
        proof {
            lemma_coord_drift_bound(value@, L_B_NUM as int);
        }
        let diff: i128 = value.ps() - COORD_EPOCH_T0_PS;
        let corr: i128 = div_floor(diff * L_B_NUM, L_RATE_DEN);
        Days::from_ps(value.ps() - corr)
    }

    fn from_jd_tt(jd_tt: Days) -> (r: Days) {
        proof {
            lemma_coord_drift_bound(jd_tt@, L_B_NUM as int);
        }
        let diff: i128 = jd_tt.ps() - COORD_EPOCH_T0_PS;
        let corr: i128 = div_floor(diff * L_B_NUM, L_RATE_DEN);
        Days::from_ps(jd_tt.ps() + corr)
    }
}

/// The conventional TAI − UTC offset before the leap-second system
/// began on 1972-01-01: ten seconds.
pub const LEAP_INITIAL_PS: i128 = 10 * PS_PER_SEC;

/// Number of leap-second insertions the table holds (1972–2017).
pub const LEAP_TERMS: usize = 28;

/// Upper-bound guess of TT − UTC used to seed the inverse Unix
/// conversion: 37 s of leap seconds plus 32.184 s.
pub const UNIX_GUESS_PS: i128 = 69_184_000_000_000;

/// The whole day count of the epoch at which leap-second insertion `i`
/// takes effect (00:00:00 UTC that day; the second is inserted at the end
/// of the previous day).  Source: IERS Bulletin C.
pub open spec fn leap_epoch_day(i: int) -> int {
    if i == 0 {
        2441317
    } else
    if i == 1 {
        2441499
    } else
    if i == 2 {
        2441683
    } else
    if i == 3 {
        2442048
    } else
    if i == 4 {
        2442413
    } else
    if i == 5 {
        2442778
    } else
    if i == 6 {
        2443144
    } else
    if i == 7 {
        2443509
    } else
    if i == 8 {
        2443874
    } else
    if i == 9 {
        2444239
    } else
    if i == 10 {
        2444786
    } else
    if i == 11 {
        2445151
    } else
    if i == 12 {
        2445516
    } else
    if i == 13 {
        2446247
    } else
    if i == 14 {
        2447161
    } else
    if i == 15 {
        2447892
    } else
    if i == 16 {
        2448257
    } else
    if i == 17 {
        2448804
    } else
    if i == 18 {
        2449169
    } else
    if i == 19 {
        2449534
    } else
    if i == 20 {
        2450083
    } else
    if i == 21 {
        2450630
    } else
    if i == 22 {
        2451179
    } else
    if i == 23 {
        2453736
    } else
    if i == 24 {
        2454832
    } else
    if i == 25 {
        2456109
    } else
    if i == 26 {
        2457204
    } else
    {
        2457754
    }
}

/// The epoch of insertion `i` as a picosecond count on the UTC axis
/// (each epoch stands at `day + 0.5` on the Julian Day axis).
pub open spec fn leap_epoch_ps(i: int) -> int {
    leap_epoch_day(i) * PS_PER_DAY + PS_PER_HALF_DAY as int
}

/// The cumulative TAI − UTC offset in effect from insertion `i` on: the
/// table begins at 10 s and each insertion adds one second.
pub open spec fn leap_offset_ps(i: int) -> int {
    (10 + i) * PS_PER_SEC
}

/// The epoch of leap-second insertion `i`, in picoseconds on the UTC axis.
pub fn leap_epoch_at(i: usize) -> (r: i128)
    requires
        i < LEAP_TERMS,
    ensures
        r as int == leap_epoch_ps(i as int),
{
    let day: i128 = match i {
        0 => 2441317,
        1 => 2441499,
        2 => 2441683,
        3 => 2442048,
        4 => 2442413,
        5 => 2442778,
        6 => 2443144,
        7 => 2443509,
        8 => 2443874,
        9 => 2444239,
        10 => 2444786,
        11 => 2445151,
        12 => 2445516,
        13 => 2446247,
        14 => 2447161,
        15 => 2447892,
        16 => 2448257,
        17 => 2448804,
        18 => 2449169,
        19 => 2449534,
        20 => 2450083,
        21 => 2450630,
        22 => 2451179,
        23 => 2453736,
        24 => 2454832,
        25 => 2456109,
        26 => 2457204,
        _ => 2457754,
    };
    day * PS_PER_DAY + PS_PER_HALF_DAY
}

/// The table's epochs ascend strictly.
pub proof fn lemma_leap_epochs_sorted()
    ensures
        forall|i: int, j: int|
            0 <= i < j < LEAP_TERMS ==> leap_epoch_ps(i) < leap_epoch_ps(j),
{
    assert forall|i: int, j: int| 0 <= i < j < LEAP_TERMS implies leap_epoch_ps(i) < leap_epoch_ps(
        j,
    ) by {
        assert(leap_epoch_day(i) < leap_epoch_day(j));
    }
}

/// The cumulative offset the table assigns to a query: the offset of the
/// greatest epoch not exceeding it, and the initial constant before every
/// epoch.  Defined by scanning the entries from the top.
pub open spec fn leap_lookup_from(i: nat, jd: int) -> int
    decreases i,
{
    if i == 0 {
        LEAP_INITIAL_PS as int
    } else if leap_epoch_ps(i - 1) <= jd {
        leap_offset_ps(i - 1)
    } else {
        leap_lookup_from((i - 1) as nat, jd)
    }
}

/// Cumulative TAI − UTC at a Julian Date on the UTC axis.
pub open spec fn tai_minus_utc_model(jd: int) -> int {
    leap_lookup_from(LEAP_TERMS as nat, jd)
}

/// Scanning from `i` down gives the offset of the last entry at or below
/// the query, once the entries from `m` on are known to lie above it and
/// those below `m` at or below it.
proof fn lemma_leap_lookup_pivot(jd: int, m: int, i: int)
    requires
        0 <= m <= i <= LEAP_TERMS,
        forall|k: int| 0 <= k < m ==> leap_epoch_ps(k) <= jd,
        forall|k: int| m <= k < LEAP_TERMS ==> leap_epoch_ps(k) > jd,
    ensures
        leap_lookup_from(i as nat, jd) == if m == 0 {
            LEAP_INITIAL_PS as int
        } else {
            leap_offset_ps(m - 1)
        },
    decreases i,
{
    if i > m {
        lemma_leap_lookup_pivot(jd, m, i - 1);
    }
}

/// Look up cumulative TAI − UTC (leap seconds) for a JD on the UTC axis,
/// by binary search for the greatest epoch not exceeding the query.
/// Before the first entry the conventional initial 10 s offset applies.
pub fn tai_minus_utc(jd_utc: Days) -> (r: Days)
    ensures
        r@ == tai_minus_utc_model(jd_utc@),
        LEAP_INITIAL_PS <= r@ <= 37 * PS_PER_SEC,
{
    proof {
        lemma_leap_epochs_sorted();
    }
    let mut lo: usize = 0;
    let mut hi: usize = LEAP_TERMS;
    while lo < hi
        invariant
            lo <= hi <= LEAP_TERMS,
            forall|k: int| 0 <= k < lo ==> leap_epoch_ps(k) <= jd_utc@,
            forall|k: int| hi <= k < LEAP_TERMS ==> leap_epoch_ps(k) > jd_utc@,
            forall|i: int, j: int|
                0 <= i < j < LEAP_TERMS ==> leap_epoch_ps(i) < leap_epoch_ps(j),
        decreases hi - lo,
    {
        let mid: usize = lo + (hi - lo) / 2;
        if leap_epoch_at(mid) <= jd_utc.ps() {
            lo = mid + 1;
        } else {
            hi = mid;
        }
    }
    proof {
        lemma_leap_lookup_pivot(jd_utc@, lo as int, LEAP_TERMS as int);
    }
    if lo == 0 {
        Days::from_ps(LEAP_INITIAL_PS)
    } else {
        Days::from_ps((10 + (lo - 1) as i128) * PS_PER_SEC)
    }
}

/// Unix Time — seconds since 1970-01-01T00:00:00 UTC, stored as **days**
/// on the UTC axis.  The conversion applies the cumulative leap-second
/// offset, so `TT = UTC + (TAI − UTC) + 32.184 s`.  The inverse first
/// estimates the offset with a conservative upper-bound guess and then
/// refines it once with the table; it is exact as long as no insertion
/// epoch falls between the guessed and the refined query point.
#[derive(Clone, Copy, Debug, PartialEq, Eq, Structural)]
pub struct UnixTime;

impl TimeScale for UnixTime {
    open spec fn to_canonical(v: int) -> int {
        v + UNIX_EPOCH_JD_PS + tai_minus_utc_model(v + UNIX_EPOCH_JD_PS)
            + TT_MINUS_TAI_PS
    }

    open spec fn from_canonical(c: int) -> int {
        c - tai_minus_utc_model(c - UNIX_GUESS_PS) - TT_MINUS_TAI_PS - UNIX_EPOCH_JD_PS
    }

    fn label() -> &'static str {
        "Unix"
    }

    fn to_jd_tt(value: Days) -> (r: Days) {
        let jd_utc: i128 = value.ps() + UNIX_EPOCH_JD_PS;
        let ls: Days = tai_minus_utc(Days::from_ps(jd_utc));
        Days::from_ps(jd_utc + ls.ps() + TT_MINUS_TAI_PS)
    }

    fn from_jd_tt(jd_tt: Days) -> (r: Days) {
        let approx_utc: i128 = jd_tt.ps() - UNIX_GUESS_PS;
        let ls: Days = tai_minus_utc(Days::from_ps(approx_utc));
        Days::from_ps(jd_tt.ps() - ls.ps() - TT_MINUS_TAI_PS - UNIX_EPOCH_JD_PS)
    }
}

/// Universal Time — the civil time scale tied to Earth's rotation.
///
/// Unlike JD, JDE and TT (which live on the uniform TT axis), `UT`
/// encodes a Julian Day on the **UT** axis.  The conversion to JD(TT)
/// adds the epoch-dependent ΔT correction, and the inverse runs the
/// three-step fixed-point solver `ut ← tt − ΔT(ut)` seeded with
/// `ut = tt`; ΔT drifts by parts in 10⁸ per day, so three steps settle
/// far below the fixed-point resolution.
#[derive(Clone, Copy, Debug, PartialEq, Eq, Structural)]
pub struct UT;

impl TimeScale for UT {
    open spec fn to_canonical(v: int) -> int {
        v + crate::delta_t::delta_t_model(v)
    }

    open spec fn from_canonical(c: int) -> int {
        c - crate::delta_t::delta_t_model(
            c - crate::delta_t::delta_t_model(c - crate::delta_t::delta_t_model(c)),
        )
    }

    fn label() -> &'static str {
        "UT"
    }

    fn to_jd_tt(value: Days) -> (r: Days) {
        let dt: Days = crate::delta_t::delta_t_seconds_from_ut(value);
        value.plus(dt)
    }

    fn from_jd_tt(jd_tt: Days) -> (r: Days) {
        let u1: Days = jd_tt.minus(crate::delta_t::delta_t_seconds_from_ut(jd_tt));
        let u2: Days = jd_tt.minus(crate::delta_t::delta_t_seconds_from_ut(u1));
        jd_tt.minus(crate::delta_t::delta_t_seconds_from_ut(u2))
    }
}


/// JD(TT) of the J2000.0 epoch (2000-01-01T12:00:00 TT).
pub const J2000_PS: i128 = 2_451_545 * PS_PER_DAY;

/// Earth's mean anomaly at J2000, in pico-degrees.
pub const ME_A0_PDEG: i128 = 357_529_109_200_000;

/// Earth's mean anomaly rate, in pico-degrees per Julian century.
pub const ME_A1_PDEG: i128 = 35_999_050_290_900_000;

/// Jupiter's mean anomaly at J2000, in pico-degrees.
pub const MJ_A0_PDEG: i128 = 246_451_200_000_000;

/// Jupiter's mean anomaly rate, in pico-degrees per Julian century.
pub const MJ_A1_PDEG: i128 = 3_035_233_500_000_000;

/// The Moon's mean elongation from the Sun at J2000, in pico-degrees.
pub const D_A0_PDEG: i128 = 297_850_204_200_000;

/// The Moon's mean elongation rate, in pico-degrees per Julian century.
pub const D_A1_PDEG: i128 = 445_267_111_516_800_000;

/// Mean longitude of the lunar ascending node at J2000, in pico-degrees.
pub const OM_A0_PDEG: i128 = 125_044_555_000_000;

/// The node's rate, in pico-degrees per Julian century.
pub const OM_A1_PDEG: i128 = -1_934_136_209_100_000;

/// Earth's orbital eccentricity correction 0.01671 at the trig scale.
pub const E_SUN_TRIG: i128 = 16_710_000_000;

/// The five periodic amplitudes, in picoseconds: 1.657 ms, 22 µs, 14 µs,
/// 5 µs and 5 µs.
pub const TDB_AMP1_PS: i128 = 1_657_000_000;

/// See [`TDB_AMP1_PS`].
pub const TDB_AMP2_PS: i128 = 22_000_000;

/// See [`TDB_AMP1_PS`].
pub const TDB_AMP3_PS: i128 = 14_000_000;

/// See [`TDB_AMP1_PS`].
pub const TDB_AMP4_PS: i128 = 5_000_000;

/// See [`TDB_AMP1_PS`].
pub const TDB_AMP5_PS: i128 = 5_000_000;

/// TDB − TT in picoseconds: the four-to-five largest periodic terms of
/// the Fairhead & Bretagnon (1990) series, each a fixed amplitude times
/// the sine of a mean anomaly, elongation or node longitude that runs
/// linearly in Julian centuries from J2000.
pub open spec fn tdb_minus_tt_model(jd: int) -> int {
    let t = (jd - J2000_PS) / crate::delta_t::CENT_FDIV as int;
    let me = ME_A0_PDEG + ME_A1_PDEG * t / crate::delta_t::FEMTO as int;
    let mj = MJ_A0_PDEG + MJ_A1_PDEG * t / crate::delta_t::FEMTO as int;
    let d = D_A0_PDEG + D_A1_PDEG * t / crate::delta_t::FEMTO as int;
    let om = OM_A0_PDEG + OM_A1_PDEG * t / crate::delta_t::FEMTO as int;
    let me_r = crate::trig::deg_to_prad_model(me);
    let inner = me_r + E_SUN_TRIG * crate::trig::sin_prad_model(me_r)
        / crate::trig::TRIG_SCALE as int;
    (TDB_AMP1_PS * crate::trig::sin_prad_model(inner) + TDB_AMP2_PS
        * crate::trig::sin_prad_model(crate::trig::deg_to_prad_model(d - me)) + TDB_AMP3_PS
        * crate::trig::sin_prad_model(crate::trig::deg_to_prad_model(2 * d)) + TDB_AMP4_PS
        * crate::trig::sin_prad_model(crate::trig::deg_to_prad_model(mj)) + TDB_AMP5_PS
        * crate::trig::sin_prad_model(crate::trig::deg_to_prad_model(om)))
        / crate::trig::TRIG_SCALE as int
}

/// Compute TDB − TT (under two milliseconds everywhere).
pub fn tdb_minus_tt_days(jd_tt: Days) -> (r: Days)
    requires
        crate::delta_t::in_dt_domain(jd_tt@),
    ensures
        r@ == tdb_minus_tt_model(jd_tt@),
        -2_000_000_000 <= r@ <= 2_000_000_000,
{
    proof {
        lemma_div_abs_bound(
            jd_tt@ - J2000_PS,
            crate::delta_t::CENT_FDIV as int,
            2_000_000_000_000_000_000_000_000,
            640_000_000_000_000_000,
        );
    }
    let t: i128 = div_floor(jd_tt.ps() - J2000_PS, crate::delta_t::CENT_FDIV);
    proof {
        lemma_div_abs_bound(
            ME_A1_PDEG * t,
            crate::delta_t::FEMTO as int,
            300_000_000_000_000_000_000_000_000_000_000_000,
            301_000_000_000_000_000_000,
        );
        lemma_div_abs_bound(
            MJ_A1_PDEG * t,
            crate::delta_t::FEMTO as int,
            300_000_000_000_000_000_000_000_000_000_000_000,
            301_000_000_000_000_000_000,
        );
        lemma_div_abs_bound(
            D_A1_PDEG * t,
            crate::delta_t::FEMTO as int,
            300_000_000_000_000_000_000_000_000_000_000_000,
            301_000_000_000_000_000_000,
        );
        lemma_div_abs_bound(
            OM_A1_PDEG * t,
            crate::delta_t::FEMTO as int,
            300_000_000_000_000_000_000_000_000_000_000_000,
            301_000_000_000_000_000_000,
        );
    }
    let me: i128 = ME_A0_PDEG + div_floor(ME_A1_PDEG * t, crate::delta_t::FEMTO);
    let mj: i128 = MJ_A0_PDEG + div_floor(MJ_A1_PDEG * t, crate::delta_t::FEMTO);
    let d: i128 = D_A0_PDEG + div_floor(D_A1_PDEG * t, crate::delta_t::FEMTO);
    let om: i128 = OM_A0_PDEG + div_floor(OM_A1_PDEG * t, crate::delta_t::FEMTO);
    let me_r: i128 = crate::trig::deg_to_prad(me);
    let s_me: i128 = crate::trig::sin_prad(me_r);
    proof {
        lemma_div_abs_bound(
            E_SUN_TRIG * s_me,
            crate::trig::TRIG_SCALE as int,
            17_600_000_000_000_000_000_000,
            18_000_000_000,
        );
    }
    let inner: i128 = me_r + div_floor(E_SUN_TRIG * s_me, crate::trig::TRIG_SCALE);
    let s1: i128 = crate::trig::sin_prad(inner);
    let s2: i128 = crate::trig::sin_prad(crate::trig::deg_to_prad(d - me));
    let s3: i128 = crate::trig::sin_prad(crate::trig::deg_to_prad(2 * d));
    let s4: i128 = crate::trig::sin_prad(crate::trig::deg_to_prad(mj));
    let s5: i128 = crate::trig::sin_prad(crate::trig::deg_to_prad(om));
    let sum: i128 = TDB_AMP1_PS * s1 + TDB_AMP2_PS * s2 + TDB_AMP3_PS * s3 + TDB_AMP4_PS * s4
        + TDB_AMP5_PS * s5;
    proof {
        lemma_div_abs_bound(
            sum as int,
            crate::trig::TRIG_SCALE as int,
            1_800_000_000_000_000_000_000,
            1_900_000_000,
        );
    }
    Days::from_ps(div_floor(sum, crate::trig::TRIG_SCALE))
}

/// Barycentric Dynamical Time.
///
/// TDB differs from TT by a periodic correction of roughly 1.7 ms
/// amplitude (Fairhead & Bretagnon 1990); the conversions apply the
/// largest periodic terms in both directions.  The inverse evaluates the
/// series at the given TDB value directly: the correction is so small and
/// slow that one pass lands within nanoseconds of the exact inverse.
#[derive(Clone, Copy, Debug, PartialEq, Eq, Structural)]
pub struct TDB;

impl TimeScale for TDB {
    open spec fn to_canonical(v: int) -> int {
        v - tdb_minus_tt_model(v)
    }

    open spec fn from_canonical(c: int) -> int {
        c + tdb_minus_tt_model(c)
    }

    fn label() -> &'static str {
        "TDB"
    }

    fn to_jd_tt(value: Days) -> (r: Days) {
        let corr: Days = tdb_minus_tt_days(value);
        value.minus(corr)
    }

    fn from_jd_tt(jd_tt: Days) -> (r: Days) {
        let corr: Days = tdb_minus_tt_days(jd_tt);
        jd_tt.plus(corr)
    }
}


} // verus!
