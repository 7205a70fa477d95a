//! The algebraic laws of the conversion graph, proved once for every
//! caller: exact round trips for the constant-offset scales, tightly
//! bounded round trips for the drifting and stepped scales, path
//! independence of cross-scale conversion, the anchor and plausibility
//! facts of the ΔT model, the monotonicity of the leap-second lookup, and
//! the laws of the interval algebra.

use vstd::prelude::*;

use crate::days::{in_canonical_range, in_scale_range, MAX_SCALE_PS, OFFSET_BOUND_PS, PS_PER_DAY, PS_PER_SEC};
use crate::delta_t::{
    delta_t_extrapolated_model, delta_t_model, EXTRAP_RATE_PS, JD_2026_PS, TABLE_START_PS,
    YEAR_FDIV, YEAR_FRAC,
};
use crate::dispatch::{convert_model, scale_from_canonical, scale_to_canonical, TempochScale};
use crate::instant::{TimeInstant, TimeScale};
use crate::period::Interval;
use crate::scales::{
    leap_epoch_ps, leap_lookup_from, tai_minus_utc_model, UnixTime, COORD_EPOCH_T0_PS,
    LEAP_INITIAL_PS, LEAP_TERMS, L_B_NUM, L_G_NUM, L_RATE_DEN, TCB, TCG, UNIX_EPOCH_JD_PS,
    UNIX_GUESS_PS,
};

verus! {

/// The scales whose relation to the canonical axis is one constant
/// offset.
pub open spec fn is_offset_scale(s: TempochScale) -> bool {
    match s {
        TempochScale::JD => true,
        TempochScale::JDE => true,
        TempochScale::MJD => true,
        TempochScale::TT => true,
        TempochScale::TAI => true,
        TempochScale::GPS => true,
        _ => false,
    }
}

/// Round trip: for every constant-offset scale the two conversions are
/// exact inverses, in both orders and for every value.
pub proof fn lemma_offset_scale_roundtrip(s: TempochScale, v: int)
    requires
        is_offset_scale(s),
    ensures
        scale_from_canonical(s, scale_to_canonical(s, v)) == v,
        scale_to_canonical(s, scale_from_canonical(s, v)) == v,
{
}

/// Path independence: converting between two constant-offset scales and
/// back returns the original value exactly.
pub proof fn lemma_path_independence(v: int, a: TempochScale, b: TempochScale)
    requires
        is_offset_scale(a),
        is_offset_scale(b),
    ensures
        convert_model(convert_model(v, a, b), b, a) == v,
{
}

/// Path independence through a third scale: a chained conversion by way
/// of any constant-offset scale equals the direct conversion, whatever
/// the end scales.
pub proof fn lemma_path_via_third(v: int, a: TempochScale, c: TempochScale, b: TempochScale)
    requires
        is_offset_scale(c),
    ensures
        convert_model(convert_model(v, a, c), c, b) == convert_model(v, a, b),
{
}

/// Round trip for TCG: the first-order inverse of the linear drift
/// recovers the value to within two picoseconds, for every value in
/// range — the forward and inverse rates cancel exactly over the reals,
/// so only the two floors remain.
pub proof fn lemma_tcg_roundtrip(v: int)
    requires
        in_scale_range(v),
    ensures
        v <= TCG::from_canonical(TCG::to_canonical(v)) <= v + 2,
{
    let d = L_RATE_DEN as int;
    let n = L_G_NUM as int;
    let d2 = d - n;
    let d1 = v - COORD_EPOCH_T0_PS;
    let q1 = d1 * n / d;
    let w = v - q1;
    let q2 = (w - COORD_EPOCH_T0_PS) * n / d2;
    vstd::arithmetic::div_mod::lemma_fundamental_div_mod(d1 * n, d);
    vstd::arithmetic::div_mod::lemma_mod_bound(d1 * n, d);
    vstd::arithmetic::div_mod::lemma_fundamental_div_mod((d1 - q1) * n, d2);
    vstd::arithmetic::div_mod::lemma_mod_bound((d1 - q1) * n, d2);
    assert(q1 <= q2 <= q1 + 1) by (nonlinear_arith)
        requires
            d == 10_000_000_000_000_000_000,
            n == 6_969_290_134,
            d2 == d - n,
            d1 * n == d * q1 + (d1 * n) % d,
            0 <= (d1 * n) % d < d,
            (d1 - q1) * n == d2 * q2 + ((d1 - q1) * n) % d2,
            0 <= ((d1 - q1) * n) % d2 < d2,
    ;
    assert(w - COORD_EPOCH_T0_PS == d1 - q1);
    assert(TCG::from_canonical(TCG::to_canonical(v)) == v - q1 + q2);
}

/// Round trip for TCB: the same linear rate is applied in both
/// directions, so the discrepancy is the second-order drift — under
/// half a microsecond over the whole range, orders below a nanosecond
/// per day of drift accumulated near J2000.
pub proof fn lemma_tcb_roundtrip(v: int)
    requires
        in_scale_range(v),
    ensures
        -500_000_000 <= TCB::from_canonical(TCB::to_canonical(v)) - v <= 500_000_000,
{
    let d = L_RATE_DEN as int;
    let n = L_B_NUM as int;
    let d1 = v - COORD_EPOCH_T0_PS;
    let q1 = d1 * n / d;
    let w = v - q1;
    let q2 = (w - COORD_EPOCH_T0_PS) * n / d;
    vstd::arithmetic::div_mod::lemma_fundamental_div_mod(d1 * n, d);
    vstd::arithmetic::div_mod::lemma_mod_bound(d1 * n, d);
    vstd::arithmetic::div_mod::lemma_fundamental_div_mod((d1 - q1) * n, d);
    vstd::arithmetic::div_mod::lemma_mod_bound((d1 - q1) * n, d);
    assert(-500_000_000 <= q2 - q1 <= 500_000_000) by (nonlinear_arith)
        requires
            d == 10_000_000_000_000_000_000,
            n == 155_051_976_800,
            -1_100_000_000_000_000_000_000_000 <= d1 <= 1_100_000_000_000_000_000_000_000,
            d1 * n == d * q1 + (d1 * n) % d,
            0 <= (d1 * n) % d < d,
            (d1 - q1) * n == d * q2 + ((d1 - q1) * n) % d,
            0 <= ((d1 - q1) * n) % d < d,
    ;
    assert(w - COORD_EPOCH_T0_PS == d1 - q1);
    assert(TCB::from_canonical(TCB::to_canonical(v)) == v - q1 + q2);
}


/// Canonical-side round trip for TCG: converting a canonical instant out
/// to TCG and back recovers it exactly — the inverse's divisor is chosen
/// so the two floors cancel.
pub proof fn lemma_tcg_canonical_roundtrip(c: int)
    requires
        in_canonical_range(c),
    ensures
        TCG::to_canonical(TCG::from_canonical(c)) == c,
{
    let d = L_RATE_DEN as int;
    let n = L_G_NUM as int;
    let d2 = d - n;
    let dd = c - COORD_EPOCH_T0_PS;
    let q1 = dd * n / d2;
    let w = c + q1;
    let q2 = (w - COORD_EPOCH_T0_PS) * n / d;
    vstd::arithmetic::div_mod::lemma_fundamental_div_mod(dd * n, d2);
    vstd::arithmetic::div_mod::lemma_mod_bound(dd * n, d2);
    vstd::arithmetic::div_mod::lemma_fundamental_div_mod((dd + q1) * n, d);
    vstd::arithmetic::div_mod::lemma_mod_bound((dd + q1) * n, d);
    assert(q2 == q1) by (nonlinear_arith)
        requires
            d == 10_000_000_000_000_000_000,
            n == 6_969_290_134,
            d2 == d - n,
            dd * n == d2 * q1 + (dd * n) % d2,
            0 <= (dd * n) % d2 < d2,
            (dd + q1) * n == d * q2 + ((dd + q1) * n) % d,
            0 <= ((dd + q1) * n) % d < d,
    ;
    assert(w - COORD_EPOCH_T0_PS == dd + q1);
}

/// Canonical-side round trip for TCB: out to TCB and back lands within
/// a third of a microsecond (the second-order drift).
pub proof fn lemma_tcb_canonical_roundtrip(c: int)
    requires
        in_canonical_range(c),
    ensures
        -500_000_000 <= TCB::to_canonical(TCB::from_canonical(c)) - c <= 500_000_000,
{
    let d = L_RATE_DEN as int;
    let n = L_B_NUM as int;
    let dd = c - COORD_EPOCH_T0_PS;
    let q1 = dd * n / d;
    let w = c + q1;
    let q2 = (w - COORD_EPOCH_T0_PS) * n / d;
    vstd::arithmetic::div_mod::lemma_fundamental_div_mod(dd * n, d);
    vstd::arithmetic::div_mod::lemma_mod_bound(dd * n, d);
    vstd::arithmetic::div_mod::lemma_fundamental_div_mod((dd + q1) * n, d);
    vstd::arithmetic::div_mod::lemma_mod_bound((dd + q1) * n, d);
    assert(-500_000_000 <= q1 - q2 <= 500_000_000) by (nonlinear_arith)
        requires
            d == 10_000_000_000_000_000_000,
            n == 155_051_976_800,
            -1_400_000_000_000_000_000_000_000 <= dd <= 1_400_000_000_000_000_000_000_000,
            dd * n == d * q1 + (dd * n) % d,
            0 <= (dd * n) % d < d,
            (dd + q1) * n == d * q2 + ((dd + q1) * n) % d,
            0 <= ((dd + q1) * n) % d < d,
    ;
    assert(w - COORD_EPOCH_T0_PS == dd + q1);
}

/// Path independence where the far scale drifts: converting from a
/// constant-offset scale to TCG and back is exact; to TCB and back it
/// lands within the second-order drift.
pub proof fn lemma_path_independence_drift(v: int, a: TempochScale)
    requires
        is_offset_scale(a),
        in_scale_range(v),
    ensures
        convert_model(convert_model(v, a, TempochScale::TCG), TempochScale::TCG, a) == v,
        -500_000_000 <= convert_model(
            convert_model(v, a, TempochScale::TCB),
            TempochScale::TCB,
            a,
        ) - v <= 500_000_000,
{
    let c = scale_to_canonical(a, v);
    assert(in_canonical_range(c));
    lemma_tcg_canonical_roundtrip(c);
    lemma_tcb_canonical_roundtrip(c);
}

/// The leap-second lookup never returns less than the initial constant
/// nor more than the offset of the last entry it scans (so at most the
/// table's final 37 s).
pub proof fn lemma_leap_lookup_bounds(i: nat, jd: int)
    requires
        i <= LEAP_TERMS,
    ensures
        LEAP_INITIAL_PS <= leap_lookup_from(i, jd),
        leap_lookup_from(i, jd) <= (if i == 0 {
            10int
        } else {
            9 + i as int
        }) * PS_PER_SEC,
    decreases i,
{
    if i > 0 {
        lemma_leap_lookup_bounds((i - 1) as nat, jd);
    }
}

/// Leap-second monotonicity: the cumulative offset is non-decreasing as
/// the query epoch increases.
pub proof fn lemma_leap_monotonic(j1: int, j2: int)
    requires
        j1 <= j2,
    ensures
        tai_minus_utc_model(j1) <= tai_minus_utc_model(j2),
{
    lemma_leap_lookup_monotonic(LEAP_TERMS as nat, j1, j2);
}

/// The scan underlying the lookup is monotone in the query, level by
/// level.
proof fn lemma_leap_lookup_monotonic(i: nat, j1: int, j2: int)
    requires
        i <= LEAP_TERMS,
        j1 <= j2,
    ensures
        leap_lookup_from(i, j1) <= leap_lookup_from(i, j2),
    decreases i,
{
    if i > 0 {
        lemma_leap_lookup_bounds((i - 1) as nat, j1);
        if leap_epoch_ps(i - 1) <= j1 {
        } else if leap_epoch_ps(i - 1) <= j2 {
        } else {
            lemma_leap_lookup_monotonic((i - 1) as nat, j1, j2);
        }
    }
}

/// A query before the table's first entry returns exactly the documented
/// initial constant.
pub proof fn lemma_leap_before_first(jd: int)
    requires
        jd < leap_epoch_ps(0),
    ensures
        tai_minus_utc_model(jd) == LEAP_INITIAL_PS,
{
    lemma_leap_lookup_before_first(LEAP_TERMS as nat, jd);
}

/// Every level of the scan falls through to the initial constant when
/// the query precedes the first epoch.
proof fn lemma_leap_lookup_before_first(i: nat, jd: int)
    requires
        i <= LEAP_TERMS,
        jd < leap_epoch_ps(0),
    ensures
        leap_lookup_from(i, jd) == LEAP_INITIAL_PS,
    decreases i,
{
    if i > 0 {
        assert(leap_epoch_ps(0) <= leap_epoch_ps(i - 1)) by {
            if i - 1 > 0 {
                crate::scales::lemma_leap_epochs_sorted();
            }
        }
        lemma_leap_lookup_before_first((i - 1) as nat, jd);
    }
}

/// Round trip for the Unix scale: the inverse guesses the offset with an
/// upper bound and refines once, so the recovered value can only sit at
/// or above the original, by at most the span of the leap-second table
/// (27 s) — and exactly on it whenever no insertion epoch falls inside
/// the guess window.
pub proof fn lemma_unix_roundtrip(v: int)
    requires
        in_scale_range(v),
    ensures
        v <= UnixTime::from_canonical(UnixTime::to_canonical(v)),
        UnixTime::from_canonical(UnixTime::to_canonical(v)) <= v + 27 * PS_PER_SEC,
        tai_minus_utc_model(UnixTime::to_canonical(v) - UNIX_GUESS_PS) == tai_minus_utc_model(
            v + UNIX_EPOCH_JD_PS,
        ) ==> UnixTime::from_canonical(UnixTime::to_canonical(v)) == v,
{
    let u = v + UNIX_EPOCH_JD_PS;
    let c = UnixTime::to_canonical(v);
    let u2 = c - UNIX_GUESS_PS;
    assert(u2 == u + tai_minus_utc_model(u) - 37 * PS_PER_SEC);
    lemma_leap_lookup_bounds(LEAP_TERMS as nat, u);
    lemma_leap_lookup_bounds(LEAP_TERMS as nat, u2);
    lemma_leap_monotonic(u2, u);
}

/// ΔT at the biennial table's first entry epoch equals the interpolation
/// node's value exactly: 115 seconds.
pub proof fn lemma_delta_t_table_anchor()
    ensures
        delta_t_model(TABLE_START_PS as int) == 115 * PS_PER_SEC,
{
    let jd = TABLE_START_PS as int;
    assert((jd - TABLE_START_PS) / crate::delta_t::BIENNIAL_STEP_PS as int == 0);
    assert(crate::delta_t::biennial_entry(1) == 1150);
    let raw = (jd - TABLE_START_PS) / crate::delta_t::BIENNIAL_STEP_PS as int;
    let i = if raw < 0 { 0int } else if raw > 184 { 184int } else { raw };
    assert(i == 0);
    let a = (crate::delta_t::biennial_entry(i + 1) - crate::delta_t::biennial_entry(i))
        * crate::delta_t::DS_PS;
    let b = (crate::delta_t::biennial_entry(i + 2) - crate::delta_t::biennial_entry(i + 1))
        * crate::delta_t::DS_PS;
    let cc = a - b;
    let n = (jd - (TABLE_START_PS + crate::delta_t::BIENNIAL_STEP_PS * i)) * crate::delta_t::FEMTO
        / crate::delta_t::BIENNIAL_STEP_PS as int;
    assert(n == 0);
    assert(n * (a + b + n * cc / crate::delta_t::FEMTO as int) / (2 * crate::delta_t::FEMTO) as int
        == 0);
    assert(crate::delta_t::delta_t_table_model(jd) == 115 * PS_PER_SEC);
}

/// ΔT at J2000 reproduces the observed anchor for the year 2000 exactly:
/// 63.83 seconds.
pub proof fn lemma_delta_t_j2000_anchor()
    ensures
        delta_t_model(crate::scales::J2000_PS as int) == 63_830_000_000_000,
{
    let jd = crate::scales::J2000_PS as int;
    let y = (jd - crate::delta_t::OBS_BASE_PS) / YEAR_FDIV as int;
    assert(y == 800_000_000_000_000);
    assert(crate::delta_t::observed_entry(8) == 6383);
    let idx = y / YEAR_FRAC as int;
    let frac = y % YEAR_FRAC as int;
    assert(idx == 8);
    assert(frac == 0);
    assert(frac * ((crate::delta_t::observed_entry(idx + 1) - crate::delta_t::observed_entry(idx))
        * crate::delta_t::CS_PS) / YEAR_FRAC as int == 0);
    assert(crate::delta_t::delta_t_observed_model(jd) == 63_830_000_000_000);
}

/// ΔT stays bounded and plausible for decades past the last observed
/// anchor: under 80 seconds anywhere in the twenty years past the data
/// cutoff, never the old runaway quadratic.
pub proof fn lemma_delta_t_plausible_near_future(jd: int)
    requires
        JD_2026_PS <= jd <= JD_2026_PS + 7_400 * PS_PER_DAY,
    ensures
        0 < delta_t_model(jd) < 80 * PS_PER_SEC,
{
    let y = (jd - JD_2026_PS) / YEAR_FDIV as int;
    crate::days::lemma_div_nonneg(jd - JD_2026_PS, YEAR_FDIV as int);
    crate::days::lemma_div_abs_bound(
        jd - JD_2026_PS,
        YEAR_FDIV as int,
        639_360_000_000_000_000_000,
        2_026_010_000_000_000,
    );
    crate::days::lemma_div_nonneg(y * EXTRAP_RATE_PS, YEAR_FRAC as int);
    crate::days::lemma_div_abs_bound(
        y * EXTRAP_RATE_PS,
        YEAR_FRAC as int,
        40_520_200_000_000_000_000_000_000,
        405_202_000_001,
    );
}

/// The ΔT inverse is stable in the extrapolated era: promoting the
/// recovered UT value back to the canonical axis lands within two
/// picoseconds of the original — far inside a nanosecond-of-a-day.
pub proof fn lemma_ut_inverse_stability(tt: int)
    requires
        JD_2026_PS + 366 * PS_PER_DAY <= tt,
        tt <= MAX_SCALE_PS + OFFSET_BOUND_PS,
    ensures
        -2 <= crate::scales::UT::to_canonical(crate::scales::UT::from_canonical(tt)) - tt <= 2,
{
    lemma_extrap_positive_small(tt);
    let u1 = tt - delta_t_model(tt);
    lemma_extrap_lipschitz(u1, tt, 3_200_000_000);
    let u2 = tt - delta_t_model(u1);
    assert(u1 <= u2 <= u1 + 640_001);
    lemma_extrap_lipschitz(u1, u2, 3);
    let u3 = tt - delta_t_model(u2);
    assert(u2 - 1 <= u3 <= u2);
    lemma_extrap_lipschitz(u3, u2, 1);
}

/// In the extrapolated era ΔT is positive and under 17 minutes, so the
/// inverse's iterates stay in the era.
proof fn lemma_extrap_positive_small(jd: int)
    requires
        JD_2026_PS <= jd,
        jd <= MAX_SCALE_PS + 2 * OFFSET_BOUND_PS,
    ensures
        0 < delta_t_model(jd) < 1_000_000_000_000_000,
{
    let y = (jd - JD_2026_PS) / YEAR_FDIV as int;
    crate::days::lemma_div_nonneg(jd - JD_2026_PS, YEAR_FDIV as int);
    crate::days::lemma_div_abs_bound(
        jd - JD_2026_PS,
        YEAR_FDIV as int,
        1_500_000_000_000_000_000_000_000,
        4_800_000_000_000_000_000,
    );
    crate::days::lemma_div_nonneg(y * EXTRAP_RATE_PS, YEAR_FRAC as int);
    crate::days::lemma_div_abs_bound(
        y * EXTRAP_RATE_PS,
        YEAR_FRAC as int,
        96_000_000_000_000_000_000_000_000_000,
        960_000_000_000_001,
    );
}

/// In the extrapolated regime ΔT is monotone and drifts by at most one
/// picosecond more than the capped linear rate allows: over a step of at
/// most `cap` year-fraction units the two nested floors move by at most
/// `cap * rate / scale + 1`.
proof fn lemma_extrap_lipschitz(x: int, y: int, cap: int)
    requires
        JD_2026_PS <= x <= y,
        0 <= cap <= 10_000_000_000,
        y - x <= cap * 315_576,
    ensures
        0 <= delta_t_extrapolated_model(y) - delta_t_extrapolated_model(x) <= cap
            * EXTRAP_RATE_PS / YEAR_FRAC as int + 1,
        delta_t_model(x) == delta_t_extrapolated_model(x),
        delta_t_model(y) == delta_t_extrapolated_model(y),
{
    let yf = YEAR_FDIV as int;
    let xq = (x - JD_2026_PS) / yf;
    let yq = (y - JD_2026_PS) / yf;
    vstd::arithmetic::div_mod::lemma_fundamental_div_mod(x - JD_2026_PS, yf);
    vstd::arithmetic::div_mod::lemma_mod_bound(x - JD_2026_PS, yf);
    vstd::arithmetic::div_mod::lemma_fundamental_div_mod(y - JD_2026_PS, yf);
    vstd::arithmetic::div_mod::lemma_mod_bound(y - JD_2026_PS, yf);
    assert(0 <= yq - xq <= cap) by (nonlinear_arith)
        requires
            yf == 315_576,
            0 <= y - x <= cap * yf,
            x - JD_2026_PS == yf * xq + (x - JD_2026_PS) % yf,
            0 <= (x - JD_2026_PS) % yf < yf,
            y - JD_2026_PS == yf * yq + (y - JD_2026_PS) % yf,
            0 <= (y - JD_2026_PS) % yf < yf,
    ;
    let fr = YEAR_FRAC as int;
    let xg = xq * EXTRAP_RATE_PS / fr;
    let yg = yq * EXTRAP_RATE_PS / fr;
    vstd::arithmetic::div_mod::lemma_fundamental_div_mod(xq * EXTRAP_RATE_PS, fr);
    vstd::arithmetic::div_mod::lemma_mod_bound(xq * EXTRAP_RATE_PS, fr);
    vstd::arithmetic::div_mod::lemma_fundamental_div_mod(yq * EXTRAP_RATE_PS, fr);
    vstd::arithmetic::div_mod::lemma_mod_bound(yq * EXTRAP_RATE_PS, fr);
    vstd::arithmetic::div_mod::lemma_fundamental_div_mod(cap * EXTRAP_RATE_PS, fr);
    vstd::arithmetic::div_mod::lemma_mod_bound(cap * EXTRAP_RATE_PS, fr);
    assert(0 <= yg - xg <= cap * EXTRAP_RATE_PS / fr + 1) by (nonlinear_arith)
        requires
            fr == 100_000_000_000_000,
            EXTRAP_RATE_PS == 20_000_000_000,
            0 <= yq - xq <= cap,
            xq * EXTRAP_RATE_PS == fr * xg + (xq * EXTRAP_RATE_PS) % fr,
            0 <= (xq * EXTRAP_RATE_PS) % fr < fr,
            yq * EXTRAP_RATE_PS == fr * yg + (yq * EXTRAP_RATE_PS) % fr,
            0 <= (yq * EXTRAP_RATE_PS) % fr < fr,
            cap * EXTRAP_RATE_PS == fr * (cap * EXTRAP_RATE_PS / fr) + (cap * EXTRAP_RATE_PS)
                % fr,
            0 <= (cap * EXTRAP_RATE_PS) % fr < fr,
    ;
}

/// The TDB periodic correction stays under two milliseconds everywhere:
/// each periodic term is an amplitude times a clamped sine, so their sum
/// divided by the trig scale stays within the band.
pub proof fn lemma_tdb_correction_bounded(jd: int)
    ensures
        -2_000_000_000 <= crate::scales::tdb_minus_tt_model(jd) <= 2_000_000_000,
{
    crate::days::lemma_div_abs_bound(
        ({
            let t = (jd - crate::scales::J2000_PS) / crate::delta_t::CENT_FDIV as int;
            let me = crate::scales::ME_A0_PDEG + crate::scales::ME_A1_PDEG * t
                / crate::delta_t::FEMTO as int;
            let mj = crate::scales::MJ_A0_PDEG + crate::scales::MJ_A1_PDEG * t
                / crate::delta_t::FEMTO as int;
            let d = crate::scales::D_A0_PDEG + crate::scales::D_A1_PDEG * t
                / crate::delta_t::FEMTO as int;
            let om = crate::scales::OM_A0_PDEG + crate::scales::OM_A1_PDEG * t
                / crate::delta_t::FEMTO as int;
            let me_r = crate::trig::deg_to_prad_model(me);
            let inner = me_r + crate::scales::E_SUN_TRIG * crate::trig::sin_prad_model(me_r)
                / crate::trig::TRIG_SCALE as int;
            crate::scales::TDB_AMP1_PS * crate::trig::sin_prad_model(inner)
                + crate::scales::TDB_AMP2_PS * crate::trig::sin_prad_model(
                crate::trig::deg_to_prad_model(d - me),
            ) + crate::scales::TDB_AMP3_PS * crate::trig::sin_prad_model(
                crate::trig::deg_to_prad_model(2 * d),
            ) + crate::scales::TDB_AMP4_PS * crate::trig::sin_prad_model(
                crate::trig::deg_to_prad_model(mj),
            ) + crate::scales::TDB_AMP5_PS * crate::trig::sin_prad_model(
                crate::trig::deg_to_prad_model(om),
            )
        }),
        crate::trig::TRIG_SCALE as int,
        1_800_000_000_000_000_000_000,
        1_900_000_000,
    );
}

/// Round trip for TDB: the inverse applies the same periodic series at a
/// point at most two milliseconds away, so the recovered value sits
/// within four milliseconds of the original.  This law states
/// boundedness only; the series drifts so slowly that the true
/// discrepancy is nanoseconds, which the tests check on representative
/// epochs.
pub proof fn lemma_tdb_roundtrip(v: int)
    ensures
        -4_000_000_000 <= crate::scales::TDB::from_canonical(crate::scales::TDB::to_canonical(v))
            - v <= 4_000_000_000,
{
    lemma_tdb_correction_bounded(v);
    lemma_tdb_correction_bounded(v - crate::scales::tdb_minus_tt_model(v));
}

/// A list that covers the bounding period exactly leaves no gap: any
/// result of [`crate::period::complement_within`] whose input is one
/// sub-period congruent with the outer period is empty.
pub proof fn lemma_exact_cover_leaves_no_gap<T: TimeInstant>(
    outer: Interval<T>,
    periods: Seq<Interval<T>>,
    gaps: Seq<Interval<T>>,
)
    requires
        forall|t: int|
            #[trigger] crate::period::seq_covers(gaps, t) <==> (outer.covers(t)
                && !crate::period::seq_covers(periods, t)),
        crate::period::all_nonempty(gaps),
        periods.len() == 1,
        periods[0].start.at() == outer.start.at(),
        periods[0].end.at() == outer.end.at(),
    ensures
        gaps.len() == 0,
{
    if gaps.len() > 0 {
        let t = gaps[0].start.at();
        assert(gaps[0].covers(t));
        assert(crate::period::seq_covers(gaps, t));
        assert(periods[0].covers(t));
        assert(crate::period::seq_covers(periods, t));
    }
}


/// Every observed annual entry lies between 58 and 70 seconds.
proof fn lemma_observed_entry_range(i: int)
    ensures
        5_800 <= crate::delta_t::observed_entry(i) <= 7_000,
{
}

/// The observed interpolation stays between 44 and 84 seconds for every
/// nonnegative year position.
proof fn lemma_obs_band(y: int)
    requires
        0 <= y,
    ensures
        44_000_000_000_000 <= crate::delta_t::observed_at_year(y) <= 84_000_000_000_000,
{
    let rf = YEAR_FRAC as int;
    let idx = y / rf;
    let f = y % rf;
    crate::days::lemma_div_nonneg(y, rf);
    vstd::arithmetic::div_mod::lemma_mod_bound(y, rf);
    lemma_observed_entry_range(idx);
    lemma_observed_entry_range(idx + 1);
    if idx + 1 < 34 {
        let dd = (crate::delta_t::observed_entry(idx + 1) - crate::delta_t::observed_entry(idx))
            * crate::delta_t::CS_PS;
        assert(-1_300_000_000_000_000_000_000_000_000 <= f * dd
            <= 1_300_000_000_000_000_000_000_000_000) by (nonlinear_arith)
            requires
                0 <= f < 100_000_000_000_000,
                -12_000_000_000_000 <= dd <= 12_000_000_000_000,
        ;
        crate::days::lemma_div_abs_bound(
            f * dd,
            rf,
            1_300_000_000_000_000_000_000_000_000,
            13_000_000_000_001,
        );
    }
}

/// One unit of year position moves the observed interpolation by at most
/// two picoseconds: the segments' slopes are tiny and the nodes join the
/// segments continuously at fixed-point resolution.
proof fn lemma_obs_step(y: int)
    requires
        0 <= y,
    ensures
        -2 <= crate::delta_t::observed_at_year(y + 1) - crate::delta_t::observed_at_year(y) <= 2,
{
    let rf = YEAR_FRAC as int;
    let cs = crate::delta_t::CS_PS as int;
    let idx = y / rf;
    let f = y % rf;
    vstd::arithmetic::div_mod::lemma_fundamental_div_mod(y, rf);
    vstd::arithmetic::div_mod::lemma_mod_bound(y, rf);
    crate::days::lemma_div_nonneg(y, rf);
    lemma_observed_entry_range(idx);
    lemma_observed_entry_range(idx + 1);
    lemma_observed_entry_range(idx + 2);
    if f < rf - 1 {
        vstd::arithmetic::div_mod::lemma_fundamental_div_mod_converse(y + 1, rf, idx, f + 1);
        if idx + 1 < 34 {
            let dd = (crate::delta_t::observed_entry(idx + 1) - crate::delta_t::observed_entry(
                idx,
            )) * cs;
            let q1 = f * dd / rf;
            let q2 = (f + 1) * dd / rf;
            vstd::arithmetic::div_mod::lemma_fundamental_div_mod(f * dd, rf);
            vstd::arithmetic::div_mod::lemma_mod_bound(f * dd, rf);
            vstd::arithmetic::div_mod::lemma_fundamental_div_mod((f + 1) * dd, rf);
            vstd::arithmetic::div_mod::lemma_mod_bound((f + 1) * dd, rf);
            assert(-1 <= q2 - q1 <= 1) by (nonlinear_arith)
                requires
                    rf == 100_000_000_000_000,
                    -12_000_000_000_000 <= dd <= 12_000_000_000_000,
                    f * dd == rf * q1 + (f * dd) % rf,
                    0 <= (f * dd) % rf < rf,
                    (f + 1) * dd == rf * q2 + ((f + 1) * dd) % rf,
                    0 <= ((f + 1) * dd) % rf < rf,
            ;
        }
    } else {
        vstd::arithmetic::div_mod::lemma_fundamental_div_mod_converse(y + 1, rf, idx + 1, 0);
        if idx + 1 < 34 {
            let dd = (crate::delta_t::observed_entry(idx + 1) - crate::delta_t::observed_entry(
                idx,
            )) * cs;
            let q1 = f * dd / rf;
            vstd::arithmetic::div_mod::lemma_fundamental_div_mod(f * dd, rf);
            vstd::arithmetic::div_mod::lemma_mod_bound(f * dd, rf);
            assert(-2 <= dd - q1 <= 2) by (nonlinear_arith)
                requires
                    rf == 100_000_000_000_000,
                    f == rf - 1,
                    -12_000_000_000_000 <= dd <= 12_000_000_000_000,
                    f * dd == rf * q1 + (f * dd) % rf,
                    0 <= (f * dd) % rf < rf,
            ;
            if idx + 2 < 34 {
                let dd2 = (crate::delta_t::observed_entry(idx + 2)
                    - crate::delta_t::observed_entry(idx + 1)) * cs;
                assert(0 * dd2 / rf == 0) by (nonlinear_arith)
                    requires
                        rf > 0,
                ;
            }
        }
    }
}

/// The observed interpolation is Lipschitz in the year position, with
/// constant two (at fixed-point resolution).
proof fn lemma_obs_lipschitz(y1: int, y2: int)
    requires
        0 <= y1 <= y2,
    ensures
        -2 * (y2 - y1) <= crate::delta_t::observed_at_year(y2) - crate::delta_t::observed_at_year(
            y1,
        ) <= 2 * (y2 - y1),
    decreases y2 - y1,
{
    if y1 < y2 {
        lemma_obs_step(y2 - 1);
        lemma_obs_lipschitz(y1, y2 - 1);
    }
}

/// Two nearby epochs of the observed era carry nearly the same ΔT: a gap
/// of at most `cap` year-position units moves the model by at most
/// `2 cap + 2`.
proof fn lemma_obs_dt_close(x1: int, x2: int, cap: int)
    requires
        crate::delta_t::OBS_BASE_PS <= x1 < JD_2026_PS,
        crate::delta_t::OBS_BASE_PS <= x2 < JD_2026_PS,
        0 <= cap,
        -cap * YEAR_FDIV <= x2 - x1 <= cap * YEAR_FDIV,
    ensures
        -(2 * cap + 2) <= delta_t_model(x2) - delta_t_model(x1) <= 2 * cap + 2,
        delta_t_model(x1) == crate::delta_t::observed_at_year(
            (x1 - crate::delta_t::OBS_BASE_PS) / YEAR_FDIV as int,
        ),
        delta_t_model(x2) == crate::delta_t::observed_at_year(
            (x2 - crate::delta_t::OBS_BASE_PS) / YEAR_FDIV as int,
        ),
{
    let yfd = YEAR_FDIV as int;
    let b = crate::delta_t::OBS_BASE_PS as int;
    let w1 = (x1 - b) / yfd;
    let w2 = (x2 - b) / yfd;
    crate::days::lemma_div_nonneg(x1 - b, yfd);
    crate::days::lemma_div_nonneg(x2 - b, yfd);
    vstd::arithmetic::div_mod::lemma_fundamental_div_mod(x1 - b, yfd);
    vstd::arithmetic::div_mod::lemma_mod_bound(x1 - b, yfd);
    vstd::arithmetic::div_mod::lemma_fundamental_div_mod(x2 - b, yfd);
    vstd::arithmetic::div_mod::lemma_mod_bound(x2 - b, yfd);
    assert(-cap <= w2 - w1 <= cap) by (nonlinear_arith)
        requires
            yfd == 315_576,
            0 <= cap,
            -cap * yfd <= x2 - x1 <= cap * yfd,
            x1 - b == yfd * w1 + (x1 - b) % yfd,
            0 <= (x1 - b) % yfd < yfd,
            x2 - b == yfd * w2 + (x2 - b) % yfd,
            0 <= (x2 - b) % yfd < yfd,
    ;
    if w1 <= w2 {
        lemma_obs_lipschitz(w1, w2);
    } else {
        lemma_obs_lipschitz(w2, w1);
    }
}

/// The ΔT inverse is stable across the observed era (1992–2026) as well:
/// promoting the recovered UT value back to the canonical axis lands
/// within four picoseconds of the original.
pub proof fn lemma_ut_inverse_stability_observed(tt: int)
    requires
        crate::delta_t::OBS_BASE_PS + 100_000_000_000_000 <= tt < JD_2026_PS,
    ensures
        -4 <= crate::scales::UT::to_canonical(crate::scales::UT::from_canonical(tt)) - tt <= 4,
{
    let b = crate::delta_t::OBS_BASE_PS as int;
    let yfd = YEAR_FDIV as int;
    crate::days::lemma_div_nonneg(tt - b, yfd);
    lemma_obs_dt_close(tt, tt, 0);
    lemma_obs_band((tt - b) / yfd);
    let u1 = tt - delta_t_model(tt);
    lemma_obs_dt_close(tt, u1, 270_000_000);
    lemma_obs_band((u1 - b) / yfd);
    let u2 = tt - delta_t_model(u1);
    lemma_obs_dt_close(u1, u2, 1_800);
    lemma_obs_band((u2 - b) / yfd);
    let u3 = tt - delta_t_model(u2);
    lemma_obs_dt_close(u2, u3, 1);
}


/// The early quadratics stay within a quarter of a year of correction
/// over the whole conversion range.
proof fn lemma_early_quad_bound(jd: int, epoch: int, a0: int, a1: int, a2: int)
    requires
        -(MAX_SCALE_PS + 2 * OFFSET_BOUND_PS + 100_000_000_000_000_000_000) <= jd <= MAX_SCALE_PS
            + 2 * OFFSET_BOUND_PS + 100_000_000_000_000_000_000,
        -230_000_000_000_000_000_000_000 <= epoch <= 230_000_000_000_000_000_000_000,
        0 <= a0 <= 2_000 * PS_PER_SEC,
        -500 * PS_PER_SEC <= a1 <= 500 * PS_PER_SEC,
        0 <= a2 <= 50 * PS_PER_SEC,
    ensures
        -22_000_000_000_000_000_000 <= crate::delta_t::early_quadratic_model(jd, epoch, a0, a1, a2)
            <= 22_000_000_000_000_000_000,
{
    let cf = crate::delta_t::CENT_FDIV as int;
    let fm = crate::delta_t::FEMTO as int;
    let c = (jd - epoch) / cf;
    crate::days::lemma_div_abs_bound(jd - epoch, cf, 2_000_000_000_000_000_000_000_000, 640_000_000_000_000_000);
    let lin = a1 * c / fm;
    let q1 = a2 * c / fm;
    assert(-320_000_000_000_000_000_000_000_000_000_000 <= a1 * c
        <= 320_000_000_000_000_000_000_000_000_000_000) by (nonlinear_arith)
        requires
            -500_000_000_000_000 <= a1 <= 500_000_000_000_000,
            -640_000_000_000_000_000 <= c <= 640_000_000_000_000_000,
    ;
    assert(-32_000_000_000_000_000_000_000_000_000_000 <= a2 * c
        <= 32_000_000_000_000_000_000_000_000_000_000) by (nonlinear_arith)
        requires
            0 <= a2 <= 50_000_000_000_000,
            -640_000_000_000_000_000 <= c <= 640_000_000_000_000_000,
    ;
    crate::days::lemma_div_abs_bound(
        a1 * c,
        fm,
        320_000_000_000_000_000_000_000_000_000_000,
        330_000_000_000_000_000,
    );
    crate::days::lemma_div_abs_bound(
        a2 * c,
        fm,
        32_000_000_000_000_000_000_000_000_000_000,
        33_000_000_000_000_000,
    );
    assert(-21_120_000_000_000_000_000_000_000_000_000_000 <= q1 * c
        <= 21_120_000_000_000_000_000_000_000_000_000_000) by (nonlinear_arith)
        requires
            -33_000_000_000_000_000 <= q1 <= 33_000_000_000_000_000,
            -640_000_000_000_000_000 <= c <= 640_000_000_000_000_000,
    ;
    crate::days::lemma_div_abs_bound(
        q1 * c,
        fm,
        21_120_000_000_000_000_000_000_000_000_000_000,
        21_200_000_000_000_000_000,
    );
}

/// Two nearby epochs carry nearly the same quadratic correction: a gap
/// of at most `cap` femtocenturies moves the value by at most
/// `60 cap + 600`.
proof fn lemma_early_quad_close(
    x1: int,
    x2: int,
    epoch: int,
    a0: int,
    a1: int,
    a2: int,
    cap: int,
)
    requires
        -(MAX_SCALE_PS + 2 * OFFSET_BOUND_PS + 100_000_000_000_000_000_000) <= x1 <= MAX_SCALE_PS
            + 2 * OFFSET_BOUND_PS + 100_000_000_000_000_000_000,
        -(MAX_SCALE_PS + 2 * OFFSET_BOUND_PS + 100_000_000_000_000_000_000) <= x2 <= MAX_SCALE_PS
            + 2 * OFFSET_BOUND_PS + 100_000_000_000_000_000_000,
        -230_000_000_000_000_000_000_000 <= epoch <= 230_000_000_000_000_000_000_000,
        -500 * PS_PER_SEC <= a1 <= 500 * PS_PER_SEC,
        0 <= a2 <= 50 * PS_PER_SEC,
        0 <= cap,
        -cap * crate::delta_t::CENT_FDIV <= x2 - x1 <= cap * crate::delta_t::CENT_FDIV,
    ensures
        -(70 * cap + 800) <= crate::delta_t::early_quadratic_model(x2, epoch, a0, a1, a2)
            - crate::delta_t::early_quadratic_model(x1, epoch, a0, a1, a2) <= 70 * cap + 800,
{
    let cf = crate::delta_t::CENT_FDIV as int;
    let fm = crate::delta_t::FEMTO as int;
    let c1 = (x1 - epoch) / cf;
    let c2 = (x2 - epoch) / cf;
    crate::days::lemma_div_abs_bound(x1 - epoch, cf, 2_000_000_000_000_000_000_000_000, 640_000_000_000_000_000);
    crate::days::lemma_div_abs_bound(x2 - epoch, cf, 2_000_000_000_000_000_000_000_000, 640_000_000_000_000_000);
    vstd::arithmetic::div_mod::lemma_fundamental_div_mod(x1 - epoch, cf);
    vstd::arithmetic::div_mod::lemma_mod_bound(x1 - epoch, cf);
    vstd::arithmetic::div_mod::lemma_fundamental_div_mod(x2 - epoch, cf);
    vstd::arithmetic::div_mod::lemma_mod_bound(x2 - epoch, cf);
    assert(-(cap + 1) <= c2 - c1 <= cap + 1) by (nonlinear_arith)
        requires
            cf == 3_155_760,
            0 <= cap,
            -cap * cf <= x2 - x1 <= cap * cf,
            x1 - epoch == cf * c1 + (x1 - epoch) % cf,
            0 <= (x1 - epoch) % cf < cf,
            x2 - epoch == cf * c2 + (x2 - epoch) % cf,
            0 <= (x2 - epoch) % cf < cf,
    ;
    let lin1 = a1 * c1 / fm;
    let lin2 = a1 * c2 / fm;
    let q11 = a2 * c1 / fm;
    let q12 = a2 * c2 / fm;
    vstd::arithmetic::div_mod::lemma_fundamental_div_mod(a1 * c1, fm);
    vstd::arithmetic::div_mod::lemma_mod_bound(a1 * c1, fm);
    vstd::arithmetic::div_mod::lemma_fundamental_div_mod(a1 * c2, fm);
    vstd::arithmetic::div_mod::lemma_mod_bound(a1 * c2, fm);
    assert(-(cap + 3) <= lin2 - lin1 <= cap + 3) by (nonlinear_arith)
        requires
            fm == 1_000_000_000_000_000,
            -500_000_000_000_000 <= a1 <= 500_000_000_000_000,
            -(cap + 1) <= c2 - c1 <= cap + 1,
            0 <= cap,
            a1 * c1 == fm * lin1 + (a1 * c1) % fm,
            0 <= (a1 * c1) % fm < fm,
            a1 * c2 == fm * lin2 + (a1 * c2) % fm,
            0 <= (a1 * c2) % fm < fm,
    ;
    vstd::arithmetic::div_mod::lemma_fundamental_div_mod(a2 * c1, fm);
    vstd::arithmetic::div_mod::lemma_mod_bound(a2 * c1, fm);
    vstd::arithmetic::div_mod::lemma_fundamental_div_mod(a2 * c2, fm);
    vstd::arithmetic::div_mod::lemma_mod_bound(a2 * c2, fm);
    assert(-33_000_000_000_000_000 <= q11 <= 33_000_000_000_000_000 && -33_000_000_000_000_000
        <= q12 <= 33_000_000_000_000_000) by (nonlinear_arith)
        requires
            fm == 1_000_000_000_000_000,
            0 <= a2 <= 50_000_000_000_000,
            -640_000_000_000_000_000 <= c1 <= 640_000_000_000_000_000,
            -640_000_000_000_000_000 <= c2 <= 640_000_000_000_000_000,
            a2 * c1 == fm * q11 + (a2 * c1) % fm,
            0 <= (a2 * c1) % fm < fm,
            a2 * c2 == fm * q12 + (a2 * c2) % fm,
            0 <= (a2 * c2) % fm < fm,
    ;
    let quad1 = q11 * c1 / fm;
    let quad2 = q12 * c2 / fm;
    assert(-(a2 * (cap + 1) + fm) <= fm * (q12 - q11) <= a2 * (cap + 1) + fm) by (nonlinear_arith)
        requires
            fm == 1_000_000_000_000_000,
            0 <= a2 <= 50_000_000_000_000,
            0 <= cap,
            -(cap + 1) <= c2 - c1 <= cap + 1,
            a2 * c1 == fm * q11 + (a2 * c1) % fm,
            0 <= (a2 * c1) % fm < fm,
            a2 * c2 == fm * q12 + (a2 * c2) % fm,
            0 <= (a2 * c2) % fm < fm,
    ;
    let nd = q12 * c2 - q11 * c1;
    assert(nd == q12 * (c2 - c1) + (q12 - q11) * c1) by (nonlinear_arith)
        requires
            nd == q12 * c2 - q11 * c1,
    ;
    assert(-(65_000_000_000_000_000_000_000_000_000_000 * (cap + 1)
        + 640_000_000_000_000_000_000_000_000_000_000) <= fm * nd
        <= 65_000_000_000_000_000_000_000_000_000_000 * (cap + 1)
        + 640_000_000_000_000_000_000_000_000_000_000) by (nonlinear_arith)
        requires
            fm == 1_000_000_000_000_000,
            nd == q12 * (c2 - c1) + (q12 - q11) * c1,
            -(cap + 1) <= c2 - c1 <= cap + 1,
            -640_000_000_000_000_000 <= c1 <= 640_000_000_000_000_000,
            -33_000_000_000_000_000 <= q12 <= 33_000_000_000_000_000,
            -(a2 * (cap + 1) + fm) <= fm * (q12 - q11) <= a2 * (cap + 1) + fm,
            0 <= a2 <= 50_000_000_000_000,
            0 <= cap,
    ;
    assert(-(65 * (cap + 1) + 642) <= quad2 - quad1 <= 65 * (cap + 1) + 642) by (nonlinear_arith)
        requires
            fm == 1_000_000_000_000_000,
            q11 * c1 == fm * quad1 + (q11 * c1) % fm,
            0 <= (q11 * c1) % fm < fm,
            q12 * c2 == fm * quad2 + (q12 * c2) % fm,
            0 <= (q12 * c2) % fm < fm,
            nd == q12 * c2 - q11 * c1,
            0 <= cap,
            -(65_000_000_000_000_000_000_000_000_000_000 * (cap + 1)
                + 640_000_000_000_000_000_000_000_000_000_000) <= fm * nd
                <= 65_000_000_000_000_000_000_000_000_000_000 * (cap + 1)
                + 640_000_000_000_000_000_000_000_000_000_000,
    ;
}

/// The ΔT inverse is stable in the ancient era too: away from the
/// regime's boundary, the recovered UT value promotes back to within a
/// fifth of a microsecond of the original (the quadratic's drift is a
/// couple of seconds per century).
pub proof fn lemma_ut_inverse_stability_ancient(tt: int)
    requires
        -(MAX_SCALE_PS + OFFSET_BOUND_PS) <= tt,
        tt <= crate::delta_t::JD_948_PS - 30_000_000_000_000_000_000,
    ensures
        -600_000 <= crate::scales::UT::to_canonical(crate::scales::UT::from_canonical(tt)) - tt
            <= 600_000,
{
    let e = crate::delta_t::JD_948_PS as int;
    let a0 = 1_830 * PS_PER_SEC as int;
    let a1 = -405 * PS_PER_SEC as int;
    let a2 = 465 * crate::delta_t::DS_PS as int;
    lemma_early_quad_bound(tt, e, a0, a1, a2);
    let u1 = tt - delta_t_model(tt);
    lemma_early_quad_bound(u1, e, a0, a1, a2);
    lemma_early_quad_close(tt, u1, e, a0, a1, a2, 14_000_000_000_000);
    let u2 = tt - delta_t_model(u1);
    lemma_early_quad_bound(u2, e, a0, a1, a2);
    lemma_early_quad_close(u1, u2, e, a0, a1, a2, 320_000_000);
    let u3 = tt - delta_t_model(u2);
    lemma_early_quad_close(u2, u3, e, a0, a1, a2, 7_200);
}

/// The ΔT inverse is stable in the medieval era as well, away from the
/// two regime boundaries.
pub proof fn lemma_ut_inverse_stability_medieval(tt: int)
    requires
        crate::delta_t::JD_948_PS + 30_000_000_000_000_000_000 <= tt,
        tt <= crate::delta_t::JD_1600_PS - 30_000_000_000_000_000_000,
    ensures
        -600_000 <= crate::scales::UT::to_canonical(crate::scales::UT::from_canonical(tt)) - tt
            <= 600_000,
{
    let e = crate::delta_t::JD_1850_PS as int;
    let a2 = 225 * crate::delta_t::DS_PS as int;
    lemma_early_quad_bound(tt, e, 0, 0, a2);
    let u1 = tt - delta_t_model(tt);
    lemma_early_quad_bound(u1, e, 0, 0, a2);
    lemma_early_quad_close(tt, u1, e, 0, 0, a2, 14_000_000_000_000);
    let u2 = tt - delta_t_model(u1);
    lemma_early_quad_bound(u2, e, 0, 0, a2);
    lemma_early_quad_close(u1, u2, e, 0, 0, a2, 320_000_000);
    let u3 = tt - delta_t_model(u2);
    lemma_early_quad_close(u2, u3, e, 0, 0, a2, 7_200);
}

/// Intersection of intervals is commutative: both orders give the same
/// coverage (identical endpoints by position).
pub proof fn lemma_intersection_commutative<T: TimeInstant>(a: Interval<T>, b: Interval<T>)
    ensures
        ({
            let sa = if a.start.at() >= b.start.at() {
                a.start.at()
            } else {
                b.start.at()
            };
            let ea = if a.end.at() <= b.end.at() {
                a.end.at()
            } else {
                b.end.at()
            };
            let sb = if b.start.at() >= a.start.at() {
                b.start.at()
            } else {
                a.start.at()
            };
            let eb = if b.end.at() <= a.end.at() {
                b.end.at()
            } else {
                a.end.at()
            };
            sa == sb && ea == eb
        }),
{
}

/// Touching intervals do not intersect: under the half-open convention,
/// when one ends exactly where the other starts, the overlap is empty.
pub proof fn lemma_touching_intervals_empty<T: TimeInstant>(a: Interval<T>, b: Interval<T>, t: int)
    requires
        a.end.at() == b.start.at(),
    ensures
        !(a.covers(t) && b.covers(t)),
{
}

} // verus!
