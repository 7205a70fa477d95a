//! Scale enumeration, status codes and the any-to-any conversion dispatch.
//!
//! These are the computational cores of the flat, C-compatible surface: a
//! status code for each failure mode, a civil timestamp broken into plain
//! fields, and the conversion between any two scales keyed by a runtime
//! scale value, routed through the canonical axis exactly once.

use vstd::prelude::*;

use crate::days::{in_scale_range, Days};
use crate::instant::{Time, TimeScale};
use crate::period::{Interval, Period};
use crate::scales::{UnixTime, GPS, JD, JDE, MJD, TAI, TCB, TCG, TDB, TT, UT};

verus! {

/// Status of an operation on the flat surface.
#[derive(Clone, Copy, Debug, PartialEq, Eq, Structural)]
pub enum TempochStatus {
    /// Success.
    Success,
    /// A required output pointer was null.
    NullPointer,
    /// UTC conversion failed (date out of range or invalid).
    UtcConversionFailed,
    /// The period is invalid (start > end).
    InvalidPeriod,
    /// The two periods do not intersect.
    NoIntersection,
}

impl TempochStatus {
    /// The numeric code of the status, stable across releases.
    pub fn code(&self) -> (r: i32)
        ensures
            r == match *self {
                TempochStatus::Success => 0int,
                TempochStatus::NullPointer => 1int,
                TempochStatus::UtcConversionFailed => 2int,
                TempochStatus::InvalidPeriod => 3int,
                TempochStatus::NoIntersection => 4int,
            },
    {
        match *self {
            TempochStatus::Success => 0,
            TempochStatus::NullPointer => 1,
            TempochStatus::UtcConversionFailed => 2,
            TempochStatus::InvalidPeriod => 3,
            TempochStatus::NoIntersection => 4,
        }
    }
}

/// UTC date-time breakdown in plain fields.
#[derive(Clone, Copy, Debug, PartialEq, Eq, Structural)]
pub struct TempochUtc {
    pub year: i32,
    pub month: u8,
    pub day: u8,
    pub hour: u8,
    pub minute: u8,
    pub second: u8,
    pub nanosecond: u32,
}

/// Scale selector for the runtime conversion dispatch.
#[derive(Clone, Copy, Debug, PartialEq, Eq, Structural)]
pub enum TempochScale {
    JD,
    MJD,
    TDB,
    TT,
    TAI,
    TCG,
    TCB,
    GPS,
    UT,
    JDE,
    UnixTime,
}

impl TempochScale {
    /// The numeric code of the selector, stable across releases.
    pub fn code(&self) -> (r: i32)
        ensures
            r == match *self {
                TempochScale::JD => 0int,
                TempochScale::MJD => 1int,
                TempochScale::TDB => 2int,
                TempochScale::TT => 3int,
                TempochScale::TAI => 4int,
                TempochScale::TCG => 5int,
                TempochScale::TCB => 6int,
                TempochScale::GPS => 7int,
                TempochScale::UT => 8int,
                TempochScale::JDE => 9int,
                TempochScale::UnixTime => 10int,
            },
    {
        match *self {
            TempochScale::JD => 0,
            TempochScale::MJD => 1,
            TempochScale::TDB => 2,
            TempochScale::TT => 3,
            TempochScale::TAI => 4,
            TempochScale::TCG => 5,
            TempochScale::TCB => 6,
            TempochScale::GPS => 7,
            TempochScale::UT => 8,
            TempochScale::JDE => 9,
            TempochScale::UnixTime => 10,
        }
    }
}

/// What the selected scale's conversion to the canonical axis yields.
pub open spec fn scale_to_canonical(s: TempochScale, v: int) -> int {
    match s {
        TempochScale::JD => JD::to_canonical(v),
        TempochScale::MJD => MJD::to_canonical(v),
        TempochScale::TDB => TDB::to_canonical(v),
        TempochScale::TT => TT::to_canonical(v),
        TempochScale::TAI => TAI::to_canonical(v),
        TempochScale::TCG => TCG::to_canonical(v),
        TempochScale::TCB => TCB::to_canonical(v),
        TempochScale::GPS => GPS::to_canonical(v),
        TempochScale::UT => UT::to_canonical(v),
        TempochScale::JDE => JDE::to_canonical(v),
        TempochScale::UnixTime => UnixTime::to_canonical(v),
    }
}

/// What the selected scale's conversion back from the canonical axis
/// yields.
pub open spec fn scale_from_canonical(s: TempochScale, c: int) -> int {
    match s {
        TempochScale::JD => JD::from_canonical(c),
        TempochScale::MJD => MJD::from_canonical(c),
        TempochScale::TDB => TDB::from_canonical(c),
        TempochScale::TT => TT::from_canonical(c),
        TempochScale::TAI => TAI::from_canonical(c),
        TempochScale::TCG => TCG::from_canonical(c),
        TempochScale::TCB => TCB::from_canonical(c),
        TempochScale::GPS => GPS::from_canonical(c),
        TempochScale::UT => UT::from_canonical(c),
        TempochScale::JDE => JDE::from_canonical(c),
        TempochScale::UnixTime => UnixTime::from_canonical(c),
    }
}

/// Any-to-any conversion: one step onto the canonical axis, one step off
/// it.
pub open spec fn convert_model(v: int, from: TempochScale, to: TempochScale) -> int {
    scale_from_canonical(to, scale_to_canonical(from, v))
}

/// Generic JD-to-any-scale dispatch, keyed by the scale selector.
pub fn jd_to_scale(jd: Time<JD>, scale: TempochScale) -> (r: Days)
    requires
        crate::days::in_result_range(jd@),
    ensures
        r@ == scale_from_canonical(scale, jd@),
{
    match scale {
        TempochScale::JD => jd.quantity(),
        TempochScale::MJD => jd.to::<MJD>().quantity(),
        TempochScale::TDB => jd.to::<TDB>().quantity(),
        TempochScale::TT => jd.to::<TT>().quantity(),
        TempochScale::TAI => jd.to::<TAI>().quantity(),
        TempochScale::TCG => jd.to::<TCG>().quantity(),
        TempochScale::TCB => jd.to::<TCB>().quantity(),
        TempochScale::GPS => jd.to::<GPS>().quantity(),
        TempochScale::UT => jd.to::<UT>().quantity(),
        TempochScale::JDE => jd.to::<JDE>().quantity(),
        TempochScale::UnixTime => jd.to::<UnixTime>().quantity(),
    }
}

/// Generic any-scale-to-JD dispatch, keyed by the scale selector.
pub fn scale_to_jd(value: Days, scale: TempochScale) -> (r: Time<JD>)
    requires
        in_scale_range(value@),
    ensures
        r@ == scale_to_canonical(scale, value@),
        crate::days::in_result_range(r@),
{
    match scale {
        TempochScale::JD => Time::<JD>::from_days(value),
        TempochScale::MJD => Time::<MJD>::from_days(value).to::<JD>(),
        TempochScale::TDB => Time::<TDB>::from_days(value).to::<JD>(),
        TempochScale::TT => Time::<TT>::from_days(value).to::<JD>(),
        TempochScale::TAI => Time::<TAI>::from_days(value).to::<JD>(),
        TempochScale::TCG => Time::<TCG>::from_days(value).to::<JD>(),
        TempochScale::TCB => Time::<TCB>::from_days(value).to::<JD>(),
        TempochScale::GPS => Time::<GPS>::from_days(value).to::<JD>(),
        TempochScale::UT => Time::<UT>::from_days(value).to::<JD>(),
        TempochScale::JDE => Time::<JDE>::from_days(value).to::<JD>(),
        TempochScale::UnixTime => Time::<UnixTime>::from_days(value).to::<JD>(),
    }
}

/// Total any-to-any conversion between runtime-selected scales.
pub fn convert(value: Days, from: TempochScale, to: TempochScale) -> (r: Days)
    requires
        in_scale_range(value@),
    ensures
        r@ == convert_model(value@, from, to),
{
    let jd: Time<JD> = scale_to_jd(value, from);
    jd_to_scale(jd, to)
}

/// Build an MJD period from raw endpoint values, rejecting a reversed
/// pair: the result is `Ok` exactly when `start <= end`, and the error is
/// always `InvalidPeriod`.
pub fn period_mjd_new(start_mjd: Days, end_mjd: Days) -> (r: Result<Period<MJD>, TempochStatus>)
    ensures
        start_mjd@ <= end_mjd@ ==> (r matches Ok(p) && p.start@ == start_mjd@ && p.end@
            == end_mjd@),
        start_mjd@ > end_mjd@ ==> r == Err::<Period<MJD>, TempochStatus>(
            TempochStatus::InvalidPeriod,
        ),
{
    if start_mjd.ps() > end_mjd.ps() {
        Err(TempochStatus::InvalidPeriod)
    } else {
        Ok(Interval::new(Time::from_days(start_mjd), Time::from_days(end_mjd)))
    }
}

/// The overlap of two MJD periods, or `NoIntersection` when the half-open
/// ranges share no point.
pub fn period_mjd_intersection(a: Period<MJD>, b: Period<MJD>) -> (r: Result<
    Period<MJD>,
    TempochStatus,
>)
    ensures
        ({
            let s = if a.start@ >= b.start@ {
                a.start
            } else {
                b.start
            };
            let e = if a.end@ <= b.end@ {
                a.end
            } else {
                b.end
            };
            if s@ < e@ {
                r == Ok::<Period<MJD>, TempochStatus>(Interval { start: s, end: e })
            } else {
                r == Err::<Period<MJD>, TempochStatus>(TempochStatus::NoIntersection)
            }
        }),
{
    match a.intersection(&b) {
        Some(overlap) => Ok(overlap),
        None => Err(TempochStatus::NoIntersection),
    }
}

/// ΔT = TT − UT1 for a given Julian Date on the TT axis: move the instant
/// to the UT scale and evaluate the model there.
pub fn delta_t_seconds_for_jd(jd: Time<JD>) -> (r: Days)
    requires
        in_scale_range(jd@),
    ensures
        r@ == crate::delta_t::delta_t_model(UT::from_canonical(jd@)),
{
    let ut: Time<UT> = jd.to::<UT>();
    ut.delta_t()
}

} // verus!
