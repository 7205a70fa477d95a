//! Julian Date (`Time<JD>`) specific extensions.

use vstd::prelude::*;

use crate::days::{div_floor, in_scale_range, Days, PS_PER_DAY, PS_PER_SEC};
use crate::delta_t::in_dt_domain;
use crate::instant::Time;
use crate::scales::{tdb_minus_tt_days, tdb_minus_tt_model, J2000_PS, JD, MJD};

verus! {

/// One Julian year (365.25 days) in picoseconds.
pub const JULIAN_YEAR_PS: i128 = 365 * PS_PER_DAY + 21_600 * PS_PER_SEC;

/// One Julian century (36 525 days) in picoseconds.
pub const JULIAN_CENTURY_PS: i128 = 36_525 * PS_PER_DAY;

/// One Julian millennium (365 250 days) in picoseconds.
pub const JULIAN_MILLENNIUM_PS: i128 = 365_250 * PS_PER_DAY;

/// Picoseconds per `10^-15` Julian millennium.
pub const MILL_FDIV: i128 = 31_557_600;

/// Brings the year divisor to `10^-15`-year resolution: numerator scale
/// over [`crate::delta_t::YEAR_FDIV`].
pub const YEAR_NUM_SCALE: i128 = 10;

impl Time<JD> {
    /// J2000.0 epoch: 2000-01-01T12:00:00 TT (JD 2 451 545.0).
    pub fn j2000() -> (r: Time<JD>)
        ensures
            r@ == J2000_PS as int,
    {
        Time::from_days(Days::from_ps(J2000_PS))
    }

    /// Julian millennia since J2000.0 at `10^-15` resolution (the time
    /// argument of long-period ephemeris series).
    pub fn julian_millennias(&self) -> (r: i128)
        requires
            in_scale_range(self@),
        ensures
            r as int == (self@ - J2000_PS) / MILL_FDIV as int,
    {
        div_floor(self.quantity().ps() - J2000_PS, MILL_FDIV)
    }

    /// Julian centuries since J2000.0 at `10^-15` resolution (the time
    /// argument of nutation, precession and sidereal-time series).
    pub fn julian_centuries(&self) -> (r: i128)
        requires
            in_scale_range(self@),
        ensures
            r as int == (self@ - J2000_PS) / crate::delta_t::CENT_FDIV as int,
    {
        div_floor(self.quantity().ps() - J2000_PS, crate::delta_t::CENT_FDIV)
    }

    /// Julian years since J2000.0 at `10^-15` resolution.
    pub fn julian_years(&self) -> (r: i128)
        requires
            in_scale_range(self@),
        ensures
            r as int == (self@ - J2000_PS) * YEAR_NUM_SCALE / crate::delta_t::YEAR_FDIV as int,
    {
        div_floor((self.quantity().ps() - J2000_PS) * YEAR_NUM_SCALE, crate::delta_t::YEAR_FDIV)
    }

    /// Converts JD(TT) to JD(TDB) by adding the Fairhead & Bretagnon
    /// periodic terms (see [`tdb_minus_tt_days`]).
    pub fn tt_to_tdb(jd_tt: Self) -> (r: Self)
        requires
            in_dt_domain(jd_tt@),
        ensures
            r@ == jd_tt@ + tdb_minus_tt_model(jd_tt@),
    {
        let corr: Days = tdb_minus_tt_days(jd_tt.quantity());
        Time::from_days(jd_tt.quantity().plus(corr))
    }

    /// Convenience: the MJD instant corresponding to this JD.
    pub fn to_mjd(&self) -> (r: Time<MJD>)
        requires
            in_scale_range(self@),
        ensures
            r@ == self@ - crate::scales::MJD_EPOCH_PS as int,
    {
        self.to::<MJD>()
    }
}

} // verus!
