//! Astronomical time scales over one canonical axis.
//!
//! Instants carry a compile-time scale marker and convert to any other
//! scale through a single shared reference coordinate: the Julian Date on
//! the Terrestrial Time axis.  All values are exact fixed-point counts of
//! picoseconds (see [`Days`]), so every conversion contract states the
//! result precisely.
//!
//! The crate covers:
//!
//! - [`Time<S>`] — a generic instant parameterised by a [`TimeScale`] marker;
//! - the scale markers [`JD`], [`JDE`], [`MJD`], [`TDB`], [`TT`], [`TAI`],
//!   [`TCG`], [`TCB`], [`GPS`], [`UnixTime`], [`UT`];
//! - the ΔT (TT − UT) correction model and its fixed-point inverse;
//! - the leap-second table bridging Unix/UTC counters to the atomic axis;
//! - the interval algebra over [`Period<S>`] (intersection, complement,
//!   merge-intersection), with its laws proved.

use vstd::prelude::*;

pub mod days;
pub mod delta_t;
pub mod dispatch;
pub mod instant;
pub mod julian_date_ext;
pub mod laws;
pub mod period;
pub mod scales;
pub mod trig;

pub use days::{div_floor, mod_floor, Days, PS_PER_DAY, PS_PER_HALF_DAY, PS_PER_SEC};
pub use dispatch::{convert, jd_to_scale, scale_to_jd, TempochScale, TempochStatus, TempochUtc};
pub use instant::{Time, TimeInstant, TimeScale};
pub use period::{complement_within, intersect_periods, Interval, Period};
pub use scales::{tai_minus_utc, UnixTime, GPS, JD, JDE, MJD, TAI, TCB, TCG, TDB, TT, UT};

verus! {

/// Julian Date — continuous count of days since the Julian Period.
pub type JulianDate = Time<JD>;

/// Julian Ephemeris Day — dynamical Julian day used by ephemeris formulas.
pub type JulianEphemerisDay = Time<JDE>;

/// Modified Julian Date — `JD − 2 400 000.5`.
pub type ModifiedJulianDate = Time<MJD>;

/// Universal Time — Earth-rotation civil time scale.
pub type UniversalTime = Time<UT>;

} // verus!
