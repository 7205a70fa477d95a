//! Generic time-scale parameterised instant.
//!
//! [`Time<S>`] stores a scalar quantity in [`Days`] whose *meaning* is given
//! by the compile-time marker `S: TimeScale`.  Conversion between any two
//! scales routes through the canonical **Julian Date in TT** exactly once,
//! so every path between scales has length two and the conversion cost is
//! independent of how many scales exist.

use vstd::prelude::*;

use crate::days::{in_conversion_range, in_result_range, Days, OFFSET_BOUND_PS};

verus! {

/// Marker trait for time scales.
///
/// A time scale defines a pair of conversions between the scale's native
/// picosecond count and the canonical axis (Julian Date in Terrestrial
/// Time), stated by the two spec functions and computed exactly by the two
/// executable functions.  Every conversion moves a value by less than
/// [`crate::days::OFFSET_BOUND_PS`], which keeps chained conversions inside
/// the representable range.
pub trait TimeScale: Copy {
    /// The canonical-axis value (JD in TT, in picoseconds) that the native
    /// value `v` denotes.
    spec fn to_canonical(v: int) -> int;

    /// The native value denoting the canonical-axis value `c`.
    spec fn from_canonical(c: int) -> int;

    /// A short label naming the scale.
    fn label() -> &'static str;

    /// Convert a native quantity to the canonical axis.  The conversion
    /// never moves a value by more than [`crate::days::OFFSET_BOUND_PS`].
    fn to_jd_tt(value: Days) -> (r: Days)
        requires
            in_conversion_range(value@),
        ensures
            r@ == Self::to_canonical(value@),
            -OFFSET_BOUND_PS <= r@ - value@ <= OFFSET_BOUND_PS,
    ;

    /// Convert a canonical-axis quantity back to this scale.  The
    /// conversion never moves a value by more than
    /// [`crate::days::OFFSET_BOUND_PS`].
    fn from_jd_tt(jd_tt: Days) -> (r: Days)
        requires
            in_conversion_range(jd_tt@),
        ensures
            r@ == Self::from_canonical(jd_tt@),
            -OFFSET_BOUND_PS <= r@ - jd_tt@ <= OFFSET_BOUND_PS,
    ;
}

/// A point on time scale `S`.
///
/// Internally stores a single [`Days`] quantity whose interpretation
/// depends on `S: TimeScale`.  The view of a `Time<S>` is the picosecond
/// count of that quantity.
#[derive(Debug)]
pub struct Time<S: TimeScale> {
    quantity: Days,
    _scale: core::marker::PhantomData<S>,
}

impl<S: TimeScale> Clone for Time<S> {
    fn clone(&self) -> (r: Self)
        ensures
            r == *self,
    {
        Time { quantity: self.quantity, _scale: core::marker::PhantomData }
    }
}

impl<S: TimeScale> Copy for Time<S> {

}

impl<S: TimeScale> View for Time<S> {
    type V = int;

    closed spec fn view(&self) -> int {
        self.quantity@
    }
}

impl<S: TimeScale> PartialEq for Time<S> {
    fn eq(&self, other: &Time<S>) -> (r: bool) {
        self.quantity.ps() == other.quantity.ps()
    }
}

impl<S: TimeScale> Eq for Time<S> {

}

impl<S: TimeScale> vstd::std_specs::cmp::PartialEqSpecImpl for Time<S> {
    open spec fn obeys_eq_spec() -> bool {
        true
    }

    open spec fn eq_spec(&self, other: &Time<S>) -> bool {
        self@ == other@
    }
}

impl<S: TimeScale> PartialOrd for Time<S> {
    fn partial_cmp(&self, other: &Time<S>) -> (r: Option<core::cmp::Ordering>) {
        if self.quantity.ps() < other.quantity.ps() {
            Some(core::cmp::Ordering::Less)
        } else if self.quantity.ps() == other.quantity.ps() {
            Some(core::cmp::Ordering::Equal)
        } else {
            Some(core::cmp::Ordering::Greater)
        }
    }
}

impl<S: TimeScale> vstd::std_specs::cmp::PartialOrdSpecImpl for Time<S> {
    open spec fn obeys_partial_cmp_spec() -> bool {
        true
    }

    open spec fn partial_cmp_spec(&self, other: &Time<S>) -> Option<core::cmp::Ordering> {
        if self@ < other@ {
            Some(core::cmp::Ordering::Less)
        } else if self@ == other@ {
            Some(core::cmp::Ordering::Equal)
        } else {
            Some(core::cmp::Ordering::Greater)
        }
    }
}

impl<S: TimeScale> Time<S> {
    /// Create from a quantity of days since the scale's epoch.
    pub fn new(value: Days) -> (r: Time<S>)
        ensures
            r@ == value@,
    {
        Time { quantity: value, _scale: core::marker::PhantomData }
    }

    /// Create from a [`Days`] quantity.
    pub fn from_days(days: Days) -> (r: Time<S>)
        ensures
            r@ == days@,
    {
        Time { quantity: days, _scale: core::marker::PhantomData }
    }

    /// The underlying quantity in days.
    pub fn quantity(&self) -> (r: Days)
        ensures
            r@ == self@,
    {
        self.quantity
    }

    /// Absolute Julian Day (TT) corresponding to this instant.
    pub fn julian_day(&self) -> (r: Days)
        requires
            in_conversion_range(self@),
        ensures
            r@ == S::to_canonical(self@),
            -OFFSET_BOUND_PS <= r@ - self@ <= OFFSET_BOUND_PS,
    {
        S::to_jd_tt(self.quantity)
    }

    /// Build an instant from an absolute Julian Day (TT).
    pub fn from_julian_day(jd: Days) -> (r: Time<S>)
        requires
            in_conversion_range(jd@),
        ensures
            r@ == S::from_canonical(jd@),
            -OFFSET_BOUND_PS <= r@ - jd@ <= OFFSET_BOUND_PS,
    {
        Time::from_days(S::from_jd_tt(jd))
    }

    /// Convert this instant to another time scale.
    ///
    /// The conversion routes through the canonical JD(TT) intermediate:
    /// one forward call, one inverse call, whatever the pair of scales.
    pub fn to<T: TimeScale>(&self) -> (r: Time<T>)
        requires
            in_result_range(self@),
        ensures
            r@ == T::from_canonical(S::to_canonical(self@)),
            -2 * OFFSET_BOUND_PS <= r@ - self@ <= 2 * OFFSET_BOUND_PS,
    {
        Time::<T>::from_julian_day(S::to_jd_tt(self.quantity))
    }

    /// Element-wise minimum (`self` on a tie).
    pub fn min(self, other: Self) -> (r: Self)
        ensures
            r == (if self@ <= other@ {
                self
            } else {
                other
            }),
    {
        if self.quantity.ps() <= other.quantity.ps() {
            self
        } else {
            other
        }
    }

    /// Element-wise maximum (`self` on a tie).
    pub fn max(self, other: Self) -> (r: Self)
        ensures
            r == (if self@ >= other@ {
                self
            } else {
                other
            }),
    {
        if self.quantity.ps() >= other.quantity.ps() {
            self
        } else {
            other
        }
    }

    /// Midpoint of two instants on the same scale (rounded toward minus
    /// infinity).
    pub fn mean(self, other: Self) -> (r: Self)
        requires
            i128::MIN < self@ + other@ <= i128::MAX,
        ensures
            r@ == (self@ + other@) / 2,
    {
        let sum: i128 = self.quantity.ps() + other.quantity.ps();
        Time::from_days(Days::from_ps(crate::days::div_floor(sum, 2)))
    }

    /// Add a duration, yielding a new instant on the same scale.
    pub fn add_duration(&self, duration: Days) -> (r: Self)
        requires
            i128::MIN <= self@ + duration@ <= i128::MAX,
        ensures
            r@ == self@ + duration@,
    {
        Time::from_days(self.quantity.plus(duration))
    }

    /// Subtract a duration, yielding a new instant on the same scale.
    pub fn sub_duration(&self, duration: Days) -> (r: Self)
        requires
            i128::MIN <= self@ - duration@ <= i128::MAX,
        ensures
            r@ == self@ - duration@,
    {
        Time::from_days(self.quantity.minus(duration))
    }

    /// The signed duration from `other` to `self`.
    pub fn difference(&self, other: &Self) -> (r: Days)
        requires
            i128::MIN <= self@ - other@ <= i128::MAX,
        ensures
            r@ == self@ - other@,
    {
        self.quantity.minus(other.quantity)
    }
}

/// The civil-timestamp boundary: a Unix-epoch timestamp (seconds and
/// nanoseconds since 1970-01-01T00:00:00 UTC) is interpreted as Universal
/// Time, promoted onto the UT axis, and converted through the canonical
/// axis — so the ΔT correction is applied without the caller ever
/// invoking the model.  The export inverts the path.
impl<S: TimeScale> Time<S> {
    /// Build an instant from a Unix-epoch timestamp taken as UT.
    pub fn from_utc_timestamp(secs: i64, nanos: u32) -> (r: Time<S>)
        requires
            crate::days::in_scale_range(
                crate::scales::UNIX_EPOCH_JD_PS + secs * crate::days::PS_PER_SEC + nanos * 1_000,
            ),
        ensures
            r@ == S::from_canonical(
                crate::scales::UT::to_canonical(
                    crate::scales::UNIX_EPOCH_JD_PS + secs * crate::days::PS_PER_SEC + nanos
                        * 1_000,
                ),
            ),
    {
        let ps: i128 = crate::scales::UNIX_EPOCH_JD_PS + (secs as i128) * crate::days::PS_PER_SEC
            + (nanos as i128) * 1_000;
        Time::<crate::scales::UT>::from_days(Days::from_ps(ps)).to::<S>()
    }

    /// Export this instant as a Unix-epoch timestamp on the UT axis:
    /// whole seconds rounded toward minus infinity, and the nonnegative
    /// nanosecond remainder.
    pub fn to_utc_timestamp(&self) -> (r: (i64, u32))
        requires
            crate::days::in_scale_range(self@),
        ensures
            ({
                let ut = crate::scales::UT::from_canonical(S::to_canonical(self@));
                let total = ut - crate::scales::UNIX_EPOCH_JD_PS;
                r.0 == total / crate::days::PS_PER_SEC as int && r.1 == (total
                    % crate::days::PS_PER_SEC as int) / 1_000
            }),
    {
        let ut: Time<crate::scales::UT> = self.to::<crate::scales::UT>();
        let total: i128 = ut.quantity().ps() - crate::scales::UNIX_EPOCH_JD_PS;
        let secs: i128 = crate::days::div_floor(total, crate::days::PS_PER_SEC);
        let rem: i128 = crate::days::mod_floor(total, crate::days::PS_PER_SEC);
        proof {
            crate::days::lemma_div_abs_bound(
                total as int,
                crate::days::PS_PER_SEC as int,
                3_000_000_000_000_000_000_000_000,
                3_000_000_000_001,
            );
            crate::days::lemma_div_nonneg(rem as int, 1_000);
            crate::days::lemma_div_abs_bound(rem as int, 1_000, 1_000_000_000_000, 1_000_000_001);
        }
        (secs as i64, crate::days::div_floor(rem, 1_000) as u32)
    }
}

/// Points in time usable with [`crate::period::Interval`]: an instant with
/// a total order given by its position (in picoseconds) on its axis.
pub trait TimeInstant: Copy {
    /// The position of this instant on its axis.
    spec fn at(&self) -> int;

    /// Whether this instant strictly precedes `other`.
    fn before(&self, other: &Self) -> (r: bool)
        ensures
            r == (self.at() < other.at()),
    ;

    /// The signed duration from `other` to `self`.
    fn difference(&self, other: &Self) -> (r: Days)
        requires
            i128::MIN <= self.at() - other.at() <= i128::MAX,
        ensures
            r@ == self.at() - other.at(),
    ;

    /// The earlier of two instants (`self` on a tie).
    fn earlier(self, other: Self) -> (r: Self)
        ensures
            r == (if self.at() <= other.at() {
                self
            } else {
                other
            }),
    ;

    /// The later of two instants (`self` on a tie).
    fn later(self, other: Self) -> (r: Self)
        ensures
            r == (if self.at() >= other.at() {
                self
            } else {
                other
            }),
    ;
}

impl<S: TimeScale> TimeInstant for Time<S> {
    open spec fn at(&self) -> int {
        self@
    }

    fn before(&self, other: &Self) -> (r: bool) {
        self.quantity.ps() < other.quantity.ps()
    }

    fn difference(&self, other: &Self) -> (r: Days) {
        self.quantity.minus(other.quantity)
    }

    fn earlier(self, other: Self) -> (r: Self) {
        self.min(other)
    }

    fn later(self, other: Self) -> (r: Self) {
        self.max(other)
    }
}

} // verus!
