//! Fixed-point spans of days.
//!
//! Every quantity in this crate is an exact, signed count of **picoseconds**
//! (`1 day == 86_400_000_000_000_000 ps`).  All decimal constants that the
//! time-scale models need (half days, `32.184 s`, tenths of a second, ...)
//! are exactly representable, so the conversion formulas are exact integer
//! arithmetic and their contracts can state the result precisely.

use vstd::prelude::*;

verus! {

/// Picoseconds in one second.
pub const PS_PER_SEC: i128 = 1_000_000_000_000;

/// Picoseconds in one day.
pub const PS_PER_DAY: i128 = 86_400 * PS_PER_SEC;

/// Half of the values of the scales handled here stand at `x.5` days.
pub const PS_PER_HALF_DAY: i128 = 43_200 * PS_PER_SEC;

/// The widest span of native scale values the conversions accept:
/// ten million days on either side of day zero (roughly 27 000 years
/// around the Julian period's origin).
pub const MAX_SCALE_PS: i128 = 10_000_000 * PS_PER_DAY;

/// How far any scale's origin stands from the canonical axis origin,
/// rounded up: 2.5 million days covers the Modified Julian Date, Unix
/// and GPS epochs as well as every ΔT or relativistic correction.
pub const OFFSET_BOUND_PS: i128 = 2_500_000 * PS_PER_DAY;

/// A native scale value this far from zero converts without overflow.
pub open spec fn in_scale_range(v: int) -> bool {
    -MAX_SCALE_PS <= v <= MAX_SCALE_PS
}

/// Range of canonical-axis values produced from in-range scale values.
pub open spec fn in_canonical_range(c: int) -> bool {
    -(MAX_SCALE_PS + OFFSET_BOUND_PS) <= c <= MAX_SCALE_PS + OFFSET_BOUND_PS
}

/// Range of native values produced back from in-range canonical values.
pub open spec fn in_result_range(r: int) -> bool {
    -(MAX_SCALE_PS + 2 * OFFSET_BOUND_PS) <= r <= MAX_SCALE_PS + 2 * OFFSET_BOUND_PS
}

/// The widest values a single scale conversion accepts: enough room for
/// a value that has already crossed the canonical axis twice.
pub open spec fn in_conversion_range(v: int) -> bool {
    -(MAX_SCALE_PS + 3 * OFFSET_BOUND_PS) <= v <= MAX_SCALE_PS + 3 * OFFSET_BOUND_PS
}

/// A signed span of time: an exact count of picoseconds.
///
/// The view of a `Days` value is that count as a mathematical integer.
#[derive(Clone, Copy, Debug)]
pub struct Days {
    ps: i128,
}

impl View for Days {
    type V = int;

    closed spec fn view(&self) -> int {
        self.ps as int
    }
}

impl PartialEq for Days {
    fn eq(&self, other: &Days) -> (r: bool) {
        self.ps == other.ps
    }
}

impl Eq for Days {

}

impl vstd::std_specs::cmp::PartialEqSpecImpl for Days {
    open spec fn obeys_eq_spec() -> bool {
        true
    }

    open spec fn eq_spec(&self, other: &Days) -> bool {
        self@ == other@
    }
}

impl PartialOrd for Days {
    fn partial_cmp(&self, other: &Days) -> (r: Option<core::cmp::Ordering>) {
        if self.ps < other.ps {
            Some(core::cmp::Ordering::Less)
        } else if self.ps == other.ps {
            Some(core::cmp::Ordering::Equal)
        } else {
            Some(core::cmp::Ordering::Greater)
        }
    }
}

impl vstd::std_specs::cmp::PartialOrdSpecImpl for Days {
    open spec fn obeys_partial_cmp_spec() -> bool {
        true
    }

    open spec fn partial_cmp_spec(&self, other: &Days) -> Option<core::cmp::Ordering> {
        if self@ < other@ {
            Some(core::cmp::Ordering::Less)
        } else if self@ == other@ {
            Some(core::cmp::Ordering::Equal)
        } else {
            Some(core::cmp::Ordering::Greater)
        }
    }
}

impl Days {
    /// A span from a raw picosecond count.
    pub fn from_ps(ps: i128) -> (r: Days)
        ensures
            r@ == ps as int,
    {
        Days { ps }
    }

    /// A span of whole days.
    pub fn from_days(days: i64) -> (r: Days)
        ensures
            r@ == days as int * PS_PER_DAY,
    {
        Days { ps: (days as i128) * PS_PER_DAY }
    }

    /// The raw picosecond count.
    pub fn ps(&self) -> (r: i128)
        ensures
            r as int == self@,
    {
        self.ps
    }

    /// Exact sum of two spans.
    pub fn plus(self, other: Days) -> (r: Days)
        requires
            i128::MIN <= self@ + other@ <= i128::MAX,
        ensures
            r@ == self@ + other@,
    {
        Days { ps: self.ps + other.ps }
    }

    /// Exact difference of two spans.
    pub fn minus(self, other: Days) -> (r: Days)
        requires
            i128::MIN <= self@ - other@ <= i128::MAX,
        ensures
            r@ == self@ - other@,
    {
        Days { ps: self.ps - other.ps }
    }
}

/// The quotient of a value bounded by `p` is bounded by `b` whenever
/// `b` whole divisors cover `p` and one more.
pub proof fn lemma_div_abs_bound(a: int, d: int, p: int, b: int)
    requires
        0 < d,
        -p <= a <= p,
        p + d <= b * d,
    ensures
        -b <= a / d <= b,
{
    vstd::arithmetic::div_mod::lemma_fundamental_div_mod(a, d);
    vstd::arithmetic::div_mod::lemma_mod_bound(a, d);
    assert(-b <= a / d <= b) by (nonlinear_arith)
        requires
            0 < d,
            -p <= a <= p,
            p + d <= b * d,
            a == d * (a / d) + (a % d),
            0 <= a % d < d,
    ;
}

/// A nonnegative value divided by a positive divisor stays nonnegative.
pub proof fn lemma_div_nonneg(a: int, d: int)
    requires
        0 <= a,
        0 < d,
    ensures
        0 <= a / d,
{
    vstd::arithmetic::div_mod::lemma_fundamental_div_mod(a, d);
    vstd::arithmetic::div_mod::lemma_mod_bound(a, d);
    assert(0 <= a / d) by (nonlinear_arith)
        requires
            0 <= a,
            0 < d,
            a == d * (a / d) + (a % d),
            0 <= a % d < d,
    ;
}

/// Floor division of a picosecond count by a positive divisor; it agrees
/// with the mathematical `/` that the contracts use.
pub fn div_floor(a: i128, d: i128) -> (r: i128)
    requires
        0 < d,
        i128::MIN < a,
    ensures
        r as int == a as int / d as int,
{
    let q: i128 = a / d;
    let m: i128 = a % d;
    proof {
        if a < 0 {
            vstd::arithmetic::div_mod::lemma_fundamental_div_mod(-a as int, d as int);
            assert(a == d * q + m) by (nonlinear_arith)
                requires
                    -a as int == d * ((-a as int) / d as int) + ((-a as int) % d as int),
                    q == -((-a as int) / d as int),
                    m == -((-a as int) % d as int),
            ;
            if m < 0 {
                assert(a == d * (q - 1) + (m + d)) by (nonlinear_arith)
                    requires
                        a == d * q + m,
                ;
                vstd::arithmetic::div_mod::lemma_fundamental_div_mod_converse(
                    a as int,
                    d as int,
                    q - 1,
                    m + d,
                );
            } else {
                vstd::arithmetic::div_mod::lemma_fundamental_div_mod_converse(
                    a as int,
                    d as int,
                    q as int,
                    m as int,
                );
            }
        }
    }
    if m < 0 {
        q - 1
    } else {
        q
    }
}

/// Euclidean remainder of a picosecond count by a positive divisor; it
/// agrees with the mathematical `%` that the contracts use.
pub fn mod_floor(a: i128, d: i128) -> (r: i128)
    requires
        0 < d,
        i128::MIN < a,
    ensures
        r as int == a as int % d as int,
        0 <= r < d,
{
    let m: i128 = a % d;
    proof {
        if a < 0 {
            let q: int = -((-a as int) / d as int);
            vstd::arithmetic::div_mod::lemma_fundamental_div_mod(-a as int, d as int);
            assert(a == d * q + m) by (nonlinear_arith)
                requires
                    -a as int == d * ((-a as int) / d as int) + ((-a as int) % d as int),
                    q == -((-a as int) / d as int),
                    m == -((-a as int) % d as int),
            ;
            if m < 0 {
                assert(a == d * (q - 1) + (m + d)) by (nonlinear_arith)
                    requires
                        a == d * q + m,
                ;
                vstd::arithmetic::div_mod::lemma_fundamental_div_mod_converse(
                    a as int,
                    d as int,
                    q - 1,
                    m + d,
                );
            } else {
                vstd::arithmetic::div_mod::lemma_fundamental_div_mod_converse(
                    a as int,
                    d as int,
                    q,
                    m as int,
                );
            }
        }
    }
    if m < 0 {
        m + d
    } else {
        m
    }
}

} // verus!
