//! Time period / interval algebra.
//!
//! An [`Interval<T>`] is a pair of instants treated as the half-open range
//! `[start, end)`: touching intervals share no point, so adjacent periods
//! never spuriously overlap.  The operations here — pairwise intersection,
//! the complement of a sorted list within a bounding period, and the merge
//! intersection of two sorted lists — carry contracts that pin down, point
//! by point, which instants the results cover.

use vstd::prelude::*;

use crate::days::Days;
use crate::instant::{Time, TimeInstant, TimeScale};

verus! {

/// An interval between two instants, half-open: it covers the points `t`
/// with `start <= t < end`.
#[derive(Debug)]
pub struct Interval<T: TimeInstant> {
    pub start: T,
    pub end: T,
}

/// Time-scale period alias, following the same marker pattern as
/// [`Time<S>`].
pub type Period<S> = Interval<Time<S>>;

impl<T: TimeInstant> Clone for Interval<T> {
    fn clone(&self) -> (r: Self)
        ensures
            r == *self,
    {
        Interval { start: self.start, end: self.end }
    }
}

impl<T: TimeInstant> Copy for Interval<T> {

}

impl<T: TimeInstant> PartialEq for Interval<T> {
    fn eq(&self, other: &Interval<T>) -> (r: bool) {
        !self.start.before(&other.start) && !other.start.before(&self.start) && !self.end.before(
            &other.end,
        ) && !other.end.before(&self.end)
    }
}

impl<T: TimeInstant> vstd::std_specs::cmp::PartialEqSpecImpl for Interval<T> {
    open spec fn obeys_eq_spec() -> bool {
        true
    }

    open spec fn eq_spec(&self, other: &Interval<T>) -> bool {
        self.start.at() == other.start.at() && self.end.at() == other.end.at()
    }
}

impl<T: TimeInstant> Interval<T> {
    /// Whether the interval is ordered (`start <= end`).
    pub open spec fn wf(&self) -> bool {
        self.start.at() <= self.end.at()
    }

    /// Whether the interval covers the axis position `t`.
    pub open spec fn covers(&self, t: int) -> bool {
        self.start.at() <= t < self.end.at()
    }

    /// Creates a new period between two time instants.
    pub fn new(start: T, end: T) -> (r: Self)
        ensures
            r.start == start,
            r.end == end,
    {
        Interval { start, end }
    }

    /// The duration of the period: `end - start`.
    pub fn duration(&self) -> (r: Days)
        requires
            i128::MIN <= self.end.at() - self.start.at() <= i128::MAX,
        ensures
            r@ == self.end.at() - self.start.at(),
    {
        self.end.difference(&self.start)
    }

    /// The duration of the period in days (an alias kept for call sites
    /// that spell the unit out).
    pub fn duration_days(&self) -> (r: Days)
        requires
            i128::MIN <= self.end.at() - self.start.at() <= i128::MAX,
        ensures
            r@ == self.end.at() - self.start.at(),
    {
        self.duration()
    }

    /// The overlapping sub-period of `self` and `other`.
    ///
    /// Periods are half-open, so if one ends exactly where the other
    /// starts the intersection is empty and `None` is returned; otherwise
    /// the result runs from the later start to the earlier end.
    pub fn intersection(&self, other: &Self) -> (r: Option<Self>)
        ensures
            ({
                let s = if self.start.at() >= other.start.at() {
                    self.start
                } else {
                    other.start
                };
                let e = if self.end.at() <= other.end.at() {
                    self.end
                } else {
                    other.end
                };
                if s.at() < e.at() {
                    r == Some(Interval { start: s, end: e })
                } else {
                    r == None::<Interval<T>>
                }
            }),
    {
        let start: T = if !self.start.before(&other.start) {
            self.start
        } else {
            other.start
        };
        let end: T = if !other.end.before(&self.end) {
            self.end
        } else {
            other.end
        };
        if start.before(&end) {
            Some(Interval::new(start, end))
        } else {
            None
        }
    }
}

impl<S: TimeScale> Interval<Time<S>> {
    /// Convert this period to another time scale, endpoint by endpoint,
    /// through the canonical axis.
    pub fn to<T2: TimeScale>(&self) -> (r: Interval<Time<T2>>)
        requires
            crate::days::in_scale_range(self.start@),
            crate::days::in_scale_range(self.end@),
        ensures
            r.start@ == T2::from_canonical(S::to_canonical(self.start@)),
            r.end@ == T2::from_canonical(S::to_canonical(self.end@)),
    {
        Interval::new(self.start.to::<T2>(), self.end.to::<T2>())
    }
}

/// Every interval of the sequence is ordered, and the sequence ascends:
/// each interval ends at or before the next one starts.
pub open spec fn sorted_disjoint<T: TimeInstant>(s: Seq<Interval<T>>) -> bool {
    (forall|i: int| 0 <= i < s.len() ==> (#[trigger] s[i]).wf()) && (forall|i: int|
        0 <= i < s.len() - 1 ==> (#[trigger] s[i]).end.at() <= s[i + 1].start.at())
}

/// Every interval of the sequence covers at least one point.
pub open spec fn all_nonempty<T: TimeInstant>(s: Seq<Interval<T>>) -> bool {
    forall|i: int| 0 <= i < s.len() ==> (#[trigger] s[i]).start.at() < s[i].end.at()
}

/// Whether some interval of the sequence covers the axis position `t`.
pub open spec fn seq_covers<T: TimeInstant>(s: Seq<Interval<T>>, t: int) -> bool {
    exists|i: int| 0 <= i < s.len() && (#[trigger] s[i]).covers(t)
}

/// An interval earlier in a sorted, disjoint sequence ends at or before a
/// later one starts.
pub proof fn lemma_sorted_start_order<T: TimeInstant>(s: Seq<Interval<T>>, i: int, j: int)
    requires
        sorted_disjoint(s),
        0 <= i < j < s.len(),
    ensures
        s[i].end.at() <= s[j].start.at(),
    decreases j - i,
{
    if i + 1 < j {
        lemma_sorted_start_order(s, i + 1, j);
    }
}

/// A sequence extended by one interval covers a point exactly when the
/// sequence did or the new interval does.
proof fn lemma_push_covers<T: TimeInstant>(s: Seq<Interval<T>>, g: Interval<T>, t: int)
    ensures
        seq_covers(s.push(g), t) <==> (seq_covers(s, t) || g.covers(t)),
{
    if seq_covers(s.push(g), t) {
        let i = choose|i: int| 0 <= i < s.push(g).len() && (#[trigger] s.push(g)[i]).covers(t);
        if i < s.len() {
            assert(s[i].covers(t));
        }
    }
    if seq_covers(s, t) {
        let i = choose|i: int| 0 <= i < s.len() && (#[trigger] s[i]).covers(t);
        assert(s.push(g)[i].covers(t));
    }
    if g.covers(t) {
        assert(s.push(g)[s.len() as int].covers(t));
    }
}

/// A suffix covers a point exactly when one of its members does.
proof fn lemma_skip_covers<T: TimeInstant>(s: Seq<Interval<T>>, i: int, t: int)
    requires
        0 <= i <= s.len(),
    ensures
        seq_covers(s.skip(i), t) <==> exists|k: int|
            i <= k < s.len() && (#[trigger] s[k]).covers(t),
{
    if seq_covers(s.skip(i), t) {
        let k = choose|k: int| 0 <= k < s.skip(i).len() && (#[trigger] s.skip(i)[k]).covers(t);
        assert(s[i + k].covers(t));
    }
    if exists|k: int| i <= k < s.len() && (#[trigger] s[k]).covers(t) {
        let k = choose|k: int| i <= k < s.len() && (#[trigger] s[k]).covers(t);
        assert(s.skip(i)[k - i].covers(t));
    }
}

/// Returns the gaps (complement) of `periods` within the bounding `outer`
/// period: a single left-to-right sweep emits a gap wherever the cursor
/// falls short of the next sub-period, and a trailing gap if the cursor
/// never reaches the outer end.
///
/// The contract characterises the result point by point: a position is
/// covered by some gap exactly when `outer` covers it and no sub-period
/// does.  The gaps come back ascending and nonempty, and the two edge
/// cases the algebra's laws use — no sub-periods at all, and sub-periods
/// that leave no gap — are pinned by the same characterisation.
pub fn complement_within<T: TimeInstant>(outer: Interval<T>, periods: &[Interval<T>]) -> (gaps:
    Vec<Interval<T>>)
    requires
        outer.wf(),
        sorted_disjoint(periods@),
        forall|i: int|
            0 <= i < periods@.len() ==> outer.start.at() <= (#[trigger] periods@[i]).start.at()
                && periods@[i].end.at() <= outer.end.at(),
    ensures
        forall|t: int|
            #[trigger] seq_covers(gaps@, t) <==> (outer.covers(t) && !seq_covers(periods@, t)),
        sorted_disjoint(gaps@),
        all_nonempty(gaps@),
        periods@.len() == 0 && outer.start.at() < outer.end.at() ==> gaps@ =~= seq![outer],
        periods@.len() == 0 && outer.start.at() >= outer.end.at() ==> gaps@.len() == 0,
{
    let mut gaps: Vec<Interval<T>> = Vec::new();
    let mut cursor: T = outer.start;
    let mut k: usize = 0;
    while k < periods.len()
        invariant
            0 <= k <= periods@.len(),
            outer.wf(),
            sorted_disjoint(periods@),
            forall|i: int|
                0 <= i < periods@.len() ==> outer.start.at() <= (
                #[trigger] periods@[i]).start.at() && periods@[i].end.at() <= outer.end.at(),
            outer.start.at() <= cursor.at() <= outer.end.at(),
            k < periods@.len() ==> cursor.at() <= periods@[k as int].start.at(),
            forall|i: int| 0 <= i < k ==> (#[trigger] periods@[i]).end.at() <= cursor.at(),
            forall|t: int|
                t < cursor.at() ==> (#[trigger] seq_covers(gaps@, t) <==> (outer.covers(t)
                    && !seq_covers(periods@, t))),
            forall|t: int| t >= cursor.at() ==> !#[trigger] seq_covers(gaps@, t),
            forall|m: int| 0 <= m < gaps@.len() ==> (#[trigger] gaps@[m]).end.at() <= cursor.at(),
            sorted_disjoint(gaps@),
            all_nonempty(gaps@),
            k == 0 ==> cursor == outer.start && gaps@.len() == 0,
        decreases periods@.len() - k,
    {
        let p: Interval<T> = periods[k];
        if cursor.before(&p.start) {
            let g: Interval<T> = Interval::new(cursor, p.start);
            proof {
                assert forall|t: int| #[trigger] seq_covers(gaps@.push(g), t) <==> (t
                    < p.start.at() && outer.covers(t) && !seq_covers(periods@, t)) by {
                    lemma_push_covers(gaps@, g, t);
                    if g.covers(t) {
                        assert(outer.covers(t));
                        assert forall|i: int|
                            0 <= i < periods@.len() implies !(#[trigger] periods@[i]).covers(
                            t,
                        ) by {
                            if i < k {
                                assert(periods@[i].end.at() <= cursor.at());
                            } else if i > k {
                                lemma_sorted_start_order(periods@, k as int, i);
                            }
                        }
                        assert(!seq_covers(periods@, t));
                    }
                }
                assert(sorted_disjoint(gaps@.push(g))) by {
                    assert forall|m: int| 0 <= m < gaps@.push(g).len() - 1 implies (
                    #[trigger] gaps@.push(g)[m]).end.at() <= gaps@.push(g)[m + 1].start.at() by {
                        if m == gaps@.len() - 1 {
                            assert(gaps@[m].end.at() <= cursor.at());
                        }
                    }
                }
            }
            gaps.push(g);
        }
        if cursor.before(&p.end) {
            cursor = p.end;
        }
        proof {
            assert forall|t: int| t < cursor.at() implies (#[trigger] seq_covers(gaps@, t) <==> (
            outer.covers(t) && !seq_covers(periods@, t))) by {
                if t >= p.start.at() {
                    assert(periods@[k as int].covers(t));
                    assert(seq_covers(periods@, t));
                }
            }
        }
        k = k + 1;
    }
    if cursor.before(&outer.end) {
        let g: Interval<T> = Interval::new(cursor, outer.end);
        proof {
            assert forall|t: int| #[trigger] seq_covers(gaps@.push(g), t) <==> (outer.covers(t)
                && !seq_covers(periods@, t)) by {
                lemma_push_covers(gaps@, g, t);
                if g.covers(t) {
                    assert forall|i: int|
                        0 <= i < periods@.len() implies !(#[trigger] periods@[i]).covers(t) by {
                        assert(periods@[i].end.at() <= cursor.at());
                    }
                    assert(!seq_covers(periods@, t));
                }
            }
            assert(sorted_disjoint(gaps@.push(g))) by {
                assert forall|m: int| 0 <= m < gaps@.push(g).len() - 1 implies (
                #[trigger] gaps@.push(g)[m]).end.at() <= gaps@.push(g)[m + 1].start.at() by {
                    if m == gaps@.len() - 1 {
                        assert(gaps@[m].end.at() <= cursor.at());
                    }
                }
            }
        }
        gaps.push(g);
        proof {
            if periods@.len() == 0 {
                assert(gaps@ =~= seq![outer]) by {
                    assert(gaps@.len() == 1);
                    assert(gaps@[0].start == outer.start && gaps@[0].end == outer.end);
                }
            }
        }
    }
    gaps
}

/// Returns the intersection of two sorted, non-overlapping period lists
/// by the classic two-pointer merge: emit the overlap of the current
/// heads, then advance whichever list's head ends first.
///
/// The contract characterises the result point by point: a position is
/// covered by the result exactly when both inputs cover it.  The result
/// comes back ascending and nonempty.
pub fn intersect_periods<T: TimeInstant>(a: &[Interval<T>], b: &[Interval<T>]) -> (result: Vec<
    Interval<T>,
>)
    requires
        sorted_disjoint(a@),
        sorted_disjoint(b@),
    ensures
        forall|t: int|
            #[trigger] seq_covers(result@, t) <==> (seq_covers(a@, t) && seq_covers(b@, t)),
        sorted_disjoint(result@),
        all_nonempty(result@),
{
    let mut result: Vec<Interval<T>> = Vec::new();
    let mut i: usize = 0;
    let mut j: usize = 0;
    let ghost mut fr: int = 0;
    proof {
        assert(a@.skip(0) =~= a@);
        assert(b@.skip(0) =~= b@);
        if a@.len() > 0 && b@.len() > 0 {
            fr = if a@[0].start.at() <= b@[0].start.at() {
                a@[0].start.at()
            } else {
                b@[0].start.at()
            };
        }
    }
    while i < a.len() && j < b.len()
        invariant
            0 <= i <= a@.len(),
            0 <= j <= b@.len(),
            sorted_disjoint(a@),
            sorted_disjoint(b@),
            sorted_disjoint(result@),
            all_nonempty(result@),
            forall|m: int| 0 <= m < result@.len() ==> (#[trigger] result@[m]).end.at() <= fr,
            i < a@.len() && j < b@.len() ==> (fr <= a@[i as int].start.at() || fr <= b@[
                j as int
            ].start.at()),
            forall|t: int|
                #[trigger] seq_covers(result@, t) <==> (seq_covers(a@, t) && seq_covers(b@, t) && !(
                seq_covers(a@.skip(i as int), t) && seq_covers(b@.skip(j as int), t))),
        decreases a@.len() - i + b@.len() - j,
    {
        let ghost old_i = i as int;
        let ghost old_j = j as int;
        let pa: Interval<T> = a[i];
        let pb: Interval<T> = b[j];
        let start: T = if !pa.start.before(&pb.start) {
            pa.start
        } else {
            pb.start
        };
        let end: T = if !pb.end.before(&pa.end) {
            pa.end
        } else {
            pb.end
        };
        let ghost lo: int = if a@[old_i].end.at() <= b@[old_j].end.at() {
            a@[old_i].end.at()
        } else {
            b@[old_j].end.at()
        };
        if start.before(&end) {
            let g: Interval<T> = Interval::new(start, end);
            proof {
                lemma_intersect_push(a@, b@, result@, old_i, old_j, g, fr);
                fr = g.end.at();
            }
            result.push(g);
        } else {
            proof {
                lemma_intersect_no_overlap(a@, b@, result@, old_i, old_j);
            }
        }
        // From here the characterisation holds in the frontier form:
        // joint coverage of the suffixes counts only from `lo` on.
        proof {
            lemma_intersect_advance(a@, b@, result@, old_i, old_j);
        }
        if !pb.end.before(&pa.end) {
            i = i + 1;
        } else {
            j = j + 1;
        }
        proof {
            if i < a@.len() && j < b@.len() {
                assert(a@[old_i].wf());
                assert(b@[old_j].wf());
                if old_i < i {
                    assert(a@[old_i].end.at() <= a@[i as int].start.at());
                } else {
                    assert(b@[old_j].end.at() <= b@[j as int].start.at());
                }
            }
        }
    }
    proof {
        assert forall|t: int| #[trigger] seq_covers(result@, t) <==> (seq_covers(a@, t)
            && seq_covers(b@, t)) by {
            if i >= a@.len() {
                assert(a@.skip(i as int).len() == 0);
                assert(!seq_covers(a@.skip(i as int), t));
            } else {
                assert(b@.skip(j as int).len() == 0);
                assert(!seq_covers(b@.skip(j as int), t));
            }
        }
    }
    result
}

/// The frontier of the current heads: the earlier of their two ends.
spec fn heads_lo<T: TimeInstant>(a: Seq<Interval<T>>, b: Seq<Interval<T>>, i: int, j: int) -> int {
    if a[i].end.at() <= b[j].end.at() {
        a[i].end.at()
    } else {
        b[j].end.at()
    }
}

/// The characterisation in frontier form: what the result covers is the
/// joint coverage, except joint points of the unprocessed suffixes at or
/// past the frontier.
spec fn frontier_form<T: TimeInstant>(
    a: Seq<Interval<T>>,
    b: Seq<Interval<T>>,
    result: Seq<Interval<T>>,
    i: int,
    j: int,
) -> bool {
    forall|t: int|
        #[trigger] seq_covers(result, t) <==> (seq_covers(a, t) && seq_covers(b, t) && !(t
            >= heads_lo(a, b, i, j) && seq_covers(a.skip(i), t) && seq_covers(b.skip(j), t)))
}

/// Pushing the (nonempty) overlap of the two current heads onto the
/// result moves the characterisation from the plain to the frontier form
/// and keeps the ordering facts.
proof fn lemma_intersect_push<T: TimeInstant>(
    a: Seq<Interval<T>>,
    b: Seq<Interval<T>>,
    result: Seq<Interval<T>>,
    i: int,
    j: int,
    g: Interval<T>,
    fr: int,
)
    requires
        sorted_disjoint(a),
        sorted_disjoint(b),
        sorted_disjoint(result),
        all_nonempty(result),
        0 <= i < a.len(),
        0 <= j < b.len(),
        forall|m: int| 0 <= m < result.len() ==> (#[trigger] result[m]).end.at() <= fr,
        fr <= a[i].start.at() || fr <= b[j].start.at(),
        g.start.at() == if a[i].start.at() >= b[j].start.at() {
            a[i].start.at()
        } else {
            b[j].start.at()
        },
        g.end.at() == heads_lo(a, b, i, j),
        g.start.at() < g.end.at(),
        forall|t: int|
            #[trigger] seq_covers(result, t) <==> (seq_covers(a, t) && seq_covers(b, t) && !(
            seq_covers(a.skip(i), t) && seq_covers(b.skip(j), t))),
    ensures
        sorted_disjoint(result.push(g)),
        all_nonempty(result.push(g)),
        forall|m: int| 0 <= m < result.push(g).len() ==> (#[trigger] result.push(g)[m]).end.at()
            <= g.end.at(),
        frontier_form(a, b, result.push(g), i, j),
{
    let r2 = result.push(g);
    assert forall|m: int| 0 <= m < r2.len() implies (#[trigger] r2[m]).end.at() <= g.end.at() by {
        if m < result.len() {
            assert(result[m].end.at() <= fr);
            assert(fr <= g.start.at());
        }
    }
    assert(sorted_disjoint(r2)) by {
        assert forall|m: int| 0 <= m < r2.len() - 1 implies (#[trigger] r2[m]).end.at() <= r2[m
            + 1].start.at() by {
            if m == result.len() - 1 {
                assert(result[m].end.at() <= fr);
                assert(fr <= g.start.at());
            }
        }
    }
    assert forall|t: int| #[trigger] seq_covers(r2, t) <==> (seq_covers(a, t) && seq_covers(b, t)
        && !(t >= heads_lo(a, b, i, j) && seq_covers(a.skip(i), t) && seq_covers(
        b.skip(j),
        t,
    ))) by {
        lemma_push_covers(result, g, t);
        lemma_skip_covers(a, i, t);
        lemma_skip_covers(b, j, t);
        if g.covers(t) {
            assert(a[i].covers(t));
            assert(b[j].covers(t));
            assert(seq_covers(a, t));
            assert(seq_covers(b, t));
        } else {
            if seq_covers(a.skip(i), t) && seq_covers(b.skip(j), t) && t < g.end.at() {
                let ka = choose|k: int| i <= k < a.len() && (#[trigger] a[k]).covers(t);
                let kb = choose|k: int| j <= k < b.len() && (#[trigger] b[k]).covers(t);
                if ka > i {
                    lemma_sorted_start_order(a, i, ka);
                    assert(false);
                }
                if kb > j {
                    lemma_sorted_start_order(b, j, kb);
                    assert(false);
                }
                assert(a[i].covers(t) && b[j].covers(t));
                assert(g.covers(t));
                assert(false);
            }
        }
    }
}

/// When the two current heads do not overlap, the plain characterisation
/// already equals the frontier form: the suffixes share no point below
/// the frontier.
proof fn lemma_intersect_no_overlap<T: TimeInstant>(
    a: Seq<Interval<T>>,
    b: Seq<Interval<T>>,
    result: Seq<Interval<T>>,
    i: int,
    j: int,
)
    requires
        sorted_disjoint(a),
        sorted_disjoint(b),
        0 <= i < a.len(),
        0 <= j < b.len(),
        (if a[i].start.at() >= b[j].start.at() {
            a[i].start.at()
        } else {
            b[j].start.at()
        }) >= heads_lo(a, b, i, j),
        forall|t: int|
            #[trigger] seq_covers(result, t) <==> (seq_covers(a, t) && seq_covers(b, t) && !(
            seq_covers(a.skip(i), t) && seq_covers(b.skip(j), t))),
    ensures
        frontier_form(a, b, result, i, j),
{
    assert forall|t: int| #[trigger] seq_covers(result, t) <==> (seq_covers(a, t) && seq_covers(
        b,
        t,
    ) && !(t >= heads_lo(a, b, i, j) && seq_covers(a.skip(i), t) && seq_covers(b.skip(j), t))) by {
        lemma_skip_covers(a, i, t);
        lemma_skip_covers(b, j, t);
        if seq_covers(a.skip(i), t) && seq_covers(b.skip(j), t) && t < heads_lo(a, b, i, j) {
            let ka = choose|k: int| i <= k < a.len() && (#[trigger] a[k]).covers(t);
            let kb = choose|k: int| j <= k < b.len() && (#[trigger] b[k]).covers(t);
            if ka > i {
                lemma_sorted_start_order(a, i, ka);
                assert(false);
            }
            if kb > j {
                lemma_sorted_start_order(b, j, kb);
                assert(false);
            }
            assert(a[i].covers(t) && b[j].covers(t));
            assert(false);
        }
    }
}

/// Advancing past the head whose interval ends first turns the frontier
/// form back into the plain characterisation over the shrunk suffixes.
proof fn lemma_intersect_advance<T: TimeInstant>(
    a: Seq<Interval<T>>,
    b: Seq<Interval<T>>,
    result: Seq<Interval<T>>,
    i: int,
    j: int,
)
    requires
        sorted_disjoint(a),
        sorted_disjoint(b),
        0 <= i < a.len(),
        0 <= j < b.len(),
        frontier_form(a, b, result, i, j),
    ensures
        a[i].end.at() <= b[j].end.at() ==> (forall|t: int|
            #[trigger] seq_covers(result, t) <==> (seq_covers(a, t) && seq_covers(b, t) && !(
            seq_covers(a.skip(i + 1), t) && seq_covers(b.skip(j), t)))),
        a[i].end.at() > b[j].end.at() ==> (forall|t: int|
            #[trigger] seq_covers(result, t) <==> (seq_covers(a, t) && seq_covers(b, t) && !(
            seq_covers(a.skip(i), t) && seq_covers(b.skip(j + 1), t)))),
{
    let lo = heads_lo(a, b, i, j);
    if a[i].end.at() <= b[j].end.at() {
        assert forall|t: int| #[trigger] seq_covers(result, t) <==> (seq_covers(a, t)
            && seq_covers(b, t) && !(seq_covers(a.skip(i + 1), t) && seq_covers(
            b.skip(j),
            t,
        ))) by {
            lemma_skip_covers(a, i, t);
            lemma_skip_covers(a, i + 1, t);
            lemma_skip_covers(b, j, t);
            if seq_covers(a.skip(i + 1), t) && seq_covers(b.skip(j), t) {
                // Such a point is joint for the old suffixes, at or past
                // the frontier.
                let ka = choose|k: int| i + 1 <= k < a.len() && (#[trigger] a[k]).covers(t);
                lemma_sorted_start_order(a, i, ka);
                assert(t >= a[i].end.at());
                assert(seq_covers(a.skip(i), t));
            }
            if t >= lo && seq_covers(a.skip(i), t) && seq_covers(b.skip(j), t) {
                // Past the frontier the head being dropped covers
                // nothing, so the joint point survives in the new form.
                let ka = choose|k: int| i <= k < a.len() && (#[trigger] a[k]).covers(t);
                if ka == i {
                    assert(t < a[i].end.at() <= lo);
                    assert(false);
                }
                assert(seq_covers(a.skip(i + 1), t));
            }
        }
    } else {
        assert forall|t: int| #[trigger] seq_covers(result, t) <==> (seq_covers(a, t)
            && seq_covers(b, t) && !(seq_covers(a.skip(i), t) && seq_covers(
            b.skip(j + 1),
            t,
        ))) by {
            lemma_skip_covers(b, j, t);
            lemma_skip_covers(b, j + 1, t);
            lemma_skip_covers(a, i, t);
            if seq_covers(b.skip(j + 1), t) && seq_covers(a.skip(i), t) {
                let kb = choose|k: int| j + 1 <= k < b.len() && (#[trigger] b[k]).covers(t);
                lemma_sorted_start_order(b, j, kb);
                assert(t >= b[j].end.at());
                assert(seq_covers(b.skip(j), t));
            }
            if t >= lo && seq_covers(a.skip(i), t) && seq_covers(b.skip(j), t) {
                let kb = choose|k: int| j <= k < b.len() && (#[trigger] b[k]).covers(t);
                if kb == j {
                    assert(t < b[j].end.at() <= lo);
                    assert(false);
                }
                assert(seq_covers(b.skip(j + 1), t));
            }
        }
    }
}

} // verus!
