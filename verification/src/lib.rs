//! Interval location over a sorted breakpoint sequence.
//!
//! A breakpoint sequence of length `n` (ascending, `n >= 2`) bounds `n - 1`
//! intervals. The functions here locate, by binary subdivision, the index of
//! the interval that contains a query value: out-of-range queries clamp to the
//! outermost intervals, and a query equal to an interior breakpoint belongs to
//! the interval on that breakpoint's left.
//!
//! Breakpoints and queries are order keys: unsigned integers whose `<=` is the
//! comparison order of the caller's numeric domain. A caller working in
//! IEEE-754 doubles maps each double to its total-order key (a monotone
//! bijection from non-NaN doubles into `u64`) before calling in; integer
//! domains embed directly.

use vstd::prelude::*;

verus! {

/// The breakpoint invariant: the sequence is sorted ascending.
pub open spec fn ascending(s: Seq<u64>) -> bool {
    forall|i: int, j: int| 0 <= i <= j < s.len() ==> s[i] <= s[j]
}

/// `i` names the interval of `s` that holds `v`: the interval's left
/// breakpoint `s[i]` lies strictly below `v` (so, under `ascending`, every
/// breakpoint left of the interval does), and `v` does not pass the interval's
/// right boundary `s[i + 1]`. The two border clauses exempt the outermost
/// intervals, which also absorb the queries that fall outside `s` altogether.
pub open spec fn is_interval_index(s: Seq<u64>, v: u64, i: int) -> bool {
    &&& 0 <= i <= s.len() - 2
    &&& i == 0 || s[i] < v
    &&& i == s.len() - 2 || v <= s[i + 1]
}

/// The absolute offset that an optional left-count argument denotes: a fresh
/// top-level call passes `None`, which reads as offset zero.
pub open spec fn left_offset(left_count: Option<usize>) -> int {
    match left_count {
        Some(lc) => lc as int,
        None => 0,
    }
}

/// Index, within the original full sequence, of the left breakpoint of the
/// interval of `list` that holds `value`, where `left_count` says how many
/// elements of the original sequence were already excluded on the left.
///
/// The subdivision keeps a working window `list[lo..hi]` and narrows it by
/// comparing against the window's middle element, so the comparison count is
/// logarithmic in `list.len()`.
pub fn index_left(list: &[u64], value: u64, left_count: Option<usize>) -> (r: usize)
    requires
        list@.len() >= 2,
        left_offset(left_count) + list@.len() - 2 <= usize::MAX,
    ensures
        is_interval_index(list@, value, r - left_offset(left_count)),
{
    let lc: usize = match left_count {
        Some(l) => l,
        None => 0,
    };
    let mut lo: usize = 0;
    let mut hi: usize = list.len();
    loop
        invariant
            lo + 2 <= hi <= list@.len(),
            lc == left_offset(left_count),
            lc + list@.len() - 2 <= usize::MAX,
            lo == 0 || list@[lo as int] < value,
            hi == list@.len() || value <= list@[hi - 1],
        decreases hi - lo,
    {
        let n: usize = hi - lo;
        if n == 2 {
            return lc + lo;
        }
        let split: usize = (n - 1) / 2;
        let mid: usize = lo + split;
        if n == 3 && value == list[mid] {
            // A query that hits the middle of a three-element window exactly
            // belongs to the interval on the middle breakpoint's left.
            return lc + lo;
        } else if value <= list[mid] {
            hi = mid + 1;
        } else {
            lo = mid;
        }
    }
}

/// The one error of the library: a breakpoint sequence of fewer than two
/// elements bounds no interval, so a lookup against it is rejected outright.
#[derive(Clone, Copy, Debug, PartialEq, Eq, Structural)]
pub struct PreconditionViolation;

/// Scalar lookup: the index of the interval of `breakpoints` that holds
/// `value`, or `PreconditionViolation` exactly when `breakpoints` is too short
/// to bound an interval.
pub fn locate_scalar(breakpoints: &[u64], value: u64) -> (r: Result<
    usize,
    PreconditionViolation,
>)
    ensures
        r is Ok <==> breakpoints@.len() >= 2,
        r matches Ok(i) ==> is_interval_index(breakpoints@, value, i as int),
{
    if breakpoints.len() < 2 {
        Err(PreconditionViolation)
    } else {
        Ok(index_left(breakpoints, value, None))
    }
}

/// Batch lookup: one scalar lookup per element of `values`, against the one
/// shared `breakpoints`, in input order. The whole call is rejected, exactly
/// as the scalar lookup would be, when `breakpoints` is too short — even for
/// an empty `values`.
pub fn locate_batch(breakpoints: &[u64], values: &[u64]) -> (r: Result<
    Vec<usize>,
    PreconditionViolation,
>)
    ensures
        r is Ok <==> breakpoints@.len() >= 2,
        r matches Ok(out) ==> out@.len() == values@.len() && forall|j: int|
            0 <= j < values@.len() ==> is_interval_index(
                breakpoints@,
                values@[j],
                out@[j] as int,
            ),
{
    if breakpoints.len() < 2 {
        return Err(PreconditionViolation);
    }
    let mut out: Vec<usize> = Vec::new();
    let mut j: usize = 0;
    while j < values.len()
        invariant
            2 <= breakpoints@.len() <= usize::MAX,
            j <= values@.len(),
            out@.len() == j,
            forall|k: int| 0 <= k < j ==> is_interval_index(
                breakpoints@,
                values@[k],
                out@[k] as int,
            ),
        decreases values@.len() - j,
    {
        let idx = index_left(breakpoints, values[j], None);
        out.push(idx);
        j += 1;
    }
    Ok(out)
}

/// An ascending sequence holds at most one interval index for a given value:
/// the three clauses of `is_interval_index` pin the result down.
pub proof fn lemma_interval_index_unique(s: Seq<u64>, v: u64, i: int, j: int)
    requires
        ascending(s),
        is_interval_index(s, v, i),
        is_interval_index(s, v, j),
    ensures
        i == j,
{
    if i < j {
        assert(s[i + 1] <= s[j]);
    }
    if j < i {
        assert(s[j + 1] <= s[i]);
    }
}

/// In-range lookups never overshoot: the located interval always lies within
/// `[0, s.len() - 2]`, and once the query is at least the first breakpoint,
/// the located interval's left breakpoint does not exceed the query.
pub proof fn lemma_left_breakpoint_bounds(s: Seq<u64>, v: u64, i: int)
    requires
        ascending(s),
        s.len() >= 2,
        s[0] <= v && v <= s[s.len() - 1],
        is_interval_index(s, v, i),
    ensures
        0 <= i <= s.len() - 2,
        s[i] <= v,
{
}

/// Monotonicity: raising the query value never moves the located interval to
/// the left.
pub proof fn lemma_monotone(s: Seq<u64>, v1: u64, v2: u64, i1: int, i2: int)
    requires
        ascending(s),
        v1 <= v2,
        is_interval_index(s, v1, i1),
        is_interval_index(s, v2, i2),
    ensures
        i1 <= i2,
{
    if i2 < i1 {
        assert(s[i2 + 1] <= s[i1]);
    }
}

/// Boundary tie-break: a query equal to an interior breakpoint `s[k]` that
/// strictly exceeds its left neighbour belongs to the interval on the
/// breakpoint's left, never the one it opens.
pub proof fn lemma_boundary_ties_left(s: Seq<u64>, k: int)
    requires
        ascending(s),
        0 < k < s.len() - 1,
        s[k - 1] < s[k],
    ensures
        is_interval_index(s, s[k], k - 1),
{
}

/// A two-breakpoint sequence bounds exactly one interval, so every lookup
/// against it lands on index zero.
pub proof fn lemma_two_breakpoints(s: Seq<u64>, v: u64, i: int)
    requires
        s.len() == 2,
        is_interval_index(s, v, i),
    ensures
        i == 0,
{
}

/// Batch/scalar equivalence: over an ascending sequence, each element of a
/// batch result (every element an interval index for its query, as
/// `locate_batch` ensures) equals the scalar result for the same query (an
/// interval index too, as `locate_scalar` ensures).
pub proof fn lemma_batch_matches_scalar(
    b: Seq<u64>,
    q: Seq<u64>,
    batch: Seq<usize>,
    scalar: usize,
    j: int,
)
    requires
        ascending(b),
        batch.len() == q.len(),
        forall|k: int| 0 <= k < q.len() ==> is_interval_index(b, q[k], batch[k] as int),
        0 <= j < q.len(),
        is_interval_index(b, q[j], scalar as int),
    ensures
        batch[j] == scalar,
{
    lemma_interval_index_unique(b, q[j], batch[j] as int, scalar as int);
}

} // verus!
