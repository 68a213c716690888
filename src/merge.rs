//! Merging the two half-window results into one ascending window.

use vstd::prelude::*;

verus! {

/// What the execution engine returns for one half-window.
pub struct WindowResult<H> {
    /// The hits, in the order the query asked for.
    pub hits: Vec<H>,
    pub scan_size: usize,
    /// Elapsed time of the query.
    pub took: usize,
    /// Share of the data served from cache, in percent.
    pub cached_ratio: usize,
    pub work_group: Option<String>,
    /// Time spent waiting in the cluster queue, when the engine reported it.
    pub queue_wait: Option<usize>,
}

/// The answer to a context-window request.
pub struct ContextResponse<H> {
    pub hits: Vec<H>,
    /// The number of merged hits.
    pub total: usize,
    /// The window size that was requested, not the number of hits.
    pub size: i64,
    pub scan_size: usize,
    pub took: usize,
    pub cached_ratio: usize,
}

/// The merged order: the backward hits reversed, then the forward hits.
pub open spec fn merged_hits<H>(forward: Seq<H>, backward: Seq<H>) -> Seq<H> {
    backward.reverse() + forward
}

/// The sums that a merge adds up fit in `usize`.
pub open spec fn merge_fits<H>(forward: WindowResult<H>, backward: WindowResult<H>) -> bool {
    &&& forward.scan_size + backward.scan_size <= usize::MAX
    &&& forward.took + backward.took <= usize::MAX
}

/// The unweighted mean of two ratios, rounded down.
pub open spec fn mean_ratio(a: usize, b: usize) -> int {
    (a + b) / 2
}

/// `(a + b) / 2` without an intermediate sum that could overflow.
pub fn average(a: usize, b: usize) -> (r: usize)
    ensures
        r == mean_ratio(a, b),
{
    a / 2 + b / 2 + (a % 2 + b % 2) / 2
}

/// Reorders and concatenates the two halves: `reverse(backward.hits) ++ forward.hits`.
/// Nothing is cut to the requested size; scan sizes and times are summed and the
/// cache ratios averaged.
pub fn merge<H>(forward: WindowResult<H>, backward: WindowResult<H>, size: i64) -> (r:
    ContextResponse<H>)
    requires
        merge_fits(forward, backward),
    ensures
        r.hits@ == merged_hits(forward.hits@, backward.hits@),
        r.total == forward.hits@.len() + backward.hits@.len(),
        r.size == size,
        r.scan_size == forward.scan_size + backward.scan_size,
        r.took == forward.took + backward.took,
        r.cached_ratio == mean_ratio(forward.cached_ratio, backward.cached_ratio),
{
    let ghost bw = backward.hits@;
    let mut rest = backward.hits;
    let mut hits: Vec<H> = Vec::new();
    while rest.len() > 0
        invariant
            rest@ == bw.take(rest@.len() as int),
            hits@ == bw.reverse().take(bw.len() - rest@.len()),
            rest@.len() <= bw.len(),
        decreases rest@.len(),
    {
        let ghost before = rest@;
        match rest.pop() {
            Some(h) => {
                hits.push(h);
                proof {
                    assert(rest@ =~= bw.take(rest@.len() as int));
                    assert(hits@ =~= bw.reverse().take(bw.len() - rest@.len()));
                }
            },
            None => {},
        }
    }
    proof {
        assert(hits@ =~= bw.reverse());
    }
    let mut fw_hits = forward.hits;
    hits.append(&mut fw_hits);
    let total = hits.len();
    ContextResponse {
        hits,
        total,
        size,
        scan_size: forward.scan_size + backward.scan_size,
        took: forward.took + backward.took,
        cached_ratio: average(forward.cached_ratio, backward.cached_ratio),
    }
}

/// `s` is in ascending order of `ts`.
pub open spec fn ascending<H>(s: Seq<H>, ts: spec_fn(H) -> int) -> bool {
    forall|i: int, j: int| 0 <= i < j < s.len() ==> ts(s[i]) <= ts(s[j])
}

/// `s` is in descending order of `ts`.
pub open spec fn descending<H>(s: Seq<H>, ts: spec_fn(H) -> int) -> bool {
    forall|i: int, j: int| 0 <= i < j < s.len() ==> ts(s[i]) >= ts(s[j])
}

/// Every element of `s` has a timestamp in `[lo, hi]`.
pub open spec fn within<H>(s: Seq<H>, ts: spec_fn(H) -> int, lo: int, hi: int) -> bool {
    forall|i: int| 0 <= i < s.len() ==> lo <= #[trigger] ts(s[i]) <= hi
}

/// When the forward hits are ascending and lie at or after the pivot, and the
/// backward hits are descending and lie at or before it, the merged window is
/// ascending.
pub proof fn merged_is_ascending<H>(
    forward: Seq<H>,
    backward: Seq<H>,
    ts: spec_fn(H) -> int,
    pivot: int,
    window_start: int,
    window_end: int,
)
    requires
        ascending(forward, ts),
        descending(backward, ts),
        within(forward, ts, pivot, window_end),
        within(backward, ts, window_start, pivot),
    ensures
        ascending(merged_hits(forward, backward), ts),
{
    let m = merged_hits(forward, backward);
    let r = backward.reverse();
    assert forall|i: int, j: int| 0 <= i < j < m.len() implies ts(m[i]) <= ts(m[j]) by {
        let n = backward.len();
        if j < n {
            assert(m[i] == backward[n - 1 - i]);
            assert(m[j] == backward[n - 1 - j]);
        } else if i < n {
            assert(m[i] == backward[n - 1 - i]);
            assert(m[j] == forward[j - n]);
            assert(ts(backward[n - 1 - i]) <= pivot);
            assert(pivot <= ts(forward[j - n]));
        } else {
            assert(m[i] == forward[i - n]);
            assert(m[j] == forward[j - n]);
        }
    }
}

} // verus!
