//! The two half-windows around a pivot, and the queries that fetch them.

use vstd::prelude::*;

verus! {

/// Half the width of the context window: fifteen minutes, in microseconds.
pub const HALF_WINDOW_MICROS: i64 = 900_000_000;

/// `n / 2` rounded toward zero, as integer division on `i64` does.
pub open spec fn half_of(n: int) -> int {
    if n >= 0 {
        n / 2
    } else {
        -((-n) / 2)
    }
}

/// `x` limited to the range of `i64`.
pub open spec fn clamp_i64(x: int) -> int {
    if x < i64::MIN {
        i64::MIN as int
    } else if x > i64::MAX {
        i64::MAX as int
    } else {
        x
    }
}

/// Earliest timestamp of the window around `pivot`.
pub open spec fn window_start(pivot: i64) -> int {
    clamp_i64(pivot - HALF_WINDOW_MICROS)
}

/// Latest timestamp of the window around `pivot`.
pub open spec fn window_end(pivot: i64) -> int {
    clamp_i64(pivot + HALF_WINDOW_MICROS)
}

/// The number of hits asked of each half-window, for a requested window size.
pub fn half_size(n: i64) -> (r: i64)
    ensures
        r == half_of(n as int),
{
    if n >= 0 {
        n / 2
    } else {
        let p: i64 = -(n + 1);
        let h: i64 = p / 2 + p % 2;
        -h
    }
}

/// The window's earliest timestamp: fifteen minutes before the pivot.
pub fn start_time(pivot: i64) -> (r: i64)
    ensures
        r == window_start(pivot),
{
    if pivot < i64::MIN + HALF_WINDOW_MICROS {
        i64::MIN
    } else {
        pivot - HALF_WINDOW_MICROS
    }
}

/// The window's latest timestamp: fifteen minutes after the pivot.
pub fn end_time(pivot: i64) -> (r: i64)
    ensures
        r == window_end(pivot),
{
    if pivot > i64::MAX - HALF_WINDOW_MICROS {
        i64::MAX
    } else {
        pivot + HALF_WINDOW_MICROS
    }
}

/// One sub-query handed to the execution engine.
pub struct WindowQuery {
    pub sql: String,
    pub from: i64,
    pub size: i64,
    pub start_time: i64,
    pub end_time: i64,
    /// Whether the hits come newest first.
    pub descending: bool,
    pub transform: Option<String>,
    pub regions: Vec<String>,
    pub clusters: Vec<String>,
    pub timeout: i64,
    /// The query is tagged as an interactive (UI) search.
    pub interactive: bool,
    /// Whether the engine may answer from its result cache; never in this mode.
    pub use_cache: bool,
}

/// The view of an optional string.
pub open spec fn opt_view(o: Option<String>) -> Option<Seq<char>> {
    match o {
        Some(s) => Some(s@),
        None => None,
    }
}

/// Clones an optional string, keeping its text.
pub fn clone_opt(o: &Option<String>) -> (r: Option<String>)
    ensures
        r == *o,
{
    match o {
        Some(s) => Some(s.clone()),
        None => None,
    }
}

/// Clones a list of strings, keeping its text.
pub fn clone_list(v: &Vec<String>) -> (r: Vec<String>)
    ensures
        r@ == v@,
{
    let mut out: Vec<String> = Vec::new();
    let mut i: usize = 0;
    while i < v.len()
        invariant
            i <= v.len(),
            out@ == v@.take(i as int),
        decreases v.len() - i,
    {
        out.push(v[i].clone());
        i = i + 1;
        proof {
            assert(out@ =~= v@.take(i as int));
        }
    }
    proof {
        assert(v@.take(v.len() as int) =~= v@);
    }
    out
}

impl WindowQuery {
    /// The query for the half after the pivot: `[pivot, pivot + 15m]`, oldest first.
    /// `sql` is the text already ordered ascending by timestamp.
    pub fn forward(
        sql: String,
        window_size: i64,
        pivot: i64,
        transform: &Option<String>,
        regions: &Vec<String>,
        clusters: &Vec<String>,
        timeout: i64,
    ) -> (r: WindowQuery)
        ensures
            r.sql == sql,
            r.from == 0,
            r.size == half_of(window_size as int),
            r.start_time == pivot,
            r.end_time == window_end(pivot),
            !r.descending,
            r.transform == *transform,
            r.regions@ == regions@,
            r.clusters@ == clusters@,
            r.timeout == timeout,
            r.interactive,
            !r.use_cache,
    {
        WindowQuery {
            sql,
            from: 0,
            size: half_size(window_size),
            start_time: pivot,
            end_time: end_time(pivot),
            descending: false,
            transform: clone_opt(transform),
            regions: clone_list(regions),
            clusters: clone_list(clusters),
            timeout,
            interactive: true,
            use_cache: false,
        }
    }

    /// The query for the half before the pivot: `[pivot - 15m, pivot]`, newest first.
    /// `sql` is the text already ordered descending by timestamp.
    pub fn backward(
        sql: String,
        window_size: i64,
        pivot: i64,
        transform: &Option<String>,
        regions: &Vec<String>,
        clusters: &Vec<String>,
        timeout: i64,
    ) -> (r: WindowQuery)
        ensures
            r.sql == sql,
            r.from == 0,
            r.size == half_of(window_size as int),
            r.start_time == window_start(pivot),
            r.end_time == pivot,
            r.descending,
            r.transform == *transform,
            r.regions@ == regions@,
            r.clusters@ == clusters@,
            r.timeout == timeout,
            r.interactive,
            !r.use_cache,
    {
        WindowQuery {
            sql,
            from: 0,
            size: half_size(window_size),
            start_time: start_time(pivot),
            end_time: pivot,
            descending: true,
            transform: clone_opt(transform),
            regions: clone_list(regions),
            clusters: clone_list(clusters),
            timeout,
            interactive: true,
            use_cache: false,
        }
    }
}

/// Both halves ask for the same number of hits, half the requested window
/// (exactly half when the window size is even).
pub proof fn halves_are_equal(
    fw: WindowQuery,
    bw: WindowQuery,
    window_size: i64,
)
    requires
        fw.size == half_of(window_size as int),
        bw.size == half_of(window_size as int),
    ensures
        fw.size == bw.size,
        window_size % 2 == 0 ==> fw.size + bw.size == window_size,
{
}

} // verus!
