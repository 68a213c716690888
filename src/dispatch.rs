//! The two-phase dispatch of a context-window request, as a state machine: the
//! caller runs each query it is handed and reports the outcome back.

use vstd::prelude::*;
use crate::context::ContextRequest;
use crate::errors::{translate, translates, ErrorResponse, ExecutionError};
use crate::merge::{merge, merge_fits, merged_hits, mean_ratio, ContextResponse, WindowResult};
use crate::window::{end_time, half_of, start_time, window_end, window_start, WindowQuery};

verus! {

/// Where a context search stands.
pub enum Phase<H> {
    /// The forward query is out; this is the backward query that follows it.
    AwaitingForward(WindowQuery),
    /// The forward half came back; the backward query is out.
    AwaitingBackward(WindowResult<H>),
    /// A response has been produced; nothing more is sent.
    Finished,
}

/// What the caller does next.
pub enum Step<H> {
    /// Run this query on the execution engine and report its outcome.
    Execute(WindowQuery),
    /// Answer with this error.
    Fail(ErrorResponse),
    /// Answer with this response, and report this usage.
    Complete(ContextResponse<H>, UsageRecord),
}

/// The accounting record of a completed context search.
pub struct UsageRecord {
    /// The number of hits returned.
    pub records: usize,
    /// The scan size of both halves together.
    pub size: usize,
    /// The SQL text of the backward query.
    pub request_body: String,
    pub user_email: Option<String>,
    pub min_ts: i64,
    pub max_ts: i64,
    pub cached_ratio: usize,
    pub trace_id: String,
    /// Time both halves waited in the cluster queue, where either reported it.
    pub took_wait_in_queue: Option<usize>,
    /// The work groups of the forward and the backward half, for the caller to
    /// pick a representative from.
    pub work_groups: (Option<String>, Option<String>),
    /// 1 when a transform expression was given, else 0.
    pub transform_count: u16,
}

/// The queue waits of the two halves together: their sum, the one reported, or none.
pub open spec fn combined_wait(a: Option<usize>, b: Option<usize>) -> Option<int> {
    match (a, b) {
        (Some(x), Some(y)) => Some(x + y),
        (Some(x), None) => Some(x as int),
        (None, Some(y)) => Some(y as int),
        (None, None) => None,
    }
}

/// The view of an optional count.
pub open spec fn opt_int(o: Option<usize>) -> Option<int> {
    match o {
        Some(x) => Some(x as int),
        None => None,
    }
}

/// Combines the queue waits of the two halves.
pub fn combine_wait(a: Option<usize>, b: Option<usize>) -> (r: Option<usize>)
    requires
        (a, b) matches (Some(x), Some(y)) ==> x + y <= usize::MAX,
    ensures
        opt_int(r) == combined_wait(a, b),
{
    match (a, b) {
        (Some(x), Some(y)) => Some(x + y),
        (Some(x), None) => Some(x),
        (None, Some(y)) => Some(y),
        (None, None) => None,
    }
}

/// The sums a completed search adds up fit in `usize`.
pub open spec fn completion_fits<H>(forward: WindowResult<H>, backward: WindowResult<H>) -> bool {
    &&& merge_fits(forward, backward)
    &&& (forward.queue_wait, backward.queue_wait) matches (Some(x), Some(y)) ==> x + y <= usize::MAX
}

/// A context search in progress.
pub struct AroundSearch<H> {
    pub trace_id: String,
    pub window_size: i64,
    pub pivot: i64,
    /// The SQL of the backward query, kept for the usage record.
    pub backward_sql: String,
    pub user_id: Option<String>,
    pub has_transform: bool,
    pub phase: Phase<H>,
}

/// `q` fetches the half before `pivot`, newest first.
pub open spec fn is_backward_query(q: WindowQuery, pivot: i64, window_size: i64) -> bool {
    &&& q.from == 0
    &&& q.size == half_of(window_size as int)
    &&& q.start_time == window_start(pivot)
    &&& q.end_time == pivot
    &&& q.descending
}

/// `r` is the response and `u` the usage record of a search whose halves returned
/// `fw` and `bw`.
pub open spec fn completes<H>(
    s: AroundSearch<H>,
    fw: WindowResult<H>,
    bw: WindowResult<H>,
    r: ContextResponse<H>,
    u: UsageRecord,
) -> bool {
    &&& r.hits@ == merged_hits(fw.hits@, bw.hits@)
    &&& r.total == fw.hits@.len() + bw.hits@.len()
    &&& r.size == s.window_size
    &&& r.scan_size == fw.scan_size + bw.scan_size
    &&& r.took == fw.took + bw.took
    &&& r.cached_ratio == mean_ratio(fw.cached_ratio, bw.cached_ratio)
    &&& u.records == r.total
    &&& u.size == r.scan_size
    &&& u.request_body == s.backward_sql
    &&& u.user_email == s.user_id
    &&& u.min_ts == window_start(s.pivot)
    &&& u.max_ts == window_end(s.pivot)
    &&& u.cached_ratio == r.cached_ratio
    &&& u.trace_id == s.trace_id
    &&& opt_int(u.took_wait_in_queue) == combined_wait(fw.queue_wait, bw.queue_wait)
    &&& u.work_groups == (fw.work_group, bw.work_group)
    &&& u.transform_count == (if s.has_transform { 1u16 } else { 0u16 })
}

/// The search fields that stay fixed from one phase to the next.
pub open spec fn same_request<H>(a: AroundSearch<H>, b: AroundSearch<H>) -> bool {
    &&& a.trace_id == b.trace_id
    &&& a.window_size == b.window_size
    &&& a.pivot == b.pivot
    &&& a.backward_sql == b.backward_sql
    &&& a.user_id == b.user_id
    &&& a.has_transform == b.has_transform
}

/// How the forward outcome `res` moves the search from `s` to `t`, giving `step`.
pub open spec fn forward_step<H>(
    s: AroundSearch<H>,
    res: Result<WindowResult<H>, ExecutionError>,
    t: AroundSearch<H>,
    step: Step<H>,
) -> bool {
    &&& same_request(s, t)
    &&& match res {
        Ok(fw) => {
            &&& t.phase == Phase::AwaitingBackward(fw)
            &&& s.phase matches Phase::AwaitingForward(q) && step == Step::<H>::Execute(q)
        },
        Err(e) => {
            &&& t.phase is Finished
            &&& step matches Step::Fail(r) && translates(r, e, s.trace_id@)
        },
    }
}

/// How the backward outcome `res` moves the search from `s` to `t`, giving `step`.
pub open spec fn backward_step<H>(
    s: AroundSearch<H>,
    res: Result<WindowResult<H>, ExecutionError>,
    t: AroundSearch<H>,
    step: Step<H>,
) -> bool {
    &&& same_request(s, t)
    &&& t.phase is Finished
    &&& match res {
        Ok(bw) => s.phase matches Phase::AwaitingBackward(fw) && step matches Step::Complete(
            r,
            u,
        ) && completes(s, fw, bw, r, u),
        Err(e) => step matches Step::Fail(r) && translates(r, e, s.trace_id@),
    }
}

impl<H> AroundSearch<H> {
    /// Starts a search for `req`. `forward_sql` and `backward_sql` are the request's
    /// SQL ordered ascending and descending by timestamp, or `None` where that
    /// rewrite failed, in which case the request's SQL is used as it is. Returns
    /// the search and the forward query, `[pivot, pivot + 15m]` oldest first, to run.
    pub fn start(
        req: ContextRequest,
        trace_id: String,
        forward_sql: Option<String>,
        backward_sql: Option<String>,
    ) -> (r: (AroundSearch<H>, WindowQuery))
        ensures
            r.1.sql == (match forward_sql {
                Some(s) => s,
                None => req.sql,
            }),
            r.1.from == 0,
            r.1.size == half_of(req.size as int),
            r.1.start_time == req.pivot,
            r.1.end_time == window_end(req.pivot),
            !r.1.descending,
            r.1.transform == req.transform,
            r.1.regions@ == req.regions@,
            r.1.clusters@ == req.clusters@,
            r.1.timeout == req.timeout,
            r.1.interactive,
            !r.1.use_cache,
            r.0.phase matches Phase::AwaitingForward(q) && {
                &&& is_backward_query(q, req.pivot, req.size)
                &&& q.sql == r.0.backward_sql
                &&& q.transform == req.transform
                &&& q.regions@ == req.regions@
                &&& q.clusters@ == req.clusters@
                &&& q.timeout == req.timeout
                &&& q.interactive
                &&& !q.use_cache
            },
            r.0.backward_sql == (match backward_sql {
                Some(s) => s,
                None => req.sql,
            }),
            r.0.trace_id == trace_id,
            r.0.window_size == req.size,
            r.0.pivot == req.pivot,
            r.0.user_id == req.user_id,
            r.0.has_transform == req.transform is Some,
    {
        let fw_sql = match forward_sql {
            Some(s) => s,
            None => req.sql.clone(),
        };
        let bw_sql = match backward_sql {
            Some(s) => s,
            None => req.sql.clone(),
        };
        let forward = WindowQuery::forward(
            fw_sql,
            req.size,
            req.pivot,
            &req.transform,
            &req.regions,
            &req.clusters,
            req.timeout,
        );
        let backward = WindowQuery::backward(
            bw_sql.clone(),
            req.size,
            req.pivot,
            &req.transform,
            &req.regions,
            &req.clusters,
            req.timeout,
        );
        let has_transform = req.transform.is_some();
        let search = AroundSearch {
            trace_id,
            window_size: req.size,
            pivot: req.pivot,
            backward_sql: bw_sql,
            user_id: req.user_id,
            has_transform,
            phase: Phase::AwaitingForward(backward),
        };
        (search, forward)
    }

    /// Takes the forward outcome. On success the backward query is handed out; on
    /// failure the search ends with the translated error and the backward query is
    /// never handed out.
    pub fn on_forward(&mut self, res: Result<WindowResult<H>, ExecutionError>) -> (step: Step<H>)
        requires
            old(self).phase is AwaitingForward,
        ensures
            forward_step(*old(self), res, *final(self), step),
    {
        let mut phase = Phase::Finished;
        std::mem::swap(&mut self.phase, &mut phase);
        match res {
            Ok(fw) => match phase {
                Phase::AwaitingForward(q) => {
                    self.phase = Phase::AwaitingBackward(fw);
                    Step::Execute(q)
                },
                // Not reached: the precondition fixes the phase.
                _ => Step::Fail(translate(ExecutionError::Other(String::new()), &self.trace_id)),
            },
            Err(e) => Step::Fail(translate(e, &self.trace_id)),
        }
    }

    /// Takes the backward outcome. On success the two halves are merged and the
    /// usage record made; on failure the search ends with the translated error and
    /// the forward hits are dropped.
    pub fn on_backward(&mut self, res: Result<WindowResult<H>, ExecutionError>) -> (step: Step<H>)
        requires
            old(self).phase matches Phase::AwaitingBackward(fw) && (res matches Ok(bw)
                ==> completion_fits(fw, bw)),
        ensures
            backward_step(*old(self), res, *final(self), step),
    {
        let mut phase = Phase::Finished;
        std::mem::swap(&mut self.phase, &mut phase);
        match res {
            Err(e) => Step::Fail(translate(e, &self.trace_id)),
            Ok(bw) => match phase {
                Phase::AwaitingBackward(fw) => {
                    let wait = combine_wait(fw.queue_wait, bw.queue_wait);
                    let work_groups = (fw.work_group.clone(), bw.work_group.clone());
                    let resp = merge(fw, bw, self.window_size);
                    let usage = UsageRecord {
                        records: resp.total,
                        size: resp.scan_size,
                        request_body: self.backward_sql.clone(),
                        user_email: self.user_id.clone(),
                        min_ts: start_time(self.pivot),
                        max_ts: end_time(self.pivot),
                        cached_ratio: resp.cached_ratio,
                        trace_id: self.trace_id.clone(),
                        took_wait_in_queue: wait,
                        work_groups,
                        transform_count: if self.has_transform { 1 } else { 0 },
                    };
                    Step::Complete(resp, usage)
                },
                // Not reached: the precondition fixes the phase.
                _ => Step::Fail(translate(ExecutionError::Other(String::new()), &self.trace_id)),
            },
        }
    }
}

/// When the forward half fails, the search ends with that error translated, and
/// no further query is handed out.
pub proof fn forward_failure_ends_search<H>(
    s: AroundSearch<H>,
    e: ExecutionError,
    t: AroundSearch<H>,
    step: Step<H>,
)
    requires
        forward_step(s, Err(e), t, step),
    ensures
        step matches Step::Fail(r) && translates(r, e, s.trace_id@),
        !(step is Execute),
        t.phase is Finished,
{
}

/// When the forward half succeeds and the backward half fails, the search ends
/// with the backward error translated, and the response carries no hits.
pub proof fn backward_failure_hides_forward<H>(
    s: AroundSearch<H>,
    e: ExecutionError,
    t: AroundSearch<H>,
    step: Step<H>,
)
    requires
        s.phase is AwaitingBackward,
        backward_step(s, Err(e), t, step),
    ensures
        step matches Step::Fail(r) && translates(r, e, s.trace_id@),
        !(step is Complete),
        t.phase is Finished,
{
}

} // verus!
