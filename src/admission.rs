//! The admission policy for search submissions, chosen once at start-up.

use vstd::prelude::*;

verus! {

/// How searches are admitted.
#[derive(Clone, Copy, Debug, PartialEq, Eq, Structural)]
pub enum AdmissionPolicy {
    /// Searches run at once; nothing is held.
    NoOp,
    /// Searches queue on one process-wide slot and hold it while they run.
    QueueBackpressure,
}

impl AdmissionPolicy {
    /// The policy for the configuration flag that enables the search queue.
    pub fn from_flag(queue_enabled: bool) -> (r: AdmissionPolicy)
        ensures
            queue_enabled ==> r == AdmissionPolicy::QueueBackpressure,
            !queue_enabled ==> r == AdmissionPolicy::NoOp,
    {
        if queue_enabled {
            AdmissionPolicy::QueueBackpressure
        } else {
            AdmissionPolicy::NoOp
        }
    }

    /// Whether a search keeps the slot it acquired until it finishes.
    pub fn holds_slot(&self) -> (r: bool)
        ensures
            r == (*self == AdmissionPolicy::QueueBackpressure),
    {
        match self {
            AdmissionPolicy::QueueBackpressure => true,
            AdmissionPolicy::NoOp => false,
        }
    }
}

} // verus!
