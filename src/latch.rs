use vstd::prelude::*;

verus! {

/// Remembers whether termination of the background tasks was requested, so
/// that the request reaches the task manager at most once.
#[derive(Debug, Clone, Copy, PartialEq, Eq)]
pub struct TerminationLatch {
    pub requested: bool,
}

/// `(requested, forwarded)` after one request on a latch in state
/// `requested`: the request is forwarded only if none came before.
pub open spec fn request_step(requested: bool) -> (bool, bool) {
    (true, !requested)
}

/// How many of `n` requests on a latch in state `requested` are forwarded.
pub open spec fn forwarded_after(requested: bool, n: nat) -> nat
    decreases n,
{
    if n == 0 {
        0
    } else {
        let (now, fwd) = request_step(requested);
        (if fwd { 1nat } else { 0nat }) + forwarded_after(now, (n - 1) as nat)
    }
}

impl TerminationLatch {
    /// A latch on which nothing was requested yet.
    pub fn new() -> (r: TerminationLatch)
        ensures
            !r.requested,
    {
        TerminationLatch { requested: false }
    }

    /// Requests termination; returns whether the request must be forwarded,
    /// that is whether it is the first one.
    pub fn request(&mut self) -> (forward: bool)
        ensures
            (final(self).requested, forward) == request_step(old(self).requested),
    {
        let forward = !self.requested;
        self.requested = true;
        forward
    }
}

/// A second termination request is a no-op: only the first is forwarded.
pub proof fn lemma_second_request_is_noop(requested: bool)
    ensures
        !request_step(request_step(requested).0).1,
        request_step(request_step(requested).0).0 == request_step(requested).0,
{
}

/// However many times termination is requested on a fresh latch (at least
/// once), exactly one request is forwarded.
pub proof fn lemma_forwarded_exactly_once(n: nat)
    requires
        n >= 1,
    ensures
        forwarded_after(false, n) == 1,
{
    lemma_none_forwarded_after_first((n - 1) as nat);
}

proof fn lemma_none_forwarded_after_first(n: nat)
    ensures
        forwarded_after(true, n) == 0,
    decreases n,
{
    if n > 0 {
        lemma_none_forwarded_after_first((n - 1) as nat);
    }
}

} // verus!
