use vstd::prelude::*;

verus! {

/// How a deferred operation must be scheduled.
#[derive(Debug, Clone, Copy, PartialEq, Eq)]
pub enum TaskType {
    /// Latency-sensitive work that runs on the pool's cooperative workers.
    Async,
    /// Work that may block, and must stay off the cooperative workers.
    Blocking,
}

/// Where the dispatcher sends an operation.
#[derive(Debug, Clone, Copy, PartialEq, Eq)]
pub enum Route {
    /// Straight onto a cooperative worker of the pool.
    Worker,
    /// Through an intermediary task on the pool, which hands the operation
    /// to a dedicated blocking thread.
    BlockingBridge,
}

pub open spec fn route_of(t: TaskType) -> Route {
    match t {
        TaskType::Async => Route::Worker,
        TaskType::Blocking => Route::BlockingBridge,
    }
}

/// The route that the dispatcher takes for an operation of type `t`.
pub fn route(t: TaskType) -> (r: Route)
    ensures
        r == route_of(t),
{
    match t {
        TaskType::Async => Route::Worker,
        TaskType::Blocking => Route::BlockingBridge,
    }
}

/// A blocking operation is never placed on a cooperative worker, so it
/// cannot hold up an async task that shares the pool.
pub proof fn lemma_blocking_stays_off_workers(t: TaskType)
    ensures
        t == TaskType::Blocking ==> route_of(t) != Route::Worker,
        t == TaskType::Async ==> route_of(t) == Route::Worker,
{
}

} // verus!
