use vstd::prelude::*;
use crate::error::RunError;
use crate::task::{route, route_of, Route, TaskType};

verus! {

/// tokio's worker pool, carried through opaquely.
#[verifier::external_type_specification]
#[verifier::external_body]
pub struct ExRuntime(tokio::runtime::Runtime);

/// A handle that schedules onto a tokio worker pool.
#[verifier::external_type_specification]
#[verifier::external_body]
pub struct ExHandle(tokio::runtime::Handle);

/// The error of a failed operating-system request.
#[verifier::external_type_specification]
#[verifier::external_body]
pub struct ExIoError(std::io::Error);

/// Relies on tokio's `runtime::Builder`: a multi-worker scheduler with its
/// timers, I/O reactor and blocking bridge enabled, which calls `on_start`
/// as each worker thread starts and `on_stop` as it stops.
#[verifier::external_body]
pub fn build_runtime<S, T>(on_start: S, on_stop: T) -> (r: Result<
    tokio::runtime::Runtime,
    std::io::Error,
>) where S: Fn() + Send + Sync + 'static, T: Fn() + Send + Sync + 'static {
    tokio::runtime::Builder::new()
        .threaded_scheduler()
        .on_thread_start(on_start)
        .on_thread_stop(on_stop)
        .enable_all()
        .build()
}

/// Relies on `Display` of `std::io::Error` for the text of an error.
#[verifier::external_body]
pub(crate) fn io_error_text(e: std::io::Error) -> (r: String) {
    e.to_string()
}

/// Relies on tokio's `Runtime::handle`: a handle that schedules onto the
/// same pool.
#[verifier::external_body]
pub(crate) fn pool_handle(rt: &tokio::runtime::Runtime) -> (r: tokio::runtime::Handle) {
    rt.handle().clone()
}

/// Relies on tokio's `Handle::spawn`: the operation runs on a worker of the
/// pool.
#[verifier::external_body]
fn spawn_on_worker<F>(handle: &tokio::runtime::Handle, operation: F) where
    F: std::future::Future<Output = ()> + Send + 'static,
 {
    handle.spawn(operation);
}

/// Relies on tokio's `Handle::spawn` and `task::spawn_blocking`, and on
/// `futures::future::lazy` for the intermediary: an
/// intermediary task on the pool hands the operation to a dedicated
/// blocking thread, where `futures::executor::block_on` runs it. The
/// blocking call must come from inside the pool to find it.
#[verifier::external_body]
fn spawn_through_bridge<F>(handle: &tokio::runtime::Handle, operation: F) where
    F: std::future::Future<Output = ()> + Send + 'static,
 {
    handle.spawn(futures::future::lazy(move |_| {
        tokio::task::spawn_blocking(move || futures::executor::block_on(operation))
    }));
}

/// Schedules deferred operations onto the worker pool it was made from.
pub struct TaskExecutor {
    handle: tokio::runtime::Handle,
}

impl TaskExecutor {
    /// A dispatcher for the pool of `rt`, which must be a multi-worker pool
    /// such as `new_pool` builds (a pool without a scheduler cannot spawn).
    pub(crate) fn new(rt: &tokio::runtime::Runtime) -> (r: TaskExecutor) {
        TaskExecutor { handle: pool_handle(rt) }
    }

    /// Schedules `operation` according to `task_type`; returns the route it
    /// took. Blocking work never lands on a cooperative worker.
    pub fn dispatch<F>(&self, operation: F, task_type: TaskType) -> (r: Route) where
        F: std::future::Future<Output = ()> + Send + 'static,

        ensures
            r == route_of(task_type),
    {
        let r = route(task_type);
        match r {
            Route::Worker => spawn_on_worker(&self.handle, operation),
            Route::BlockingBridge => spawn_through_bridge(&self.handle, operation),
        }
        r
    }
}

/// Builds the worker pool; a failure of the operating system to provide it
/// is reported as `RunError::RuntimeInit`.
pub fn new_pool<S, T>(on_start: S, on_stop: T) -> (r: Result<tokio::runtime::Runtime, RunError>) where
    S: Fn() + Send + Sync + 'static,
    T: Fn() + Send + Sync + 'static,

    ensures
        r is Err ==> r->Err_0 is RuntimeInit,
{
    match build_runtime(on_start, on_stop) {
        Ok(rt) => Ok(rt),
        Err(e) => Err(RunError::RuntimeInit(io_error_text(e))),
    }
}

} // verus!
