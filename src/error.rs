use vstd::prelude::*;

verus! {

/// The ways in which an invocation of the runner can fail.
#[derive(Debug, Clone, PartialEq, Eq)]
pub enum RunError {
    /// The worker pool could not be built.
    RuntimeInit(String),
    /// An interrupt listener could not be installed.
    SignalRegistration(String),
    /// The builder or initialiser could not assemble its resources.
    Service(String),
    /// The supervised operation itself failed.
    Primary(String),
}

} // verus!
