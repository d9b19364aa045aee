//! Lifecycle orchestration around a long-running node or subcommand: a
//! worker pool with thread gauges, a dispatcher that keeps blocking work off
//! the pool's workers, a race of the primary operation against an interrupt,
//! and a termination of the background tasks on every exit path.
pub mod error;
pub mod gauges;
pub mod latch;
pub mod pool;
pub mod race;
pub mod runner;
pub mod session;
pub mod subcommand;
pub mod task;
