use vstd::prelude::*;

verus! {

/// A termination request from the operating system.
#[derive(Debug, Clone, Copy, PartialEq, Eq)]
pub enum StopSignal {
    /// The user interrupted the process (`SIGINT`, Ctrl-C).
    Interrupt,
    /// The process was asked to terminate (`SIGTERM`).
    Terminate,
}

/// Which side of the shutdown race resolved first.
///
/// When the interrupt wins, the primary operation has been dropped without
/// being polled again, so the outcome carries nothing of it.
#[derive(Debug, PartialEq, Eq)]
pub enum RaceOutcome<E> {
    Interrupted(StopSignal),
    Finished(Result<(), E>),
}

pub open spec fn race_result_of<E>(o: RaceOutcome<E>) -> Result<(), E> {
    match o {
        RaceOutcome::Interrupted(_) => Ok(()),
        RaceOutcome::Finished(r) => r,
    }
}

/// The result of a shutdown race: success when the interrupt came first,
/// else the primary operation's own result.
pub fn race_result<E>(o: RaceOutcome<E>) -> (r: Result<(), E>)
    ensures
        r == race_result_of(o),
{
    match o {
        RaceOutcome::Interrupted(_) => Ok(()),
        RaceOutcome::Finished(r) => r,
    }
}

/// Whichever signal interrupts the primary operation, the race succeeds, and
/// nothing the primary operation would have produced reaches the result.
pub proof fn lemma_interrupt_first_is_success<E>(s: StopSignal)
    ensures
        race_result_of::<E>(RaceOutcome::Interrupted(s)) == Ok::<(), E>(()),
        race_result_of::<E>(RaceOutcome::Interrupted(s)) == race_result_of::<E>(
            RaceOutcome::Interrupted(StopSignal::Interrupt),
        ),
{
}

/// When the primary operation resolves first, its result is the race's.
pub proof fn lemma_primary_first_passes_through<E>(r: Result<(), E>)
    ensures
        race_result_of(RaceOutcome::Finished(r)) == r,
{
}

} // verus!
