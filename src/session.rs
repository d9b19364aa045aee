use vstd::prelude::*;
use crate::error::RunError;
use crate::race::{race_result, race_result_of, RaceOutcome};
use crate::subcommand::{is_synchronous_spec, Subcommand};

verus! {

/// The four ways in which a runner can be invoked.
#[derive(Debug, Clone, Copy, PartialEq, Eq)]
pub enum Mode {
    /// Run a subcommand against a builder of resources.
    Subcommand(Subcommand),
    /// Run a node until it exits or is interrupted.
    Node,
    /// Run a synchronous operation on the configuration.
    Sync,
    /// Run an asynchronous operation with its task manager.
    Async,
}

/// Where an invocation stands.
#[derive(Debug, PartialEq, Eq)]
pub enum Phase {
    /// Not invoked yet.
    Ready,
    /// A synchronous operation runs.
    Synchronous,
    /// The builder or initialiser runs.
    Building,
    /// The primary operation races the interrupt watcher.
    Racing,
    /// The race resolved with the result held here; the task manager is
    /// being terminated.
    Terminating(Result<(), RunError>),
    /// The invocation returned; the runner is consumed.
    Consumed,
}

/// What the outside world reports to the invocation.
#[derive(Debug, PartialEq, Eq)]
pub enum Event {
    /// The caller picked an invocation mode.
    Invoke(Mode),
    /// The synchronous operation returned.
    SyncReturned(Result<(), RunError>),
    /// The builder or initialiser returned; `Ok` means that it handed over a
    /// task manager.
    Built(Result<(), RunError>),
    /// The shutdown race resolved.
    RaceResolved(RaceOutcome<RunError>),
    /// The task manager's termination was requested.
    Terminated,
}

/// What the invocation asks the outside world to do next.
#[derive(Debug, PartialEq, Eq)]
pub enum Action {
    RunSync,
    Build,
    Race,
    Terminate,
    Return(Result<(), RunError>),
    /// The event does not fit the phase and is ignored.
    Refuse,
}

pub open spec fn is_sync_mode(m: Mode) -> bool {
    match m {
        Mode::Sync => true,
        Mode::Subcommand(s) => is_synchronous_spec(s),
        _ => false,
    }
}

/// One transition of an invocation.
pub open spec fn next(p: Phase, e: Event) -> (Phase, Action) {
    match (p, e) {
        (Phase::Ready, Event::Invoke(m)) => if is_sync_mode(m) {
            (Phase::Synchronous, Action::RunSync)
        } else {
            (Phase::Building, Action::Build)
        },
        (Phase::Synchronous, Event::SyncReturned(r)) => (Phase::Consumed, Action::Return(r)),
        (Phase::Building, Event::Built(r)) => match r {
            Ok(()) => (Phase::Racing, Action::Race),
            Err(err) => (Phase::Consumed, Action::Return(Err(err))),
        },
        (Phase::Racing, Event::RaceResolved(o)) => (
            Phase::Terminating(race_result_of(o)),
            Action::Terminate,
        ),
        (Phase::Terminating(r), Event::Terminated) => (Phase::Consumed, Action::Return(r)),
        (p, _) => (p, Action::Refuse),
    }
}

/// The phase reached and the actions asked for, event by event.
pub open spec fn run(p: Phase, events: Seq<Event>) -> (Phase, Seq<Action>)
    decreases events.len(),
{
    if events.len() == 0 {
        (p, Seq::empty())
    } else {
        let (q, acts) = run(p, events.drop_last());
        let (q2, a) = next(q, events.last());
        (q2, acts.push(a))
    }
}

/// How many of `acts` satisfy `f`.
pub open spec fn count(acts: Seq<Action>, f: spec_fn(Action) -> bool) -> nat
    decreases acts.len(),
{
    if acts.len() == 0 {
        0
    } else {
        count(acts.drop_last(), f) + if f(acts.last()) {
            1nat
        } else {
            0nat
        }
    }
}

pub open spec fn is_race(a: Action) -> bool {
    a is Race
}

pub open spec fn is_terminate(a: Action) -> bool {
    a is Terminate
}

pub open spec fn is_build(a: Action) -> bool {
    a is Build
}

/// The counts of races and terminations that the actions up to a phase hold.
pub open spec fn counts_fit(p: Phase, acts: Seq<Action>) -> bool {
    let races = count(acts, |a: Action| is_race(a));
    let terms = count(acts, |a: Action| is_terminate(a));
    match p {
        Phase::Ready | Phase::Synchronous | Phase::Building => races == 0 && terms == 0,
        Phase::Racing => races == 1 && terms == 0,
        Phase::Terminating(_) => races == 1 && terms == 1,
        Phase::Consumed => races <= 1 && terms == races,
    }
}

proof fn lemma_count_push(acts: Seq<Action>, a: Action, f: spec_fn(Action) -> bool)
    ensures
        count(acts.push(a), f) == count(acts, f) + if f(a) {
            1nat
        } else {
            0nat
        },
{
    assert(acts.push(a).drop_last() =~= acts);
}

proof fn lemma_run_counts_fit(events: Seq<Event>)
    ensures
        counts_fit(run(Phase::Ready, events).0, run(Phase::Ready, events).1),
    decreases events.len(),
{
    if events.len() > 0 {
        lemma_run_counts_fit(events.drop_last());
        let (q, acts) = run(Phase::Ready, events.drop_last());
        let (q2, a) = next(q, events.last());
        lemma_count_push(acts, a, |a: Action| is_race(a));
        lemma_count_push(acts, a, |a: Action| is_terminate(a));
    }
}

/// Whatever the outside world reports, an invocation never asks for the
/// task manager's termination before the race, and one that raced and
/// returned asked for termination exactly once.
pub proof fn lemma_terminate_once_after_race(events: Seq<Event>)
    ensures
        count(run(Phase::Ready, events).1, |a: Action| is_terminate(a)) <= count(
            run(Phase::Ready, events).1,
            |a: Action| is_race(a),
        ),
        count(run(Phase::Ready, events).1, |a: Action| is_race(a)) <= 1,
        run(Phase::Ready, events).0 == Phase::Consumed && count(
            run(Phase::Ready, events).1,
            |a: Action| is_race(a),
        ) == 1 ==> count(run(Phase::Ready, events).1, |a: Action| is_terminate(a)) == 1,
{
    lemma_run_counts_fit(events);
}

/// On every exit path of the race (success, failure or interrupt) the next
/// action is termination, and the invocation then returns the race's result.
pub proof fn lemma_every_race_outcome_terminates(o: RaceOutcome<RunError>)
    ensures
        next(Phase::Racing, Event::RaceResolved(o)) == (
            Phase::Terminating(race_result_of(o)),
            Action::Terminate,
        ),
        next(Phase::Terminating(race_result_of(o)), Event::Terminated) == (
            Phase::Consumed,
            Action::Return(race_result_of(o)),
        ),
{
}

/// A consumed invocation cannot be invoked again: every event is refused.
pub proof fn lemma_consumed_is_final(e: Event)
    ensures
        next(Phase::Consumed, e) == (Phase::Consumed, Action::Refuse),
{
}

/// When the builder fails, the invocation returns its error without a race
/// and without a task manager to terminate.
pub proof fn lemma_build_error_returns_early(m: Mode, err: RunError)
    requires
        !is_sync_mode(m),
    ensures
        run(Phase::Ready, seq![Event::Invoke(m), Event::Built(Err(err))]) == (
            Phase::Consumed,
            seq![Action::Build, Action::Return(Err(err))],
        ),
{
    reveal_with_fuel(run, 3);
    let evs = seq![Event::Invoke(m), Event::Built(Err(err))];
    assert(evs.drop_last() =~= seq![Event::Invoke(m)]);
    assert(evs.drop_last().drop_last() =~= Seq::<Event>::empty());
    assert(Seq::<Action>::empty().push(Action::Build).push(Action::Return(Err(err))) =~= seq![
        Action::Build,
        Action::Return(Err(err)),
    ]);
}

/// A synchronous mode (among them the synchronous subcommands) never builds
/// and never races, whatever follows: the worker pool stays untouched.
pub proof fn lemma_sync_mode_never_builds(m: Mode, events: Seq<Event>)
    requires
        is_sync_mode(m),
    ensures
        next(Phase::Ready, Event::Invoke(m)) == (Phase::Synchronous, Action::RunSync),
        count(run(Phase::Synchronous, events).1, |a: Action| is_build(a)) == 0,
        count(run(Phase::Synchronous, events).1, |a: Action| is_race(a)) == 0,
{
    lemma_sync_stays_sync(events);
}

proof fn lemma_sync_stays_sync(events: Seq<Event>)
    ensures
        run(Phase::Synchronous, events).0 is Synchronous || run(Phase::Synchronous, events).0 is Consumed,
        count(run(Phase::Synchronous, events).1, |a: Action| is_build(a)) == 0,
        count(run(Phase::Synchronous, events).1, |a: Action| is_race(a)) == 0,
    decreases events.len(),
{
    if events.len() > 0 {
        lemma_sync_stays_sync(events.drop_last());
        let (q, acts) = run(Phase::Synchronous, events.drop_last());
        let (q2, a) = next(q, events.last());
        lemma_count_push(acts, a, |a: Action| is_build(a));
        lemma_count_push(acts, a, |a: Action| is_race(a));
    }
}

/// The phase of an invocation together with the decisions it made.
pub struct Invocation {
    pub phase: Phase,
}

impl Invocation {
    /// An invocation that has not started.
    pub fn new() -> (r: Invocation)
        ensures
            r.phase == Phase::Ready,
    {
        Invocation { phase: Phase::Ready }
    }

    /// Feeds one event to the invocation and returns the action to perform.
    pub fn step(&mut self, e: Event) -> (a: Action)
        ensures
            (final(self).phase, a) == next(old(self).phase, e),
    {
        let mut p = Phase::Consumed;
        core::mem::swap(&mut self.phase, &mut p);
        let (q, a) = match (p, e) {
            (Phase::Ready, Event::Invoke(m)) => {
                let sync = match m {
                    Mode::Sync => true,
                    Mode::Subcommand(s) => s.is_synchronous(),
                    _ => false,
                };
                if sync {
                    (Phase::Synchronous, Action::RunSync)
                } else {
                    (Phase::Building, Action::Build)
                }
            },
            (Phase::Synchronous, Event::SyncReturned(r)) => (Phase::Consumed, Action::Return(r)),
            (Phase::Building, Event::Built(r)) => match r {
                Ok(()) => (Phase::Racing, Action::Race),
                Err(err) => (Phase::Consumed, Action::Return(Err(err))),
            },
            (Phase::Racing, Event::RaceResolved(o)) => (
                Phase::Terminating(race_result(o)),
                Action::Terminate,
            ),
            (Phase::Terminating(r), Event::Terminated) => (Phase::Consumed, Action::Return(r)),
            (p, _) => (p, Action::Refuse),
        };
        self.phase = q;
        a
    }
}

} // verus!
