use vstd::prelude::*;

verus! {

/// Observability counters of a worker pool: how many of its threads are
/// alive now, and how many were ever started.
#[derive(Debug, Clone, Copy, PartialEq, Eq)]
pub struct ThreadGauges {
    pub alive: u64,
    pub total: u64,
}

/// The gauges `(alive, total)` after `n` calls of `thread_started`.
pub open spec fn after_starts(gauges: (int, int), n: nat) -> (int, int) {
    (gauges.0 + n, gauges.1 + n)
}

/// The gauges `(alive, total)` after `n` calls of `thread_stopped`.
pub open spec fn after_stops(gauges: (int, int), n: nat) -> (int, int) {
    (gauges.0 - n, gauges.1)
}

/// The gauges after a run of pools: pool `i` starts and later stops
/// `cycles[i]` threads.
pub open spec fn after_cycles(alive: int, total: int, cycles: Seq<nat>) -> (int, int)
    decreases cycles.len(),
{
    if cycles.len() == 0 {
        (alive, total)
    } else {
        let built = after_stops(after_starts((alive, total), cycles[0]), cycles[0]);
        after_cycles(built.0, built.1, cycles.drop_first())
    }
}

impl ThreadGauges {
    /// No more threads are alive than were ever started.
    pub open spec fn wf(&self) -> bool {
        self.alive <= self.total
    }

    /// Gauges that start at zero.
    pub fn new() -> (r: ThreadGauges)
        ensures
            r.alive == 0,
            r.total == 0,
            r.wf(),
    {
        ThreadGauges { alive: 0, total: 0 }
    }

    /// Records that a worker thread of the pool has started.
    pub fn thread_started(&mut self)
        requires
            old(self).alive < u64::MAX,
            old(self).total < u64::MAX,
        ensures
            final(self).alive == old(self).alive + 1,
            final(self).total == old(self).total + 1,
            old(self).wf() ==> final(self).wf(),
            (final(self).alive as int, final(self).total as int) == after_starts(
                (old(self).alive as int, old(self).total as int),
                1,
            ),
    {
        self.alive = self.alive + 1;
        self.total = self.total + 1;
    }

    /// Records that a worker thread of the pool has stopped.
    pub fn thread_stopped(&mut self)
        requires
            old(self).alive > 0,
        ensures
            final(self).alive == old(self).alive - 1,
            final(self).total == old(self).total,
            old(self).wf() ==> final(self).wf(),
            (final(self).alive as int, final(self).total as int) == after_stops(
                (old(self).alive as int, old(self).total as int),
                1,
            ),
    {
        self.alive = self.alive - 1;
    }

    /// Whether one more thread start can be recorded.
    pub fn can_start(&self) -> (r: bool)
        ensures
            r == (self.alive < u64::MAX && self.total < u64::MAX),
    {
        self.alive < u64::MAX && self.total < u64::MAX
    }
}

/// A pool whose `n` threads all start and then all stop leaves the alive
/// gauge where it found it, and adds `n` to the started gauge.
pub proof fn lemma_pool_cycle_restores_alive(alive: int, total: int, n: nat)
    ensures
        after_cycles(alive, total, seq![n]) == (alive, total + n),
{
    reveal_with_fuel(after_cycles, 2);
    assert(seq![n].drop_first() =~= Seq::<nat>::empty());
}

/// For any number of pool build and teardown cycles, the alive gauge ends at
/// its value before the first pool, and the started gauge has grown by the
/// sum of the threads of all pools.
pub proof fn lemma_cycles_restore_alive(alive: int, total: int, cycles: Seq<nat>)
    ensures
        after_cycles(alive, total, cycles).0 == alive,
        after_cycles(alive, total, cycles).1 >= total,
    decreases cycles.len(),
{
    if cycles.len() > 0 {
        lemma_cycles_restore_alive(alive, total + cycles[0], cycles.drop_first());
    }
}

} // verus!
