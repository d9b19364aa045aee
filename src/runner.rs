use vstd::prelude::*;
use crate::error::RunError;
use crate::latch::{request_step, TerminationLatch};
use crate::pool::{io_error_text, new_pool, TaskExecutor};
use crate::subcommand::{inputs_of, is_synchronous_spec, Inputs, Subcommand};
use crate::session::{Action, Event, Invocation, Mode, Phase};
use crate::race::{race_result_of, RaceOutcome, StopSignal};
use futures::future::{select, Either, FutureExt};

verus! {

/// tokio's listener for one kind of Unix signal, carried through opaquely.
#[verifier::external_type_specification]
#[verifier::external_body]
pub struct ExSignalStream(tokio::signal::unix::Signal);

/// Relies on tokio's `signal::unix::signal`, called inside the pool's
/// context (`Runtime::enter`) so that the listener finds its reactor.
#[verifier::external_body]
fn listen(rt: &tokio::runtime::Runtime, kind: StopSignal) -> (r: Result<
    tokio::signal::unix::Signal,
    std::io::Error,
>) {
    let kind = match kind {
        StopSignal::Interrupt => tokio::signal::unix::SignalKind::interrupt(),
        StopSignal::Terminate => tokio::signal::unix::SignalKind::terminate(),
    };
    rt.enter(|| tokio::signal::unix::signal(kind))
}

/// Relies on `futures::future::select` and tokio's `Runtime::block_on`:
/// runs the primary operation against both listeners on the pool and reports
/// whichever resolves first; the losers are dropped without another poll.
#[verifier::external_body]
fn race_on_pool<F>(
    rt: &mut tokio::runtime::Runtime,
    interrupt: &mut tokio::signal::unix::Signal,
    terminate: &mut tokio::signal::unix::Signal,
    primary: F,
) -> (r: RaceOutcome<RunError>) where F: std::future::Future<Output = Result<(), RunError>> {
    let watcher = select(Box::pin(interrupt.recv()), Box::pin(terminate.recv()));
    match rt.block_on(select(watcher, Box::pin(primary.fuse()))) {
        Either::Left((Either::Left(_), _)) => RaceOutcome::Interrupted(StopSignal::Interrupt),
        Either::Left((Either::Right(_), _)) => RaceOutcome::Interrupted(StopSignal::Terminate),
        Either::Right((r, _)) => RaceOutcome::Finished(r),
    }
}

/// The background work of one invocation, as the runner sees it.
pub trait TaskSupervisor {
    /// Resolves as soon as any owned task finishes or fails.
    type Completion: std::future::Future<Output = Result<(), RunError>>;

    /// The aggregate completion signal of the owned tasks.
    fn completion(&mut self) -> Self::Completion;

    /// Requests cancellation of every owned task.
    fn terminate(&mut self);
}

/// A task manager whose termination is requested at most once.
pub struct Supervised<TM> {
    pub tasks: TM,
    pub latch: TerminationLatch,
    /// How many requests reached the task manager.
    pub forwards: Ghost<nat>,
}

impl<TM: TaskSupervisor> Supervised<TM> {
    /// A request reached the task manager exactly when the latch is set.
    pub open spec fn wf(&self) -> bool {
        self.forwards@ == if self.latch.requested {
            1nat
        } else {
            0nat
        }
    }

    pub fn new(tasks: TM) -> (r: Supervised<TM>)
        ensures
            !r.latch.requested,
            r.forwards@ == 0,
            r.wf(),
            r.tasks == tasks,
    {
        Supervised { tasks, latch: TerminationLatch::new(), forwards: Ghost(0) }
    }

    /// Requests termination; only the first request reaches the task
    /// manager, and the returned flag says whether this one did. A request
    /// that is not forwarded leaves the task manager untouched.
    pub fn terminate(&mut self) -> (forwarded: bool)
        ensures
            (final(self).latch.requested, forwarded) == request_step(old(self).latch.requested),
            forwarded ==> final(self).forwards@ == old(self).forwards@ + 1,
            !forwarded ==> final(self).tasks == old(self).tasks && final(self).forwards@
                == old(self).forwards@,
            old(self).wf() ==> final(self).wf(),
    {
        let forwarded = self.latch.request();
        if forwarded {
            self.tasks.terminate();
            self.forwards = Ghost(self.forwards@ + 1);
        }
        forwarded
    }
}

/// Ends an invocation whose race has resolved: requests termination of the
/// background tasks, whatever the outcome, and returns the race's result.
pub fn conclude<TM: TaskSupervisor>(
    outcome: RaceOutcome<RunError>,
    supervised: &mut Supervised<TM>,
    inv: &mut Invocation,
) -> (r: Result<(), RunError>)
    requires
        old(inv).phase == Phase::Racing,
    ensures
        r == race_result_of(outcome),
        final(supervised).latch.requested,
        old(supervised).wf() ==> final(supervised).wf() && final(supervised).forwards@ == 1,
        old(supervised).latch.requested ==> final(supervised).tasks == old(supervised).tasks,
        final(inv).phase == Phase::Consumed,
{
    let ghost expected = race_result_of(outcome);
    let terminate = inv.step(Event::RaceResolved(outcome));
    assert(terminate == Action::Terminate);
    supervised.terminate();
    let done = inv.step(Event::Terminated);
    assert(done == Action::Return(expected));
    returned(done)
}

/// The result carried by a `Return` action.
fn returned(a: Action) -> (r: Result<(), RunError>)
    requires
        a is Return,
    ensures
        a == Action::Return(r),
{
    match a {
        Action::Return(r) => r,
        _ => Ok(()),
    }
}

/// Races `primary` against the two listeners on the pool. A listener that
/// could not be installed ends the race before `primary` is polled, with
/// `RunError::SignalRegistration`.
fn race_with_listeners<FUT>(
    rt: &mut tokio::runtime::Runtime,
    interrupt: Result<tokio::signal::unix::Signal, std::io::Error>,
    terminate: Result<tokio::signal::unix::Signal, std::io::Error>,
    primary: FUT,
) -> (o: RaceOutcome<RunError>) where FUT: std::future::Future<Output = Result<(), RunError>>
    ensures
        interrupt is Err || terminate is Err ==> o is Finished && o->Finished_0 is Err
            && o->Finished_0->Err_0 is SignalRegistration,
{
    match (interrupt, terminate) {
        (Ok(mut interrupt), Ok(mut terminate)) => race_on_pool(
            rt,
            &mut interrupt,
            &mut terminate,
            primary,
        ),
        (Err(e), _) => RaceOutcome::Finished(Err(RunError::SignalRegistration(io_error_text(e)))),
        (_, Err(e)) => RaceOutcome::Finished(Err(RunError::SignalRegistration(io_error_text(e)))),
    }
}

/// Runs `primary` against the interrupt watcher on the pool, then requests
/// termination of the supervised tasks whatever the outcome, then shuts the
/// pool down. Returns the result together with the race's outcome, of which
/// the result is `race_result_of`.
fn run_until_exit<FUT, TM: TaskSupervisor>(
    mut rt: tokio::runtime::Runtime,
    primary: FUT,
    supervised: &mut Supervised<TM>,
    inv: &mut Invocation,
) -> (res: (Result<(), RunError>, Ghost<RaceOutcome<RunError>>)) where
    FUT: std::future::Future<Output = Result<(), RunError>>,

    requires
        old(inv).phase == Phase::Racing,
    ensures
        res.0 == race_result_of(res.1@),
        final(supervised).latch.requested,
        old(supervised).wf() ==> final(supervised).wf() && final(supervised).forwards@ == 1,
        old(supervised).latch.requested ==> final(supervised).tasks == old(supervised).tasks,
        final(inv).phase == Phase::Consumed,
{
    let interrupt = listen(&rt, StopSignal::Interrupt);
    let terminate = listen(&rt, StopSignal::Terminate);
    let outcome = race_with_listeners(&mut rt, interrupt, terminate, primary);
    let ghost seen = outcome;
    let r = conclude(outcome, supervised, inv);
    drop_pool(rt);
    (r, Ghost(seen))
}

/// Relies on `Drop` of tokio's `Runtime`: the pool shuts down and joins its
/// worker threads.
#[verifier::external_body]
fn drop_pool(rt: tokio::runtime::Runtime) {
    drop(rt)
}

/// The resources handed to an asynchronous subcommand: each is present
/// exactly when the subcommand consumes it. `config` stands for the parts of
/// the configuration (chain specification, network, database) that it reads.
pub struct Resources<CL, BA, IQ, Cfg> {
    pub client: Option<CL>,
    pub backend: Option<BA>,
    pub import_queue: Option<IQ>,
    pub config: Option<Cfg>,
}

impl<CL, BA, IQ, Cfg> Resources<CL, BA, IQ, Cfg> {
    /// Whether exactly the resources in `needs` are present.
    pub open spec fn provides(&self, needs: Inputs) -> bool {
        &&& self.client is Some <==> needs.client
        &&& self.backend is Some <==> needs.backend
        &&& self.import_queue is Some <==> needs.import_queue
        &&& self.config is Some <==> (needs.chain_spec || needs.network || needs.database)
    }

    /// Keeps of the builder's outputs and the configuration those that
    /// `needs` names.
    pub fn select(needs: Inputs, client: CL, backend: BA, import_queue: IQ, config: Option<Cfg>) -> (r:
        Resources<CL, BA, IQ, Cfg>)
        requires
            config is Some <==> (needs.chain_spec || needs.network || needs.database),
        ensures
            r.provides(needs),
            needs.client ==> r.client == Some(client),
            needs.backend ==> r.backend == Some(backend),
            needs.import_queue ==> r.import_queue == Some(import_queue),
            r.config == config,
    {
        Resources {
            client: if needs.client {
                Some(client)
            } else {
                None
            },
            backend: if needs.backend {
                Some(backend)
            } else {
                None
            },
            import_queue: if needs.import_queue {
                Some(import_queue)
            } else {
                None
            },
            config,
        }
    }
}

/// Owns the worker pool and the configuration of one invocation. Every
/// invocation mode consumes the runner, so it runs at most once.
pub struct Runner<Cfg> {
    config: Cfg,
    runtime: tokio::runtime::Runtime,
}

impl<Cfg> Runner<Cfg> {
    /// The configuration that the next invocation will consume.
    pub closed spec fn configuration(&self) -> Cfg {
        self.config
    }

    /// Builds the worker pool, whose thread starts and stops call
    /// `on_thread_start` and `on_thread_stop`, then the configuration from a
    /// dispatcher onto that pool.
    pub fn new<S, T, F>(on_thread_start: S, on_thread_stop: T, create_configuration: F) -> (r:
        Result<Runner<Cfg>, RunError>) where
        S: Fn() + Send + Sync + 'static,
        T: Fn() + Send + Sync + 'static,
        F: FnOnce(TaskExecutor) -> Result<Cfg, RunError>,

        requires
            forall|x: TaskExecutor| create_configuration.requires((x,)),
        ensures
            r is Ok ==> exists|x: TaskExecutor| #[trigger]
                create_configuration.ensures((x,), Ok::<Cfg, RunError>(r->Ok_0.configuration())),
            r is Err && !(r->Err_0 is RuntimeInit) ==> exists|x: TaskExecutor| #[trigger]
                create_configuration.ensures((x,), Err::<Cfg, RunError>(r->Err_0)),
    {
        let runtime = match new_pool(on_thread_start, on_thread_stop) {
            Ok(rt) => rt,
            Err(e) => {
                return Err(e);
            },
        };
        let executor = TaskExecutor::new(&runtime);
        let ghost handed = executor;
        let made = create_configuration(executor);
        assert(create_configuration.ensures((handed,), made));
        match made {
            Ok(config) => {
                let run = Runner { config, runtime };
                assert(create_configuration.ensures(
                    (handed,),
                    Ok::<Cfg, RunError>(run.configuration()),
                ));
                let r: Result<Runner<Cfg>, RunError> = Ok(run);
                assert(r->Ok_0 == run);
                r
            },
            Err(e) => Err(e),
        }
    }

    /// The configuration.
    pub fn config(&self) -> (r: &Cfg)
        ensures
            *r == self.configuration(),
    {
        &self.config
    }

    /// The configuration, to be adjusted before an invocation consumes it.
    pub fn config_mut(&mut self) -> (r: &mut Cfg)
        ensures
            *r == old(self).configuration(),
            final(self).configuration() == *final(r),
    {
        &mut self.config
    }

    /// Runs `subcommand`. A synchronous one is handed to `run_sync` with the
    /// configuration; neither the builder nor the pool is used. Any other
    /// calls `builder` once on the configuration, passes to `run_async` the
    /// resources that the subcommand consumes, races the resulting operation
    /// against the interrupt watcher and terminates the task manager. An
    /// error of the builder is returned before the pool is engaged.
    pub fn run_subcommand<CL, BA, IQ, TM, FUT, BU, SY, AS>(
        self,
        subcommand: &Subcommand,
        builder: BU,
        run_sync: SY,
        run_async: AS,
    ) -> (r: Result<(), RunError>) where
        Cfg: Clone,
        TM: TaskSupervisor,
        FUT: std::future::Future<Output = Result<(), RunError>>,
        BU: FnOnce(Cfg) -> Result<(CL, BA, IQ, TM), RunError>,
        SY: FnOnce(Subcommand, Cfg) -> Result<(), RunError>,
        AS: FnOnce(Subcommand, Resources<CL, BA, IQ, Cfg>) -> FUT,

        requires
            is_synchronous_spec(*subcommand) ==> run_sync.requires(
                (*subcommand, self.configuration()),
            ),
            !is_synchronous_spec(*subcommand) ==> builder.requires((self.configuration(),)),
            forall|res: Resources<CL, BA, IQ, Cfg>|
                #![trigger run_async.requires((*subcommand, res))]
                res.provides(inputs_of(*subcommand)) ==> run_async.requires((*subcommand, res)),
        ensures
            is_synchronous_spec(*subcommand) ==> run_sync.ensures(
                (*subcommand, self.configuration()),
                r,
            ),
            !is_synchronous_spec(*subcommand) ==> exists|out: Result<(CL, BA, IQ, TM), RunError>|
                #[trigger] builder.ensures((self.configuration(),), out) && (out is Err ==> r
                    == Err::<(), RunError>(out->Err_0)),
    {
        let kind = *subcommand;
        let mut inv = Invocation::new();
        let first = inv.step(Event::Invoke(Mode::Subcommand(kind)));
        if let Action::RunSync = first {
            let done = inv.step(Event::SyncReturned(run_sync(kind, self.config)));
            return returned(done);
        }
        let needs = kind.inputs();
        let kept = if needs.chain_spec || needs.network || needs.database {
            Some(self.config.clone())
        } else {
            None
        };
        let Runner { config, runtime } = self;
        let ghost cfg = config;
        let built = builder(config);
        assert(builder.ensures((cfg,), built));
        match built {
            Ok((client, backend, import_queue, tasks)) => {
                let race = inv.step(Event::Built(Ok(())));
                assert(race == Action::Race);
                let res = Resources::select(needs, client, backend, import_queue, kept);
                let primary = run_async(kind, res);
                let mut supervised = Supervised::new(tasks);
                run_until_exit(runtime, primary, &mut supervised, &mut inv).0
            },
            Err(e) => returned(inv.step(Event::Built(Err(e)))),
        }
    }

    /// Runs a synchronous operation on the configuration; the pool is not
    /// used.
    pub fn sync_run<F>(self, runner: F) -> (r: Result<(), RunError>) where
        F: FnOnce(Cfg) -> Result<(), RunError>,

        requires
            runner.requires((self.configuration(),)),
        ensures
            runner.ensures((self.configuration(),), r),
    {
        let mut inv = Invocation::new();
        let run = inv.step(Event::Invoke(Mode::Sync));
        assert(run == Action::RunSync);
        let done = inv.step(Event::SyncReturned(runner(self.config)));
        returned(done)
    }

    /// Runs the operation that `runner` makes from the configuration against
    /// the interrupt watcher, then terminates its task manager. An error of
    /// `runner` is returned before the pool is engaged.
    pub fn async_run<FUT, TM, F>(self, runner: F) -> (r: Result<(), RunError>) where
        FUT: std::future::Future<Output = Result<(), RunError>>,
        TM: TaskSupervisor,
        F: FnOnce(Cfg) -> Result<(FUT, TM), RunError>,

        requires
            runner.requires((self.configuration(),)),
        ensures
            exists|out: Result<(FUT, TM), RunError>|
                runner.ensures((self.configuration(),), out) && (out is Err ==> r == Err::<
                    (),
                    RunError,
                >(out->Err_0)),
    {
        let Runner { config, runtime } = self;
        let mut inv = Invocation::new();
        let build = inv.step(Event::Invoke(Mode::Async));
        assert(build == Action::Build);
        match runner(config) {
            Ok((primary, tasks)) => {
                let race = inv.step(Event::Built(Ok(())));
                assert(race == Action::Race);
                let mut supervised = Supervised::new(tasks);
                run_until_exit(runtime, primary, &mut supervised, &mut inv).0
            },
            Err(e) => returned(inv.step(Event::Built(Err(e)))),
        }
    }

    /// Runs a node: `initialise` starts its tasks from the configuration,
    /// whose aggregate completion then races the interrupt watcher; the task
    /// manager is terminated afterwards.
    pub fn run_node_until_exit<TM, F>(self, initialise: F) -> (r: Result<(), RunError>) where
        TM: TaskSupervisor,
        F: FnOnce(Cfg) -> Result<TM, RunError>,

        requires
            initialise.requires((self.configuration(),)),
        ensures
            exists|out: Result<TM, RunError>|
                initialise.ensures((self.configuration(),), out) && (out is Err ==> r == Err::<
                    (),
                    RunError,
                >(out->Err_0)),
    {
        let Runner { config, runtime } = self;
        let mut inv = Invocation::new();
        let build = inv.step(Event::Invoke(Mode::Node));
        assert(build == Action::Build);
        match initialise(config) {
            Ok(mut tasks) => {
                let race = inv.step(Event::Built(Ok(())));
                assert(race == Action::Race);
                let completion = tasks.completion();
                let mut supervised = Supervised::new(tasks);
                run_until_exit(runtime, completion, &mut supervised, &mut inv).0
            },
            Err(e) => returned(inv.step(Event::Built(Err(e)))),
        }
    }
}

} // verus!
