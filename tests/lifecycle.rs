use sc_cli::error::RunError;
use sc_cli::gauges::ThreadGauges;
use sc_cli::latch::TerminationLatch;
use sc_cli::pool::{new_pool, TaskExecutor};
use sc_cli::race::{race_result, RaceOutcome, StopSignal};
use sc_cli::runner::{conclude, Resources, Runner, Supervised, TaskSupervisor};
use sc_cli::session::{Action, Event, Invocation, Mode, Phase};
use sc_cli::subcommand::{Inputs, Subcommand};
use sc_cli::task::{route, Route, TaskType};
use std::sync::atomic::{AtomicUsize, Ordering};
use std::sync::mpsc;
use std::sync::{Arc, Mutex};
use std::time::Duration;

/// A task manager that counts the termination requests it receives.
struct CountingTasks<C> {
    completion: Option<C>,
    terminations: Arc<AtomicUsize>,
}

impl<C: std::future::Future<Output = Result<(), RunError>>> TaskSupervisor for CountingTasks<C> {
    type Completion = C;

    fn completion(&mut self) -> C {
        self.completion.take().unwrap()
    }

    fn terminate(&mut self) {
        self.terminations.fetch_add(1, Ordering::SeqCst);
    }
}

fn counting<C>(completion: C) -> (CountingTasks<C>, Arc<AtomicUsize>) {
    let n = Arc::new(AtomicUsize::new(0));
    (CountingTasks { completion: Some(completion), terminations: n.clone() }, n)
}

/// An invocation whose builder succeeded, so that its race runs.
fn racing(mode: Mode) -> Invocation {
    let mut inv = Invocation::new();
    assert_eq!(inv.step(Event::Invoke(mode)), Action::Build);
    assert_eq!(inv.step(Event::Built(Ok(()))), Action::Race);
    inv
}

type Ready = futures::future::Ready<Result<(), RunError>>;

fn gauged_runner(config: &str) -> (Runner<String>, Arc<Mutex<ThreadGauges>>) {
    let gauges = Arc::new(Mutex::new(ThreadGauges::new()));
    let (a, b) = (gauges.clone(), gauges.clone());
    let cfg = config.to_string();
    let runner = Runner::new(
        move || a.lock().unwrap().thread_started(),
        move || b.lock().unwrap().thread_stopped(),
        move |_executor: TaskExecutor| Ok(cfg),
    )
    .unwrap();
    (runner, gauges)
}

/// The started gauge once it has stayed put for a while.
fn settled_total(gauges: &Arc<Mutex<ThreadGauges>>) -> u64 {
    let (_tx, rx) = mpsc::channel::<()>();
    let mut last = gauges.lock().unwrap().total;
    loop {
        let _ = rx.recv_timeout(Duration::from_millis(200));
        let now = gauges.lock().unwrap().total;
        if now == last && now > 0 {
            return now;
        }
        last = now;
    }
}

#[test]
fn gauges_count_starts_and_stops() {
    let mut g = ThreadGauges::new();
    assert_eq!(g, ThreadGauges { alive: 0, total: 0 });
    g.thread_started();
    g.thread_started();
    assert_eq!(g, ThreadGauges { alive: 2, total: 2 });
    g.thread_stopped();
    assert_eq!(g, ThreadGauges { alive: 1, total: 2 });
    assert!(g.can_start());
    assert!(!ThreadGauges { alive: u64::MAX, total: 3 }.can_start());
}

#[test]
fn alive_gauge_returns_to_zero_after_pools_drop() {
    let gauges = Arc::new(Mutex::new(ThreadGauges::new()));
    for _ in 0..2 {
        let (a, b) = (gauges.clone(), gauges.clone());
        let mut rt = new_pool(
            move || a.lock().unwrap().thread_started(),
            move || b.lock().unwrap().thread_stopped(),
        )
        .unwrap();
        rt.block_on(futures::future::ready(()));
        drop(rt);
        assert_eq!(gauges.lock().unwrap().alive, 0);
    }
    assert!(gauges.lock().unwrap().total >= 1);
}

#[test]
fn blocking_work_takes_the_bridge() {
    assert_eq!(route(TaskType::Async), Route::Worker);
    assert_eq!(route(TaskType::Blocking), Route::BlockingBridge);
}

#[test]
fn dispatched_operations_run() {
    let runner: Runner<TaskExecutor> = Runner::new(|| {}, || {}, |e: TaskExecutor| Ok(e)).unwrap();
    let executor = runner.config();
    let (tx, rx) = mpsc::channel();
    let tx2 = tx.clone();
    let r1 = executor.dispatch(
        futures::future::lazy(move |_| tx.send(TaskType::Async).unwrap()),
        TaskType::Async,
    );
    let r2 = executor.dispatch(
        futures::future::lazy(move |_| tx2.send(TaskType::Blocking).unwrap()),
        TaskType::Blocking,
    );
    assert_eq!((r1, r2), (Route::Worker, Route::BlockingBridge));
    let mut seen = vec![
        rx.recv_timeout(Duration::from_secs(5)).unwrap(),
        rx.recv_timeout(Duration::from_secs(5)).unwrap(),
    ];
    seen.sort_by_key(|t| *t == TaskType::Blocking);
    assert_eq!(seen, vec![TaskType::Async, TaskType::Blocking]);
}

#[test]
fn interrupt_first_is_success() {
    assert_eq!(race_result::<RunError>(RaceOutcome::Interrupted(StopSignal::Interrupt)), Ok(()));
    assert_eq!(race_result::<RunError>(RaceOutcome::Interrupted(StopSignal::Terminate)), Ok(()));
    let e = RunError::Primary("disk full".to_string());
    assert_eq!(race_result(RaceOutcome::Finished(Err(e.clone()))), Err(e));
    assert_eq!(race_result::<RunError>(RaceOutcome::Finished(Ok(()))), Ok(()));
}

#[test]
fn second_termination_request_is_noop() {
    let mut latch = TerminationLatch::new();
    assert!(latch.request());
    assert!(!latch.request());
    assert!(latch.requested);

    let (tasks, n) = counting(futures::future::pending::<Result<(), RunError>>());
    let mut s = Supervised::new(tasks);
    assert!(s.terminate());
    assert!(!s.terminate());
    assert_eq!(n.load(Ordering::SeqCst), 1);
}

#[test]
fn interrupted_node_terminates_once_without_waiting() {
    // tasks that never finish, raced against an interrupt that came first
    let (tasks, n) = counting(futures::future::pending::<Result<(), RunError>>());
    let mut s = Supervised::new(tasks);
    let mut inv = racing(Mode::Node);
    let r = conclude(RaceOutcome::Interrupted(StopSignal::Interrupt), &mut s, &mut inv);
    assert_eq!(r, Ok(()));
    assert_eq!(inv.phase, Phase::Consumed);
    assert_eq!(n.load(Ordering::SeqCst), 1);
}

#[test]
fn primary_error_still_terminates() {
    let (tasks, n) = counting(futures::future::pending::<Result<(), RunError>>());
    let mut s = Supervised::new(tasks);
    let e = RunError::Primary("failed".to_string());
    let mut inv = racing(Mode::Async);
    assert_eq!(conclude(RaceOutcome::Finished(Err(e.clone())), &mut s, &mut inv), Err(e));
    assert_eq!(n.load(Ordering::SeqCst), 1);
}

#[test]
fn subcommand_kinds() {
    assert!(Subcommand::BuildSpec.is_synchronous());
    assert!(Subcommand::PurgeChain.is_synchronous());
    assert!(!Subcommand::ExportBlocks.is_synchronous());
    assert!(!Subcommand::Revert.is_synchronous());
    let none = Inputs {
        client: false,
        backend: false,
        import_queue: false,
        chain_spec: false,
        network: false,
        database: false,
    };
    assert_eq!(Subcommand::Revert.inputs(), Inputs { client: true, backend: true, ..none });
    assert_eq!(Subcommand::ImportBlocks.inputs(), Inputs { client: true, import_queue: true, ..none });
    assert_eq!(Subcommand::ExportState.inputs(), Inputs { client: true, chain_spec: true, ..none });
    assert_eq!(Subcommand::PurgeChain.inputs(), Inputs { database: true, ..none });
}

#[test]
fn resources_follow_inputs() {
    let r: Resources<u8, u16, u32, String> =
        Resources::select(Subcommand::Revert.inputs(), 1, 2, 3, None);
    assert_eq!((r.client, r.backend, r.import_queue, r.config), (Some(1), Some(2), None, None));
    let r: Resources<u8, u16, u32, String> =
        Resources::select(Subcommand::ExportBlocks.inputs(), 1, 2, 3, Some("db".to_string()));
    assert_eq!((r.client, r.backend, r.import_queue), (Some(1), None, None));
    assert_eq!(r.config, Some("db".to_string()));
}

#[test]
fn invocation_build_error_returns_early() {
    let mut inv = Invocation::new();
    assert_eq!(inv.step(Event::Invoke(Mode::Subcommand(Subcommand::ExportBlocks))), Action::Build);
    let e = RunError::Service("database".to_string());
    assert_eq!(inv.step(Event::Built(Err(e.clone()))), Action::Return(Err(e)));
    assert_eq!(inv.phase, Phase::Consumed);
    assert_eq!(inv.step(Event::Invoke(Mode::Async)), Action::Refuse);
    assert_eq!(inv.step(Event::Terminated), Action::Refuse);
}

#[test]
fn invocation_interrupt_path() {
    let mut inv = Invocation::new();
    assert_eq!(inv.step(Event::Invoke(Mode::Node)), Action::Build);
    assert_eq!(inv.step(Event::Terminated), Action::Refuse);
    assert_eq!(inv.step(Event::Built(Ok(()))), Action::Race);
    assert_eq!(
        inv.step(Event::RaceResolved(RaceOutcome::Interrupted(StopSignal::Interrupt))),
        Action::Terminate
    );
    assert_eq!(inv.phase, Phase::Terminating(Ok(())));
    assert_eq!(inv.step(Event::Terminated), Action::Return(Ok(())));
    assert_eq!(inv.step(Event::Terminated), Action::Refuse);
}

#[test]
fn invocation_sync_subcommands_skip_the_pool() {
    for s in [Subcommand::BuildSpec, Subcommand::PurgeChain] {
        let mut inv = Invocation::new();
        assert_eq!(inv.step(Event::Invoke(Mode::Subcommand(s))), Action::RunSync);
        assert_eq!(inv.step(Event::Built(Ok(()))), Action::Refuse);
        assert_eq!(inv.step(Event::SyncReturned(Ok(()))), Action::Return(Ok(())));
    }
    let mut inv = Invocation::new();
    assert_eq!(inv.step(Event::Invoke(Mode::Sync)), Action::RunSync);
}

#[test]
fn runner_config_access() {
    let (mut runner, _) = gauged_runner("flaming-fir");
    assert_eq!(runner.config(), "flaming-fir");
    runner.config_mut().push_str("-7");
    assert_eq!(runner.config(), "flaming-fir-7");
    let r = runner.sync_run(|c| if c == "flaming-fir-7" { Ok(()) } else { Err(RunError::Primary(c)) });
    assert_eq!(r, Ok(()));
}

#[test]
fn runner_new_reports_configuration_error() {
    let r: Result<Runner<String>, RunError> =
        Runner::new(|| {}, || {}, |_e: TaskExecutor| Err(RunError::Service("bad chain".to_string())));
    assert_eq!(r.err(), Some(RunError::Service("bad chain".to_string())));
}

#[test]
fn builder_error_skips_race_and_task_manager() {
    let (runner, _) = gauged_runner("cfg");
    let asked = Arc::new(AtomicUsize::new(0));
    let asked2 = asked.clone();
    let r = runner.run_subcommand(
        &Subcommand::ExportBlocks,
        |_c: String| -> Result<(u8, u8, u8, CountingTasks<Ready>), RunError> {
            Err(RunError::Service("database".to_string()))
        },
        |_s, _c| Ok(()),
        move |_s, _res: Resources<u8, u8, u8, String>| {
            asked2.fetch_add(1, Ordering::SeqCst);
            futures::future::ready(Ok(()))
        },
    );
    assert_eq!(r, Err(RunError::Service("database".to_string())));
    assert_eq!(asked.load(Ordering::SeqCst), 0);
}

#[test]
fn sync_subcommands_leave_the_gauges_alone() {
    for s in [Subcommand::BuildSpec, Subcommand::PurgeChain] {
        let (runner, gauges) = gauged_runner("cfg");
        let total = settled_total(&gauges);
        let built = Arc::new(AtomicUsize::new(0));
        let built2 = built.clone();
        let r = runner.run_subcommand(
            &s,
            move |_c: String| -> Result<(u8, u8, u8, CountingTasks<Ready>), RunError> {
                built2.fetch_add(1, Ordering::SeqCst);
                Err(RunError::Service("unused".to_string()))
            },
            |kind, c| if c == "cfg" { Err(RunError::Primary(format!("{:?}", kind))) } else { Ok(()) },
            |_s, _res: Resources<u8, u8, u8, String>| futures::future::ready(Ok(())),
        );
        assert_eq!(r, Err(RunError::Primary(format!("{:?}", s))));
        assert_eq!(built.load(Ordering::SeqCst), 0);
        assert_eq!(settled_total(&gauges), total);
    }
}

#[test]
fn async_subcommand_runs_and_terminates_once() {
    let (runner, _) = gauged_runner("cfg");
    let (tasks, n) = counting(futures::future::ready(Ok(())));
    let r = runner.run_subcommand(
        &Subcommand::Revert,
        move |_c: String| Ok((7u8, 9u8, 0u8, tasks)),
        |_s, _c| Ok(()),
        |_s, res: Resources<u8, u8, u8, String>| {
            futures::future::ready(if res.client == Some(7) && res.backend == Some(9) {
                Err(RunError::Primary("reverted".to_string()))
            } else {
                Ok(())
            })
        },
    );
    assert_eq!(r, Err(RunError::Primary("reverted".to_string())));
    assert_eq!(n.load(Ordering::SeqCst), 1);
}

#[test]
fn async_run_terminates_once() {
    let (runner, _) = gauged_runner("cfg");
    let (tasks, n) = counting(futures::future::pending::<Result<(), RunError>>());
    let r = runner.async_run(move |_c| Ok((futures::future::ready(Ok(())), tasks)));
    assert_eq!(r, Ok(()));
    assert_eq!(n.load(Ordering::SeqCst), 1);

    let (runner, _) = gauged_runner("cfg");
    let r = runner.async_run(|_c| -> Result<(Ready, CountingTasks<Ready>), RunError> {
        Err(RunError::Service("no client".to_string()))
    });
    assert_eq!(r, Err(RunError::Service("no client".to_string())));
}

#[test]
fn node_run_ends_with_first_task_failure() {
    let (runner, _) = gauged_runner("cfg");
    let (tasks, n) = counting(futures::future::ready(Err(RunError::Primary("task".to_string()))));
    let r = runner.run_node_until_exit(move |_c| Ok(tasks));
    assert_eq!(r, Err(RunError::Primary("task".to_string())));
    assert_eq!(n.load(Ordering::SeqCst), 1);

    let (runner, _) = gauged_runner("cfg");
    let r = runner.run_node_until_exit(|_c| -> Result<CountingTasks<Ready>, RunError> {
        Err(RunError::Service("init".to_string()))
    });
    assert_eq!(r, Err(RunError::Service("init".to_string())));
}
