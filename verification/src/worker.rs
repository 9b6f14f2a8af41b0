//! The thread of a highlighter worker: its stages from start to exit, what the spawner makes
//! of its report, and the loop that serves requests.
//!
//! The thread performs one action at a time and hands back whether it worked;
//! [`WorkerThread::advance`] tells the next one.
use std::sync::Arc;
use vstd::prelude::*;

use crate::service::HighlighterWorker;
#[allow(unused_imports)]
use crate::service::{step_for, ServiceNext, ServiceRequest};

verus! {

/// What the thread is doing.
#[derive(Debug, Clone, Copy, PartialEq, Eq, Structural)]
pub enum WorkerStage {
    /// Building the runtime.
    BuildRuntime,
    /// Starting the highlighter process.
    SpawnProcess,
    /// Connecting the server to the pipes of the process.
    CreateServer,
    /// Telling the spawner that the worker is ready.
    ReportReady,
    /// Serving requests until the shutdown signal or the end of the pipe.
    Serve,
    /// Ending the highlighter process.
    TerminateProcess,
    /// Telling the spawner what failed.
    ReportFailure,
    /// Nothing more.
    Exit,
}

/// What the thread is to do next.
pub enum WorkerAction<C, E> {
    BuildRuntime,
    SpawnProcess,
    /// Connect a server that serves from these settings.
    CreateServer(Arc<C>),
    ReportReady,
    Serve,
    TerminateProcess,
    ReportFailure(E),
    Exit,
}

/// The stage that follows: the three stages of startup lead on where they work and to the
/// report of the failure where they do not; from the report on nothing turns the thread aside.
pub open spec fn next_stage(stage: WorkerStage, ok: bool) -> WorkerStage {
    match stage {
        WorkerStage::BuildRuntime => if ok { WorkerStage::SpawnProcess } else {
            WorkerStage::ReportFailure
        },
        WorkerStage::SpawnProcess => if ok { WorkerStage::CreateServer } else {
            WorkerStage::ReportFailure
        },
        WorkerStage::CreateServer => if ok { WorkerStage::ReportReady } else {
            WorkerStage::ReportFailure
        },
        WorkerStage::ReportReady => WorkerStage::Serve,
        WorkerStage::Serve => WorkerStage::TerminateProcess,
        WorkerStage::TerminateProcess => WorkerStage::Exit,
        WorkerStage::ReportFailure => WorkerStage::Exit,
        WorkerStage::Exit => WorkerStage::Exit,
    }
}

/// Whether a stage belongs to startup, where a failure counts.
pub open spec fn is_startup(stage: WorkerStage) -> bool {
    stage == WorkerStage::BuildRuntime || stage == WorkerStage::SpawnProcess || stage
        == WorkerStage::CreateServer
}

/// Whether an action is the one that a stage performs, in a thread that serves from `config`.
pub open spec fn performs<C, E>(
    stage: WorkerStage,
    config: Arc<C>,
    action: WorkerAction<C, E>,
) -> bool {
    match stage {
        WorkerStage::BuildRuntime => action is BuildRuntime,
        WorkerStage::SpawnProcess => action is SpawnProcess,
        WorkerStage::CreateServer => action == WorkerAction::<C, E>::CreateServer(config),
        WorkerStage::ReportReady => action is ReportReady,
        WorkerStage::Serve => action is Serve,
        WorkerStage::TerminateProcess => action is TerminateProcess,
        WorkerStage::ReportFailure => action is ReportFailure,
        WorkerStage::Exit => action is Exit,
    }
}

/// Whether the spawner is told something at a stage.
pub open spec fn is_report(stage: WorkerStage) -> bool {
    stage == WorkerStage::ReportReady || stage == WorkerStage::ReportFailure
}

/// The stage after actions with these outcomes, from the beginning.
pub open spec fn stage_after(outcomes: Seq<bool>) -> WorkerStage
    decreases outcomes.len(),
{
    if outcomes.len() == 0 {
        WorkerStage::BuildRuntime
    } else {
        next_stage(stage_after(outcomes.drop_last()), outcomes.last())
    }
}

/// How often one of the stages `at` is entered over actions with these outcomes.
pub open spec fn entries(outcomes: Seq<bool>, at: spec_fn(WorkerStage) -> bool) -> nat
    decreases outcomes.len(),
{
    if outcomes.len() == 0 {
        if at(WorkerStage::BuildRuntime) {
            1
        } else {
            0
        }
    } else {
        entries(outcomes.drop_last(), at) + if at(stage_after(outcomes)) {
            1nat
        } else {
            0nat
        }
    }
}

/// Whether the outcomes begin with a runtime, a process and a server that were all made.
pub open spec fn started_up(outcomes: Seq<bool>) -> bool {
    outcomes.len() >= 3 && outcomes[0] && outcomes[1] && outcomes[2]
}

/// The progress of a worker's thread, and the settings that it serves from.
pub struct WorkerThread<C> {
    pub stage: WorkerStage,
    pub config: Arc<C>,
}

impl<C> WorkerThread<C> {
    /// A thread that is to build its runtime.
    pub fn new(config: Arc<C>) -> (thread: Self)
        ensures
            thread.stage == stage_after(Seq::empty()),
            thread.config == config,
    {
        WorkerThread { stage: WorkerStage::BuildRuntime, config }
    }

    /// Takes in the outcome of the action at hand and tells the next one. A failure during
    /// startup is what is then reported; any other outcome is not looked at. The server is
    /// connected to the settings that the thread was made with.
    pub fn advance<E>(&mut self, outcome: Result<(), E>) -> (action: WorkerAction<C, E>)
        ensures
            final(self).stage == next_stage(old(self).stage, outcome is Ok),
            final(self).config == old(self).config,
            performs(final(self).stage, old(self).config, action),
            action matches WorkerAction::ReportFailure(error) ==> outcome == Err::<(), E>(error),
    {
        match self.stage {
            WorkerStage::BuildRuntime => match outcome {
                Ok(_) => {
                    self.stage = WorkerStage::SpawnProcess;
                    WorkerAction::SpawnProcess
                },
                Err(error) => {
                    self.stage = WorkerStage::ReportFailure;
                    WorkerAction::ReportFailure(error)
                },
            },
            WorkerStage::SpawnProcess => match outcome {
                Ok(_) => {
                    self.stage = WorkerStage::CreateServer;
                    WorkerAction::CreateServer(self.config.clone())
                },
                Err(error) => {
                    self.stage = WorkerStage::ReportFailure;
                    WorkerAction::ReportFailure(error)
                },
            },
            WorkerStage::CreateServer => match outcome {
                Ok(_) => {
                    self.stage = WorkerStage::ReportReady;
                    WorkerAction::ReportReady
                },
                Err(error) => {
                    self.stage = WorkerStage::ReportFailure;
                    WorkerAction::ReportFailure(error)
                },
            },
            WorkerStage::ReportReady => {
                self.stage = WorkerStage::Serve;
                WorkerAction::Serve
            },
            WorkerStage::Serve => {
                self.stage = WorkerStage::TerminateProcess;
                WorkerAction::TerminateProcess
            },
            WorkerStage::TerminateProcess | WorkerStage::ReportFailure | WorkerStage::Exit => {
                self.stage = WorkerStage::Exit;
                WorkerAction::Exit
            },
        }
    }
}

/// Whether each action worked, of these outcomes.
pub open spec fn worked<E>(outcomes: Seq<Result<(), E>>) -> Seq<bool> {
    outcomes.map_values(|outcome: Result<(), E>| outcome is Ok)
}

/// The report that a thread sends over actions with these outcomes, `None` where it has not
/// sent one.
pub open spec fn report_sent<E>(outcomes: Seq<Result<(), E>>) -> Option<Result<(), E>>
    decreases outcomes.len(),
{
    if outcomes.len() == 0 {
        None
    } else {
        match stage_after(worked(outcomes)) {
            WorkerStage::ReportReady => Some(Ok(())),
            WorkerStage::ReportFailure => Some(outcomes.last()),
            _ => report_sent(outcomes.drop_last()),
        }
    }
}

/// Why a worker could not be spawned.
pub enum SpawnError<E> {
    /// The worker reported that its startup failed.
    Startup(E),
    /// The worker's thread ended without a report.
    Silent,
}

/// What the spawner makes of a worker's report.
pub enum SpawnOutcome<S, T, E> {
    /// The worker is running.
    Running(HighlighterWorker<S, T>),
    /// The thread is to be joined, and the spawn has failed.
    JoinAndFail(T, SpawnError<E>),
}

/// What the spawner makes of a report, `None` where there is none.
pub open spec fn spawn_outcome<S, T, E>(
    report: Option<Result<(), E>>,
    shutdown_sender: S,
    thread: T,
) -> SpawnOutcome<S, T, E> {
    match report {
        Some(Ok(_)) => SpawnOutcome::Running(
            HighlighterWorker { shutdown_sender: Some(shutdown_sender), thread: Some(thread) },
        ),
        Some(Err(error)) => SpawnOutcome::JoinAndFail(thread, SpawnError::Startup(error)),
        None => SpawnOutcome::JoinAndFail(thread, SpawnError::Silent),
    }
}

/// The message for a worker that ended without a report.
pub fn silent_exit_message() -> (message: &'static str)
    ensures
        message@ == "highlighter service exited before reporting startup status"@,
{
    "highlighter service exited before reporting startup status"
}

/// What the spawner makes of the report that it received, `None` where the thread ended
/// without one: the worker counts as running only where it reported that it is ready, and its
/// thread is joined everywhere else.
pub fn finish_spawn<S, T, E>(report: Option<Result<(), E>>, shutdown_sender: S, thread: T) -> (
    outcome: SpawnOutcome<S, T, E>)
    ensures
        outcome == spawn_outcome(report, shutdown_sender, thread),
{
    match report {
        Some(Ok(_)) => SpawnOutcome::Running(HighlighterWorker::new(shutdown_sender, thread)),
        Some(Err(error)) => SpawnOutcome::JoinAndFail(thread, SpawnError::Startup(error)),
        None => SpawnOutcome::JoinAndFail(thread, SpawnError::Silent),
    }
}

/// What the serving loop is woken by.
pub enum ServerEvent<E> {
    /// The shutdown signal.
    Shutdown,
    /// A request that was received and answered.
    Request,
    /// The end of the pipe: the highlighter process has closed it.
    EndOfPipe,
    /// A request that could not be received.
    Failed(E),
}

/// How the serving loop goes on.
pub enum ServerFlow<E> {
    /// The loop ends.
    Break,
    /// The loop waits for the next event.
    Continue,
    /// The failure is logged, and the loop waits for the next event.
    LogAndContinue(E),
}

/// Whether an event ends the serving loop.
pub open spec fn ends_serving<E>(event: ServerEvent<E>) -> bool {
    event is Shutdown || event is EndOfPipe
}

/// Decides how the serving loop goes on: only the shutdown signal and the end of the pipe end
/// it, and a failure is logged.
pub fn run_server_until_shutdown<E>(event: ServerEvent<E>) -> (flow: ServerFlow<E>)
    ensures
        flow is Break <==> ends_serving(event),
        flow is Break <==> event is Shutdown || event is EndOfPipe,
        flow is Continue <==> event is Request,
        match event {
            ServerEvent::Failed(error) => flow == ServerFlow::LogAndContinue(error),
            _ => !(flow is LogAndContinue),
        },
{
    match event {
        ServerEvent::Shutdown => ServerFlow::Break,
        ServerEvent::Request => ServerFlow::Continue,
        ServerEvent::EndOfPipe => ServerFlow::Break,
        ServerEvent::Failed(error) => ServerFlow::LogAndContinue(error),
    }
}

/// A thread reports to its spawner once: not before startup has succeeded or failed, and never
/// again.
pub proof fn law_one_report(outcomes: Seq<bool>)
    ensures
        entries(outcomes, |s: WorkerStage| is_report(s)) == (if is_startup(stage_after(outcomes)) {
            0nat
        } else {
            1nat
        }),
    decreases outcomes.len(),
{
    if outcomes.len() > 0 {
        law_one_report(outcomes.drop_last());
    }
}

/// A thread reports that it is ready only where the runtime, the process and the server were
/// all made, and then it does, once.
pub proof fn law_ready_means_ready(outcomes: Seq<bool>)
    ensures
        entries(outcomes, |s: WorkerStage| s == WorkerStage::ReportReady) == (if started_up(
            outcomes,
        ) {
            1nat
        } else {
            0nat
        }),
{
    lemma_stage_invariant(outcomes);
}

/// A process that was reported ready is ended before its thread exits, and only once; where
/// startup failed, no ending is ordered.
pub proof fn law_ready_process_is_terminated(outcomes: Seq<bool>)
    requires
        stage_after(outcomes) == WorkerStage::Exit,
    ensures
        entries(outcomes, |s: WorkerStage| s == WorkerStage::TerminateProcess) == (if started_up(
            outcomes,
        ) {
            1nat
        } else {
            0nat
        }),
{
    lemma_stage_invariant(outcomes);
}

/// A spawn succeeds exactly where the runtime, the process and the server were all made; where
/// one of them failed, the spawn fails with that failure, the first there was.
pub proof fn law_spawn_reports_startup<S, T, E>(
    outcomes: Seq<Result<(), E>>,
    shutdown_sender: S,
    thread: T,
)
    ensures
        ({
            let outcome = spawn_outcome(report_sent(outcomes), shutdown_sender, thread);
            &&& outcome is Running <==> started_up(worked(outcomes))
            &&& forall|i: int|
                0 <= i < 3 && i < outcomes.len() && (#[trigger] outcomes[i] is Err) && (forall|
                    j: int,
                |
                    0 <= j < i ==> #[trigger] outcomes[j] is Ok)
                    ==> outcome == SpawnOutcome::<S, T, E>::JoinAndFail(
                    thread,
                    SpawnError::Startup(outcomes[i]->Err_0),
                )
        }),
    decreases outcomes.len(),
{
    let flags = worked(outcomes);
    lemma_stage_invariant(flags);
    if outcomes.len() > 0 {
        let before = outcomes.drop_last();
        assert(worked(before) =~= flags.drop_last());
        lemma_stage_invariant(worked(before));
        law_spawn_reports_startup(before, shutdown_sender, thread);
        assert(forall|i: int| 0 <= i < before.len() ==> before[i] == outcomes[i]);
        let n = outcomes.len() - 1;
        assert forall|i: int|
            0 <= i < 3 && i < outcomes.len() && (#[trigger] outcomes[i] is Err) && (forall|j: int|
                0 <= j < i ==> #[trigger] outcomes[j] is Ok) implies spawn_outcome(
            report_sent(outcomes),
            shutdown_sender,
            thread,
        ) == SpawnOutcome::<S, T, E>::JoinAndFail(
            thread,
            SpawnError::Startup(outcomes[i]->Err_0),
        ) by {
            if i < n {
                assert(before[i] is Err);
            }
        }
    }
}

/// The server of a newly spawned worker serves from the settings that the service keeps: the
/// order to spawn carries them to the thread, and the thread hands them to its server.
pub proof fn law_server_serves_the_settings<C, S, T, E>(
    config: Arc<C>,
    worker: Option<HighlighterWorker<S, T>>,
    thread_finished: bool,
    request: ServiceRequest,
    ordered: Arc<C>,
    stage: WorkerStage,
    action: WorkerAction<C, E>,
    served: Arc<C>,
)
    requires
        step_for(config, worker, thread_finished, request).next == ServiceNext::<C>::Spawn(ordered),
        performs(stage, ordered, action),
        action == WorkerAction::<C, E>::CreateServer(served),
    ensures
        served == config,
{
}

/// A thread whose actions all come back exits after at most six of them.
pub proof fn law_worker_exits(outcomes: Seq<bool>)
    requires
        outcomes.len() >= 6,
    ensures
        stage_after(outcomes) == WorkerStage::Exit,
{
    lemma_remaining(outcomes);
}

/// The number of actions that a thread has before it at most.
spec fn remaining(stage: WorkerStage) -> int {
    match stage {
        WorkerStage::BuildRuntime => 6,
        WorkerStage::SpawnProcess => 5,
        WorkerStage::CreateServer => 4,
        WorkerStage::ReportReady => 3,
        WorkerStage::Serve => 2,
        WorkerStage::TerminateProcess => 1,
        WorkerStage::ReportFailure => 1,
        WorkerStage::Exit => 0,
    }
}

proof fn lemma_remaining(outcomes: Seq<bool>)
    ensures
        remaining(stage_after(outcomes)) <= (if outcomes.len() <= 6 {
            6 - outcomes.len()
        } else {
            0
        }),
    decreases outcomes.len(),
{
    if outcomes.len() > 0 {
        lemma_remaining(outcomes.drop_last());
    }
}

/// What each stage says about the outcomes that led to it.
proof fn lemma_stage_invariant(outcomes: Seq<bool>)
    ensures
        ({
            let stage = stage_after(outcomes);
            let n = outcomes.len();
            let first = n >= 1 && outcomes[0];
            let started = started_up(outcomes);
            let ready = entries(outcomes, |s: WorkerStage| s == WorkerStage::ReportReady);
            let ended = entries(outcomes, |s: WorkerStage| s == WorkerStage::TerminateProcess);
            &&& stage == WorkerStage::BuildRuntime <==> n == 0
            &&& stage == WorkerStage::SpawnProcess ==> n == 1 && first
            &&& stage == WorkerStage::CreateServer ==> n == 2 && first && outcomes[1]
            &&& stage == WorkerStage::ReportReady ==> n == 3 && started
            &&& stage == WorkerStage::Serve ==> started && n == 4
            &&& stage == WorkerStage::TerminateProcess ==> started && n == 5
            &&& stage == WorkerStage::ReportFailure ==> !started && 1 <= n <= 3
            &&& stage == WorkerStage::ReportFailure ==> exists|i: int|
                0 <= i < n && i < 3 && !#[trigger] outcomes[i]
            &&& stage == WorkerStage::Exit ==> n >= 2 && (started || exists|i: int|
                0 <= i < n && i < 3 && !#[trigger] outcomes[i])
            &&& ready == (if started {
                1nat
            } else {
                0nat
            })
            &&& ended == (if stage == WorkerStage::TerminateProcess || (stage == WorkerStage::Exit
                && started) {
                1nat
            } else {
                0nat
            })
        }),
    decreases outcomes.len(),
{
    if outcomes.len() > 0 {
        let before = outcomes.drop_last();
        lemma_stage_invariant(before);
        assert(forall|i: int| 0 <= i < before.len() ==> before[i] == outcomes[i]);
        if stage_after(outcomes) == WorkerStage::ReportFailure {
            assert(!outcomes[outcomes.len() - 1]);
        }
        if stage_after(outcomes) == WorkerStage::Exit && exists|i: int|
            0 <= i < before.len() && i < 3 && !#[trigger] before[i] {
            let i = choose|i: int| 0 <= i < before.len() && i < 3 && !#[trigger] before[i];
            assert(!outcomes[i]);
        }
    }
}

/// The course of a thread by the outcomes of its actions. As long as nothing of the runtime, the
/// process and the server has failed, it goes from one to the next, then reports, serves and ends
/// the process, in this order, and exits. Where one of the three fails it reports that next and
/// then exits. What the later actions come to does not matter.
pub proof fn law_course_of_a_worker(outcomes: Seq<bool>)
    ensures
        ({
            let n = outcomes.len();
            let stage = stage_after(outcomes);
            &&& (forall|i: int| 0 <= i < n && i < 3 ==> #[trigger] outcomes[i]) ==> {
                &&& n == 0 ==> stage is BuildRuntime
                &&& n == 1 ==> stage is SpawnProcess
                &&& n == 2 ==> stage is CreateServer
                &&& n == 3 ==> stage is ReportReady
                &&& n == 4 ==> stage is Serve
                &&& n == 5 ==> stage is TerminateProcess
                &&& n >= 6 ==> stage is Exit
            }
            &&& forall|i: int|
                0 <= i < n && i < 3 && !(#[trigger] outcomes[i]) && (forall|j: int|
                    0 <= j < i ==> #[trigger] outcomes[j]) ==> {
                    &&& n == i + 1 ==> stage is ReportFailure
                    &&& n > i + 1 ==> stage is Exit
                }
        }),
    decreases outcomes.len(),
{
    if outcomes.len() > 0 {
        let before = outcomes.drop_last();
        law_course_of_a_worker(before);
        let n = outcomes.len();
        let stage = stage_after(outcomes);
        assert(forall|i: int| 0 <= i < n - 1 ==> before[i] == outcomes[i]);
        if forall|i: int| 0 <= i < n && i < 3 ==> #[trigger] outcomes[i] {
            assert forall|i: int| 0 <= i < n - 1 && i < 3 implies #[trigger] before[i] by {
                assert(outcomes[i]);
            }
            if n <= 3 {
                assert(outcomes[n - 1]);
            }
        }
        assert forall|i: int|
            0 <= i < n && i < 3 && !(#[trigger] outcomes[i]) && (forall|j: int|
                0 <= j < i ==> #[trigger] outcomes[j]) implies {
            &&& n == i + 1 ==> stage is ReportFailure
            &&& n > i + 1 ==> stage is Exit
        } by {
            if i < n - 1 {
                assert(!before[i]);
                assert forall|j: int| 0 <= j < i implies #[trigger] before[j] by {
                    assert(outcomes[j]);
                }
            } else {
                assert forall|j: int| 0 <= j < n - 1 && j < 3 implies #[trigger] before[j] by {
                    assert(outcomes[j]);
                }
                assert(!outcomes.last());
            }
        }
    }
}

/// Each stage performs the action of its name and no other, and a server is connected to the
/// settings that the thread was made with.
pub proof fn law_stages_and_their_actions<C, E>(
    stage: WorkerStage,
    config: Arc<C>,
    action: WorkerAction<C, E>,
)
    ensures
        performs(stage, config, action) <==> {
            ||| stage is BuildRuntime && action is BuildRuntime
            ||| stage is SpawnProcess && action is SpawnProcess
            ||| stage is CreateServer && action is CreateServer && action->CreateServer_0 == config
            ||| stage is ReportReady && action is ReportReady
            ||| stage is Serve && action is Serve
            ||| stage is TerminateProcess && action is TerminateProcess
            ||| stage is ReportFailure && action is ReportFailure
            ||| stage is Exit && action is Exit
        },
{
}

/// The spawner has a running worker, with the signal and the thread that it made, exactly where
/// the report says so. It joins the thread and fails everywhere else: with the failure that was
/// reported, or for want of a report.
pub proof fn law_spawner_goes_by_the_report<S, T, E>(shutdown_sender: S, thread: T, error: E)
    ensures
        spawn_outcome(Some(Ok::<(), E>(())), shutdown_sender, thread) == SpawnOutcome::<
            S,
            T,
            E,
        >::Running(
            HighlighterWorker { shutdown_sender: Some(shutdown_sender), thread: Some(thread) },
        ),
        spawn_outcome(Some(Err::<(), E>(error)), shutdown_sender, thread) == SpawnOutcome::<
            S,
            T,
            E,
        >::JoinAndFail(thread, SpawnError::Startup(error)),
        spawn_outcome(None::<Result<(), E>>, shutdown_sender, thread) == SpawnOutcome::<
            S,
            T,
            E,
        >::JoinAndFail(thread, SpawnError::Silent),
{
}

} // verus!
