//! The highlighter service: at most one worker, started, stopped and cleaned up on request.
//!
//! The service decides; its owner acts. A request is answered with a [`ServiceStep`]: the
//! worker that is to be shut down first, and then either the answer or the order to spawn a
//! worker, whose outcome is handed to [`HighlighterService::finish_start`].
use std::sync::Arc;
use vstd::prelude::*;

verus! {

/// The resources of one worker: the sender of its shutdown signal and the handle of its
/// thread, each until it is used.
pub struct HighlighterWorker<S, T> {
    pub shutdown_sender: Option<S>,
    pub thread: Option<T>,
}

/// What is left to do to shut a worker down: send the signal, then join the thread.
/// [`Shutdown::next_step`] hands the steps out in this order.
pub struct Shutdown<S, T> {
    pub signal: Option<S>,
    pub join: Option<T>,
}

/// A step of shutting a worker down.
pub enum ShutdownStep<S, T> {
    /// Send the shutdown signal.
    Signal(S),
    /// Join the thread, which ends once it has seen the signal.
    Join(T),
    /// Nothing is left to do.
    Done,
}

/// The next step of a shutdown: the signal as long as it has not been sent, only then the join.
pub open spec fn shutdown_step<S, T>(shutdown: Shutdown<S, T>) -> ShutdownStep<S, T> {
    match shutdown {
        Shutdown { signal: Some(signal), .. } => ShutdownStep::Signal(signal),
        Shutdown { signal: None, join: Some(thread) } => ShutdownStep::Join(thread),
        Shutdown { signal: None, join: None } => ShutdownStep::Done,
    }
}

/// What is left to do once the next step of a shutdown has been handed out.
pub open spec fn after_shutdown_step<S, T>(shutdown: Shutdown<S, T>) -> Shutdown<S, T> {
    Shutdown { signal: None, join: if shutdown.signal is Some { shutdown.join } else { None } }
}

impl<S, T> Shutdown<S, T> {
    /// Hands out the next step, the signal before the join: joining a thread that has not been
    /// told to end would wait for as long as it serves.
    pub fn next_step(&mut self) -> (step: ShutdownStep<S, T>)
        ensures
            step == shutdown_step(*old(self)),
            *final(self) == after_shutdown_step(*old(self)),
            step is Join ==> old(self).signal is None,
    {
        match self.signal.take() {
            Some(signal) => ShutdownStep::Signal(signal),
            None => match self.join.take() {
                Some(thread) => ShutdownStep::Join(thread),
                None => ShutdownStep::Done,
            },
        }
    }
}

impl<S, T> HighlighterWorker<S, T> {
    /// A worker that has reported that it is ready.
    pub fn new(shutdown_sender: S, thread: T) -> (worker: Self)
        ensures
            worker.shutdown_sender == Some(shutdown_sender),
            worker.thread == Some(thread),
    {
        HighlighterWorker { shutdown_sender: Some(shutdown_sender), thread: Some(thread) }
    }

    /// Whether the worker's thread has exited, where `thread_finished` tells whether the thread
    /// that it still holds has: a thread that was handed out to be joined counts as exited.
    pub fn is_finished(&self, thread_finished: bool) -> (finished: bool)
        ensures
            finished == (self.thread is None || thread_finished),
    {
        self.thread.is_none() || thread_finished
    }

    /// Hands out what is left to do to shut the worker down. A second call hands out nothing:
    /// the signal is sent once and the thread is joined once.
    pub fn stop(&mut self) -> (shutdown: Shutdown<S, T>)
        ensures
            shutdown.signal == old(self).shutdown_sender,
            shutdown.join == old(self).thread,
            final(self).shutdown_sender is None,
            final(self).thread is None,
    {
        let signal = self.shutdown_sender.take();
        let join = self.thread.take();
        Shutdown { signal, join }
    }
}

/// What is to follow once the worker that a step retires has been shut down.
#[derive(Debug, PartialEq)]
pub enum ServiceNext<C> {
    /// The request is answered: whether the service is running.
    Answer(bool),
    /// A worker is to be spawned that serves from these settings, and the outcome handed to the
    /// service.
    Spawn(Arc<C>),
}

/// The service's decision on a request.
pub struct ServiceStep<C, S, T> {
    /// The worker that the service has given up, to be shut down.
    pub retired: Option<HighlighterWorker<S, T>>,
    pub next: ServiceNext<C>,
}

/// The requests that a service decides on.
#[derive(Debug, Clone, Copy, PartialEq, Eq, Structural)]
pub enum ServiceRequest {
    Start,
    Stop,
    Toggle,
    IsRunning,
}

/// Whether a worker is owned and its thread has not exited.
pub open spec fn is_live<S, T>(
    worker: Option<HighlighterWorker<S, T>>,
    thread_finished: bool,
) -> bool {
    worker is Some && worker->0.thread is Some && !thread_finished
}

/// The worker that a service owns once it has decided on a request: a live worker stays unless
/// the request is to stop it, and a finished one never does.
pub open spec fn owned_after<S, T>(
    worker: Option<HighlighterWorker<S, T>>,
    thread_finished: bool,
    request: ServiceRequest,
) -> Option<HighlighterWorker<S, T>> {
    match request {
        ServiceRequest::Start | ServiceRequest::IsRunning => if is_live(worker, thread_finished) {
            worker
        } else {
            None
        },
        ServiceRequest::Stop | ServiceRequest::Toggle => None,
    }
}

/// The decision on a request: the worker given up, and what follows. A worker that is to be
/// spawned serves from the settings that the service keeps.
pub open spec fn step_for<C, S, T>(
    config: Arc<C>,
    worker: Option<HighlighterWorker<S, T>>,
    thread_finished: bool,
    request: ServiceRequest,
) -> ServiceStep<C, S, T> {
    let live = is_live(worker, thread_finished);
    match request {
        ServiceRequest::Start => ServiceStep {
            retired: if live { None } else { worker },
            next: if live { ServiceNext::Answer(true) } else { ServiceNext::Spawn(config) },
        },
        ServiceRequest::Stop => ServiceStep { retired: worker, next: ServiceNext::Answer(false) },
        ServiceRequest::Toggle => ServiceStep {
            retired: worker,
            next: if live { ServiceNext::Answer(false) } else { ServiceNext::Spawn(config) },
        },
        ServiceRequest::IsRunning => ServiceStep {
            retired: if live { None } else { worker },
            next: ServiceNext::Answer(live),
        },
    }
}

/// The worker that a service owns once it has taken in the outcome of a spawn.
pub open spec fn owned_after_spawn<S, T, E>(
    spawned: Result<HighlighterWorker<S, T>, E>,
) -> Option<HighlighterWorker<S, T>> {
    match spawned {
        Ok(worker) => Some(worker),
        Err(_) => None,
    }
}

/// The owner of the optional worker.
///
/// `config` is shared with everything else that works on the settings; each worker serves from
/// it.
pub struct HighlighterService<C, S, T> {
    pub config: Arc<C>,
    pub worker: Option<HighlighterWorker<S, T>>,
}

impl<C, S, T> HighlighterService<C, S, T> {
    /// A service that owns no worker.
    pub fn new(config: Arc<C>) -> (service: Self)
        ensures
            service.config == config,
            service.worker is None,
    {
        HighlighterService { config, worker: None }
    }

    /// Gives up a worker that has finished; one that has not stays. `thread_finished` tells
    /// whether the thread of the owned worker has exited, and does not matter where there is
    /// none.
    pub fn reap_finished_worker(&mut self, thread_finished: bool) -> (retired: Option<
        HighlighterWorker<S, T>,
    >)
        ensures
            final(self).config == old(self).config,
            is_live(old(self).worker, thread_finished) ==> {
                &&& final(self).worker == old(self).worker
                &&& retired is None
            },
            !is_live(old(self).worker, thread_finished) ==> {
                &&& final(self).worker is None
                &&& retired == old(self).worker
            },
    {
        let finished: bool = match &self.worker {
            Some(worker) => worker.is_finished(thread_finished),
            None => false,
        };
        if finished {
            self.worker.take()
        } else {
            None
        }
    }

    /// Asks for a running service. A finished worker is given up first; a live one is kept and
    /// answers the request, so a worker is spawned only where none is owned.
    pub fn start(&mut self, thread_finished: bool) -> (step: ServiceStep<C, S, T>)
        ensures
            final(self).config == old(self).config,
            final(self).worker == owned_after(
                old(self).worker,
                thread_finished,
                ServiceRequest::Start,
            ),
            step == step_for(
                old(self).config,
                old(self).worker,
                thread_finished,
                ServiceRequest::Start,
            ),
    {
        let retired = self.reap_finished_worker(thread_finished);
        let next = if self.worker.is_some() { ServiceNext::Answer(true) } else {
            ServiceNext::Spawn(self.config.clone())
        };
        ServiceStep { retired, next }
    }

    /// Takes in the outcome of the spawn that a step has ordered: the worker is owned from
    /// now on and the service is running, or the failure is the answer and it is not.
    pub fn finish_start<E>(&mut self, spawned: Result<HighlighterWorker<S, T>, E>) -> (answer:
        Result<bool, E>)
        requires
            old(self).worker is None,
        ensures
            final(self).config == old(self).config,
            final(self).worker == owned_after_spawn(spawned),
            answer == (match spawned {
                Ok(_) => Ok::<bool, E>(true),
                Err(error) => Err::<bool, E>(error),
            }),
    {
        match spawned {
            Ok(worker) => {
                self.worker = Some(worker);
                Ok(true)
            },
            Err(error) => Err(error),
        }
    }

    /// Gives up the worker, whether or not it has finished. The service counts as stopped from
    /// here on, before the worker has been shut down.
    pub fn stop(&mut self) -> (step: ServiceStep<C, S, T>)
        ensures
            final(self).config == old(self).config,
            final(self).worker == owned_after(old(self).worker, false, ServiceRequest::Stop),
            step == step_for(
                old(self).config,
                old(self).worker,
                false,
                ServiceRequest::Stop,
            ),
    {
        let retired = self.worker.take();
        ServiceStep { retired, next: ServiceNext::Answer(false) }
    }

    /// Stops a running service and starts one that is not running.
    pub fn toggle(&mut self, thread_finished: bool) -> (step: ServiceStep<C, S, T>)
        ensures
            final(self).config == old(self).config,
            final(self).worker == owned_after(
                old(self).worker,
                thread_finished,
                ServiceRequest::Toggle,
            ),
            step == step_for(
                old(self).config,
                old(self).worker,
                thread_finished,
                ServiceRequest::Toggle,
            ),
    {
        let check = self.is_running(thread_finished);
        match check.next {
            ServiceNext::Answer(true) => self.stop(),
            _ => {
                let step = self.start(thread_finished);
                ServiceStep { retired: check.retired, next: step.next }
            },
        }
    }

    /// Asks whether the service is running. A finished worker is given up, and does not count.
    pub fn is_running(&mut self, thread_finished: bool) -> (step: ServiceStep<C, S, T>)
        ensures
            final(self).config == old(self).config,
            final(self).worker == owned_after(
                old(self).worker,
                thread_finished,
                ServiceRequest::IsRunning,
            ),
            step == step_for(
                old(self).config,
                old(self).worker,
                thread_finished,
                ServiceRequest::IsRunning,
            ),
    {
        let retired = self.reap_finished_worker(thread_finished);
        let running: bool = self.worker.is_some();
        ServiceStep { retired, next: ServiceNext::Answer(running) }
    }
}

/// The steps of a shutdown, one after the other, up to the end.
pub open spec fn shutdown_steps<S, T>(shutdown: Shutdown<S, T>) -> Seq<ShutdownStep<S, T>>
    decreases
            (if shutdown.signal is Some {
                1nat
            } else {
                0nat
            }) + (if shutdown.join is Some {
                1nat
            } else {
                0nat
            }),
{
    if shutdown_step(shutdown) is Done {
        Seq::empty()
    } else {
        seq![shutdown_step(shutdown)] + shutdown_steps(after_shutdown_step(shutdown))
    }
}

/// A shutdown sends the signal and joins the thread, each where it is there, each once, and in
/// this order.
pub proof fn law_signal_goes_before_join<S, T>(shutdown: Shutdown<S, T>)
    ensures
        shutdown_steps(shutdown) == (match shutdown.signal {
            Some(signal) => seq![ShutdownStep::<S, T>::Signal(signal)],
            None => Seq::empty(),
        }) + (match shutdown.join {
            Some(thread) => seq![ShutdownStep::<S, T>::Join(thread)],
            None => Seq::empty(),
        }),
{
    reveal_with_fuel(shutdown_steps, 3);
}

/// A worker that was stopped has finished, whatever is told of a thread: a service that owns it
/// is not running, gives it up when it is asked, and spawns another one when it is started.
pub proof fn law_stopped_worker_does_not_count<C, S, T>(
    config: Arc<C>,
    worker: HighlighterWorker<S, T>,
    thread_finished: bool,
)
    requires
        worker.thread is None,
    ensures
        !is_live(Some(worker), thread_finished),
        step_for(config, Some(worker), thread_finished, ServiceRequest::IsRunning) == (ServiceStep {
            retired: Some(worker),
            next: ServiceNext::<C>::Answer(false),
        }),
        step_for(config, Some(worker), thread_finished, ServiceRequest::Start) == (ServiceStep {
            retired: Some(worker),
            next: ServiceNext::Spawn(config),
        }),
{
}

/// No request loses a worker: the one that was owned is either still owned or handed out to
/// be shut down, and not both; nothing else is handed out.
pub proof fn law_no_worker_is_lost<C, S, T>(
    config: Arc<C>,
    worker: Option<HighlighterWorker<S, T>>,
    thread_finished: bool,
    request: ServiceRequest,
)
    ensures
        ({
            let owned = owned_after(worker, thread_finished, request);
            let retired = step_for(config, worker, thread_finished, request).retired;
            ||| owned == worker && retired is None
            ||| owned is None && retired == worker
        }),
{
}

/// A worker is spawned only where none is owned, so there are never two of them.
pub proof fn law_one_worker_at_most<C, S, T>(
    config: Arc<C>,
    worker: Option<HighlighterWorker<S, T>>,
    thread_finished: bool,
    request: ServiceRequest,
)
    ensures
        step_for(config, worker, thread_finished, request).next is Spawn ==> owned_after(
            worker,
            thread_finished,
            request,
        ) is None,
{
}

/// An answer tells the state that the service is left in.
pub proof fn law_answer_is_the_state<C, S, T>(
    config: Arc<C>,
    worker: Option<HighlighterWorker<S, T>>,
    thread_finished: bool,
    request: ServiceRequest,
    running: bool,
)
    requires
        step_for(config, worker, thread_finished, request).next == ServiceNext::<C>::Answer(
            running,
        ),
    ensures
        running == (owned_after(worker, thread_finished, request) is Some),
{
}

/// A service that is running takes further requests to start without spawning, giving up or
/// changing its worker.
pub proof fn law_start_is_idempotent<C, S, T>(
    config: Arc<C>,
    worker: Option<HighlighterWorker<S, T>>,
    thread_finished: bool,
)
    requires
        is_live(worker, thread_finished),
    ensures
        owned_after(worker, thread_finished, ServiceRequest::Start) == worker,
        step_for(config, worker, thread_finished, ServiceRequest::Start) == (ServiceStep::<
            C,
            S,
            T,
        > { retired: None, next: ServiceNext::Answer(true) }),
{
}

/// Once a worker has been spawned for a request to start, asking whether the service is
/// running gives yes for as long as that worker's thread has not ended, and no from then on.
pub proof fn law_started_service_runs<C, S, T, E>(
    config: Arc<C>,
    spawned: HighlighterWorker<S, T>,
    thread_finished: bool,
)
    requires
        spawned.thread is Some,
    ensures
        step_for(
            config,
            owned_after_spawn(Ok::<HighlighterWorker<S, T>, E>(spawned)),
            thread_finished,
            ServiceRequest::IsRunning,
        ).next == ServiceNext::<C>::Answer(!thread_finished),
{
}

/// A service that was stopped is not running, and stopping it again gives nothing up.
pub proof fn law_stop_is_final<C, S, T>(
    config: Arc<C>,
    worker: Option<HighlighterWorker<S, T>>,
    thread_finished: bool,
)
    ensures
        ({
            let stopped = owned_after(worker, thread_finished, ServiceRequest::Stop);
            &&& step_for(config, stopped, thread_finished, ServiceRequest::IsRunning).next
                == ServiceNext::<C>::Answer(false)
            &&& step_for(config, stopped, thread_finished, ServiceRequest::Stop) == (ServiceStep::<
                C,
                S,
                T,
            > { retired: None, next: ServiceNext::Answer(false) })
        }),
{
}

/// A toggle turns a running service off, and a second one orders a worker to be spawned; with
/// that worker the service is running again.
pub proof fn law_toggle_flips<C, S, T, E>(
    config: Arc<C>,
    worker: Option<HighlighterWorker<S, T>>,
    thread_finished: bool,
    later_finished: bool,
    spawned: HighlighterWorker<S, T>,
)
    ensures
        ({
            let live = is_live(worker, thread_finished);
            let step = step_for(config, worker, thread_finished, ServiceRequest::Toggle);
            let off = owned_after(worker, thread_finished, ServiceRequest::Toggle);
            &&& live ==> step.next == ServiceNext::<C>::Answer(false)
            &&& live ==> step_for(config, off, later_finished, ServiceRequest::Toggle).next
                == ServiceNext::<C>::Spawn(config)
            &&& !live ==> step.next == ServiceNext::<C>::Spawn(config)
            &&& spawned.thread is Some ==> is_live(
                owned_after_spawn(Ok::<HighlighterWorker<S, T>, E>(spawned)),
                false,
            )
        }),
{
}

/// Every worker that is ordered, whatever the request, is to serve from the settings that the
/// service keeps.
pub proof fn law_workers_serve_the_settings<C, S, T>(
    config: Arc<C>,
    worker: Option<HighlighterWorker<S, T>>,
    thread_finished: bool,
    request: ServiceRequest,
    served: Arc<C>,
)
    requires
        step_for(config, worker, thread_finished, request).next == ServiceNext::<C>::Spawn(served),
    ensures
        served == config,
{
}

/// A worker counts as live exactly where it is owned, holds its thread, and the thread has not
/// exited.
pub proof fn law_what_a_live_worker_is<S, T>(
    worker: HighlighterWorker<S, T>,
    thread_finished: bool,
)
    ensures
        !is_live(None::<HighlighterWorker<S, T>>, thread_finished),
        worker.thread is None ==> !is_live(Some(worker), thread_finished),
        worker.thread is Some ==> is_live(Some(worker), thread_finished) == !thread_finished,
{
}

/// What comes of each request, by whether a worker is owned whose thread has not exited. Where
/// there is one, starting and asking keep it and answer yes, and stopping and toggling give it up
/// and answer no. Where there is none, whatever is owned is given up: starting and toggling order
/// a worker that serves the settings, and stopping and asking answer no. Stopping gives up the
/// worker in either case.
pub proof fn law_what_comes_of_a_request<C, S, T>(
    config: Arc<C>,
    worker: Option<HighlighterWorker<S, T>>,
    thread_finished: bool,
    request: ServiceRequest,
)
    ensures
        ({
            let runs = worker is Some && worker->0.thread is Some && !thread_finished;
            let keeps = runs && (request is Start || request is IsRunning);
            let orders = !runs && (request is Start || request is Toggle);
            let step = step_for(config, worker, thread_finished, request);
            let owned = owned_after(worker, thread_finished, request);
            &&& keeps ==> owned == worker && step.retired is None
            &&& !keeps ==> owned is None && step.retired == worker
            &&& orders ==> step.next == ServiceNext::<C>::Spawn(config)
            &&& !orders ==> step.next == ServiceNext::<C>::Answer(keeps)
        }),
{
}

/// A worker that was spawned is owned as it is, and nothing is owned where the spawn failed.
pub proof fn law_spawned_worker_is_owned<S, T, E>(worker: HighlighterWorker<S, T>, error: E)
    ensures
        owned_after_spawn(Ok::<HighlighterWorker<S, T>, E>(worker)) == Some(worker),
        owned_after_spawn(Err::<HighlighterWorker<S, T>, E>(error)) is None,
{
}

} // verus!
