//! The pipeline coordinator as a state machine.
//!
//! The host starts the workers, watches the channels and joins the threads.
//! After each of these it tells the coordinator what happened, and the
//! coordinator says what to do next.

use vstd::prelude::*;
use crate::errors::{Failure, HprofSlurpError};
use crate::rendered_result::{RenderedResult, ResultView};

verus! {

/// The three pipeline workers, in the order in which they are started and
/// joined.
#[derive(Debug, Clone, Copy, PartialEq, Eq, Structural)]
pub enum Worker {
    Prefetcher,
    Parser,
    Recorder,
}

/// Number of pipeline workers.
pub const WORKER_COUNT: u8 = 3;

/// The worker with the given place in the order.
pub open spec fn worker_at(place: nat) -> Worker {
    if place == 0 {
        Worker::Prefetcher
    } else if place == 1 {
        Worker::Parser
    } else {
        Worker::Recorder
    }
}

/// How a worker ended.
#[derive(Debug, PartialEq, Eq)]
pub enum WorkerExit {
    /// It ran to the end of its input.
    Clean,
    /// It reported a fatal error and stopped.
    Failed { error: HprofSlurpError },
    /// It ended unexpectedly.
    Panicked { message: String },
}

/// What the host does next.
#[derive(Debug, Clone, Copy, PartialEq, Eq, Structural)]
pub enum Action {
    /// Start the worker, then call `worker_started` or `start_failed`.
    Start { worker: Worker },
    /// Wait on the progress channel, then call `progress` or
    /// `progress_closed`.
    Watch,
    /// Move the progress display to `position`, then wait on the progress
    /// channel as for `Watch`.
    Show { position: usize },
    /// Clear the progress display and wait on the result channel, then
    /// call `result_ready` or `result_missing`.
    AwaitResult,
    /// Join the worker, then call `worker_joined`.
    Join { worker: Worker },
    /// Nothing is running any more: call `finish`.
    Finish,
}

/// Where a run stands.
#[derive(Debug, Clone, Copy, PartialEq, Eq, Structural)]
pub enum Phase {
    /// Workers are being started.
    Starting,
    /// All workers run; progress is being displayed.
    Draining,
    /// Progress has ended; the final result is waited for.
    Awaiting,
    /// Workers are being joined.
    Joining,
    /// Every started worker has been joined.
    Done,
}

/// The state of a coordinator as plain values.
pub struct CoordinatorView {
    pub phase: Phase,
    /// Length of the input; the progress display never passes it.
    pub total: nat,
    /// The position that the progress display was last moved to.
    pub shown: nat,
    /// Workers started so far.
    pub started: nat,
    /// Workers joined so far.
    pub joined: nat,
    /// The final result, once received.
    pub result: Option<ResultView>,
    /// The first fatal error observed.
    pub failure: Option<Failure>,
}

/// The failure that a worker's end stands for, if any: the error that it
/// reported, or a concurrency failure if it ended unexpectedly.
pub open spec fn failure_of(exit: WorkerExit) -> Option<Failure> {
    match exit {
        WorkerExit::Clean => None,
        WorkerExit::Failed { error } => Some(error@),
        WorkerExit::Panicked { message } => Some(Failure::StdThreadError { message: message@ }),
    }
}

/// The first of two failures: the earlier one if there is one.
pub open spec fn first_failure(earlier: Option<Failure>, later: Option<Failure>) -> Option<
    Failure,
> {
    if earlier is Some {
        earlier
    } else {
        later
    }
}

/// The position that the display moves to on a progress value: never back,
/// and never past the length of the input.
pub open spec fn next_position(shown: nat, total: nat, processed: nat) -> nat {
    if processed <= shown {
        shown
    } else if processed >= total {
        total
    } else {
        processed
    }
}

impl CoordinatorView {
    /// The state with `joined` workers joined and `failure` as its first
    /// failure: joining goes on while a started worker is left.
    pub open spec fn wind_down(self, joined: nat, failure: Option<Failure>) -> Self {
        CoordinatorView {
            phase: if joined < self.started {
                Phase::Joining
            } else {
                Phase::Done
            },
            joined,
            failure,
            ..self
        }
    }

    /// What the host is told to do in this state.
    pub open spec fn action(self) -> Action {
        match self.phase {
            Phase::Starting => Action::Start { worker: worker_at(self.started) },
            Phase::Draining => Action::Watch,
            Phase::Awaiting => Action::AwaitResult,
            Phase::Joining => Action::Join { worker: worker_at(self.joined) },
            Phase::Done => Action::Finish,
        }
    }

    /// The outcome of a run that has ended in this state: the first fatal
    /// error if there was one, else the result, else a concurrency failure
    /// because the recorder ended without a result.
    pub open spec fn outcome(self) -> Result<ResultView, Failure> {
        match self.failure {
            Some(error) => Err(error),
            None => match self.result {
                Some(result) => Ok(result),
                None => Err(
                    Failure::StdThreadError {
                        message: "result channel closed before a result arrived"@,
                    },
                ),
            },
        }
    }
}

/// Drives one run of the native pipeline.
pub struct Coordinator {
    phase: Phase,
    total: usize,
    shown: usize,
    started: u8,
    joined: u8,
    result: Option<RenderedResult>,
    failure: Option<HprofSlurpError>,
}

impl View for Coordinator {
    type V = CoordinatorView;

    closed spec fn view(&self) -> CoordinatorView {
        CoordinatorView {
            phase: self.phase,
            total: self.total as nat,
            shown: self.shown as nat,
            started: self.started as nat,
            joined: self.joined as nat,
            result: match self.result {
                Some(result) => Some(result@),
                None => None,
            },
            failure: match self.failure {
                Some(error) => Some(error@),
                None => None,
            },
        }
    }
}

impl Coordinator {
    /// The counts agree with the phase: workers are joined only after
    /// starting has ended, never more than were started, and all of them
    /// before the run is done; the display lies within the input.
    pub closed spec fn wf(&self) -> bool {
        &&& self.started <= WORKER_COUNT
        &&& self.joined <= self.started
        &&& self.shown <= self.total
        &&& match self.phase {
            Phase::Starting => self.started < WORKER_COUNT && self.joined == 0,
            Phase::Draining => self.started == WORKER_COUNT && self.joined == 0,
            Phase::Awaiting => self.started == WORKER_COUNT && self.joined == 0,
            Phase::Joining => self.joined < self.started,
            Phase::Done => self.joined == self.started,
        }
    }

    /// A coordinator for an input of `total` bytes. Nothing runs yet; the
    /// first thing to do is `self.action()`: start the prefetcher.
    pub fn new(total: usize) -> (coordinator: Self)
        ensures
            coordinator.wf(),
            coordinator@ == (CoordinatorView {
                phase: Phase::Starting,
                total: total as nat,
                shown: 0,
                started: 0,
                joined: 0,
                result: None,
                failure: None,
            }),
    {
        Coordinator {
            phase: Phase::Starting,
            total,
            shown: 0,
            started: 0,
            joined: 0,
            result: None,
            failure: None,
        }
    }

    /// Where the run stands.
    pub fn phase(&self) -> (phase: Phase)
        ensures
            phase == self@.phase,
    {
        self.phase
    }

    /// The worker with the given place in the order.
    fn worker(place: u8) -> (worker: Worker)
        ensures
            worker == worker_at(place as nat),
    {
        if place == 0 {
            Worker::Prefetcher
        } else if place == 1 {
            Worker::Parser
        } else {
            Worker::Recorder
        }
    }

    /// What to do in the present state.
    pub fn action(&self) -> (action: Action)
        ensures
            action == self@.action(),
    {
        match self.phase {
            Phase::Starting => Action::Start { worker: Self::worker(self.started) },
            Phase::Draining => Action::Watch,
            Phase::Awaiting => Action::AwaitResult,
            Phase::Joining => Action::Join { worker: Self::worker(self.joined) },
            Phase::Done => Action::Finish,
        }
    }

    /// Notes `failure` unless an earlier one is noted already, and goes on
    /// to join what was started.
    fn wind_down(&mut self, joined: u8, failure: Option<HprofSlurpError>)
        requires
            old(self).wf(),
            joined <= old(self).started,
        ensures
            final(self).wf(),
            final(self)@ == old(self)@.wind_down(
                joined as nat,
                first_failure(
                    old(self)@.failure,
                    match failure {
                        Some(error) => Some(error@),
                        None => None,
                    },
                ),
            ),
    {
        if self.failure.is_none() {
            self.failure = failure;
        }
        self.joined = joined;
        self.phase = if joined < self.started {
            Phase::Joining
        } else {
            Phase::Done
        };
    }

    /// The worker asked for is running. The next one is started; after the
    /// last, progress is watched.
    pub fn worker_started(&mut self) -> (action: Action)
        requires
            old(self).wf(),
            old(self)@.phase == Phase::Starting,
        ensures
            final(self).wf(),
            final(self)@ == (CoordinatorView {
                phase: if old(self)@.started + 1 < WORKER_COUNT {
                    Phase::Starting
                } else {
                    Phase::Draining
                },
                started: old(self)@.started + 1,
                ..old(self)@
            }),
            action == final(self)@.action(),
    {
        self.started = self.started + 1;
        if self.started == WORKER_COUNT {
            self.phase = Phase::Draining;
        }
        self.action()
    }

    /// The worker asked for could not be started. No further worker is
    /// started; those that run are joined, and the run ends in an I/O
    /// failure with `reason`.
    pub fn start_failed(&mut self, reason: String) -> (action: Action)
        requires
            old(self).wf(),
            old(self)@.phase == Phase::Starting,
        ensures
            final(self).wf(),
            final(self)@ == old(self)@.wind_down(
                0,
                first_failure(
                    old(self)@.failure,
                    Some(Failure::StdIoError { message: reason@ }),
                ),
            ),
            action == final(self)@.action(),
    {
        self.wind_down(0, Some(HprofSlurpError::StdIoError { message: reason }));
        self.action()
    }

    /// The parser reported `processed`. The display moves there, but never
    /// back and never past the length of the input.
    pub fn progress(&mut self, processed: usize) -> (action: Action)
        requires
            old(self).wf(),
            old(self)@.phase == Phase::Draining,
        ensures
            final(self).wf(),
            final(self)@ == (CoordinatorView {
                shown: next_position(old(self)@.shown, old(self)@.total, processed as nat),
                ..old(self)@
            }),
            action == (Action::Show { position: final(self)@.shown as usize }),
            old(self)@.shown <= processed <= old(self)@.total ==> action == (Action::Show {
                position: processed,
            }),
    {
        if processed > self.shown {
            self.shown = if processed >= self.total {
                self.total
            } else {
                processed
            };
        }
        Action::Show { position: self.shown }
    }

    /// The progress channel is closed: the display is cleared and the
    /// final result waited for.
    pub fn progress_closed(&mut self) -> (action: Action)
        requires
            old(self).wf(),
            old(self)@.phase == Phase::Draining,
        ensures
            final(self).wf(),
            final(self)@ == (CoordinatorView { phase: Phase::Awaiting, ..old(self)@ }),
            action == Action::AwaitResult,
    {
        self.phase = Phase::Awaiting;
        Action::AwaitResult
    }

    /// The recorder sent `result`. It is kept, and the workers are joined.
    pub fn result_ready(&mut self, result: RenderedResult) -> (action: Action)
        requires
            old(self).wf(),
            old(self)@.phase == Phase::Awaiting,
        ensures
            final(self).wf(),
            final(self)@ == (CoordinatorView { result: Some(result@), ..old(self)@ }).wind_down(
                0,
                old(self)@.failure,
            ),
            action == (Action::Join { worker: Worker::Prefetcher }),
    {
        self.result = Some(result);
        self.wind_down(0, None);
        self.action()
    }

    /// The result channel closed without a result. The workers are joined;
    /// their ends say why.
    pub fn result_missing(&mut self) -> (action: Action)
        requires
            old(self).wf(),
            old(self)@.phase == Phase::Awaiting,
        ensures
            final(self).wf(),
            final(self)@ == old(self)@.wind_down(0, old(self)@.failure),
            action == (Action::Join { worker: Worker::Prefetcher }),
    {
        self.wind_down(0, None);
        self.action()
    }

    /// The worker asked for has been joined and ended as `exit` says. The
    /// next started worker is joined; after the last, the run is done.
    pub fn worker_joined(&mut self, exit: WorkerExit) -> (action: Action)
        requires
            old(self).wf(),
            old(self)@.phase == Phase::Joining,
        ensures
            final(self).wf(),
            final(self)@ == old(self)@.wind_down(
                old(self)@.joined + 1,
                first_failure(old(self)@.failure, failure_of(exit)),
            ),
            action == final(self)@.action(),
    {
        let failure = match exit {
            WorkerExit::Clean => None,
            WorkerExit::Failed { error } => Some(error),
            WorkerExit::Panicked { message } => Some(HprofSlurpError::StdThreadError { message }),
        };
        let joined = self.joined + 1;
        self.wind_down(joined, failure);
        self.action()
    }

    /// The outcome of the run, once it is done.
    pub fn finish(self) -> (outcome: Result<RenderedResult, HprofSlurpError>)
        requires
            self.wf(),
            self@.phase == Phase::Done,
        ensures
            match outcome {
                Ok(result) => self@.outcome() == Ok::<ResultView, Failure>(result@),
                Err(error) => self@.outcome() == Err::<ResultView, Failure>(error@),
            },
    {
        match self.failure {
            Some(error) => Err(error),
            None => match self.result {
                Some(result) => Ok(result),
                None => Err(
                    HprofSlurpError::StdThreadError {
                        message: "result channel closed before a result arrived".to_string(),
                    },
                ),
            },
        }
    }
}

/// No worker outlives a run: when a coordinator is done, every worker that
/// was started has been joined.
pub proof fn law_done_means_all_joined(coordinator: Coordinator)
    requires
        coordinator.wf(),
        coordinator@.phase == Phase::Done,
    ensures
        coordinator@.joined == coordinator@.started,
{
}

/// The progress display never moves back and never passes the length of
/// the input, whatever values are reported.
pub proof fn law_display_is_monotone(shown: nat, total: nat, processed: nat)
    requires
        shown <= total,
    ensures
        shown <= next_position(shown, total, processed) <= total,
{
}

/// A run yields a result only if no fatal error was observed, and it
/// yields the first fatal error if one was.
pub proof fn law_first_failure_wins(state: CoordinatorView)
    ensures
        state.failure is Some ==> state.outcome() == Err::<ResultView, Failure>(
            state.failure.unwrap(),
        ),
        state.outcome() matches Ok(result) ==> state.failure is None && state.result == Some(
            result,
        ),
{
}

} // verus!
