//! The polling loop as a state machine.
//!
//! The loop samples, reports, and waits, again and again, until it is
//! cancelled during a wait or a report is refused for good. Sampling,
//! reporting and waiting happen outside: the scheduler says what to do next
//! and is told how it went.

use vstd::prelude::*;
use crate::bucket::BucketError;
use crate::event::{
    built, ActivityEvent, EventView, Timestamp, NANOS_PER_SEC, POLL_INTERVAL_SECS, PULSETIME_SECS,
};
use crate::label::{DesktopLabel, SampleError};
use crate::report::ReportError;

verus! {

/// The number of events read back from the collector after a cancellation.
pub const READ_BACK_LIMIT: u32 = 1;

/// Whether the loop is still going.
#[derive(Clone, Copy, Debug, PartialEq, Eq, Structural)]
pub enum LoopState {
    /// The loop samples and reports.
    Running,
    /// The loop has ended or is about to.
    Terminating,
}

/// Why the loop ended.
#[derive(Clone, Copy, Debug, PartialEq, Eq, Structural)]
pub enum Exit {
    /// The loop was cancelled.
    Cancelled,
    /// The collector refused a report for good.
    Fatal,
}

/// Where the loop stands: what it is waiting to be told.
#[derive(Clone, Copy, Debug, PartialEq, Eq, Structural)]
pub enum Phase {
    /// A sample is being taken.
    Sampling,
    /// A report is on its way.
    Reporting,
    /// The loop waits for the next tick or for a cancellation.
    Waiting,
    /// The loop has ended.
    Stopped(Exit),
}

/// One sample: the label of the active desktop and the instant at which it
/// was read.
#[derive(Debug)]
pub struct Sample {
    /// The label of the active desktop.
    pub label: DesktopLabel,
    /// The instant of the reading.
    pub at: Timestamp,
}

impl Sample {
    /// The sample of the desktop labelled `label` read `nanos` nanoseconds
    /// after the whole second `secs`. A reading of the clock with a second
    /// or more of nanoseconds cannot be reported.
    pub fn at(label: DesktopLabel, secs: i64, nanos: u32) -> (taken: Result<Sample, SampleError>)
        ensures
            match taken {
                Ok(sample) => {
                    &&& nanos < NANOS_PER_SEC
                    &&& sample.label@ == label@
                    &&& sample.at.secs() == secs
                    &&& sample.at.subsec_nanos() == nanos
                },
                Err(error) => nanos >= NANOS_PER_SEC && error == SampleError::Clock,
            },
    {
        match Timestamp::new(secs, nanos) {
            Some(at) => Ok(Sample { label, at }),
            None => Err(SampleError::Clock),
        }
    }
}

/// What the scheduler is told.
#[derive(Debug)]
pub enum Input {
    /// The sample was taken, or failed.
    Sampled(Result<Sample, SampleError>),
    /// The report was accepted, or failed.
    Reported(Result<(), ReportError>),
    /// The wait lasted the whole interval.
    Elapsed,
    /// The wait was cut short by a cancellation.
    Cancelled,
}

/// What the scheduler asks for.
#[derive(Debug)]
pub enum Action {
    /// Take a sample and read the clock.
    Sample,
    /// Send the event as a heartbeat with the given tolerance in seconds.
    Report(ActivityEvent, u32),
    /// Wait for the given number of seconds, or for a cancellation if one
    /// comes first.
    Wait(u32),
    /// Leave the loop.
    Stop(Exit),
}

/// An input as a mathematical value.
pub enum InputView {
    /// The sample was taken, or failed. A sample is its label and its
    /// instant in nanoseconds since the epoch.
    Sampled(Result<(Seq<char>, int), SampleError>),
    /// The report was accepted, or failed.
    Reported(Result<(), ReportError>),
    /// The wait lasted the whole interval.
    Elapsed,
    /// The wait was cut short by a cancellation.
    Cancelled,
}

/// An action as a mathematical value.
pub enum ActionView {
    /// Take a sample and read the clock.
    Sample,
    /// Send the event as a heartbeat with the given tolerance in seconds.
    Report(EventView, nat),
    /// Wait for the given number of seconds, or for a cancellation.
    Wait(nat),
    /// Leave the loop.
    Stop(Exit),
}

impl View for Input {
    type V = InputView;

    open spec fn view(&self) -> InputView {
        match *self {
            Input::Sampled(Ok(sample)) => InputView::Sampled(Ok((sample.label@, sample.at@))),
            Input::Sampled(Err(error)) => InputView::Sampled(Err(error)),
            Input::Reported(outcome) => InputView::Reported(outcome),
            Input::Elapsed => InputView::Elapsed,
            Input::Cancelled => InputView::Cancelled,
        }
    }
}

impl View for Action {
    type V = ActionView;

    open spec fn view(&self) -> ActionView {
        match *self {
            Action::Sample => ActionView::Sample,
            Action::Report(event, pulsetime_secs) => ActionView::Report(
                event@,
                pulsetime_secs as nat,
            ),
            Action::Wait(secs) => ActionView::Wait(secs as nat),
            Action::Stop(exit) => ActionView::Stop(exit),
        }
    }
}

/// The state of the loop in a phase.
pub open spec fn state_of(phase: Phase) -> LoopState {
    match phase {
        Phase::Stopped(_) => LoopState::Terminating,
        _ => LoopState::Running,
    }
}

/// The wait between two ticks.
pub open spec fn tick_wait() -> ActionView {
    ActionView::Wait(POLL_INTERVAL_SECS as nat)
}

/// The step that the loop takes from `phase` when it is told `input`: the
/// next phase and what to do in it. There is none where the input is not
/// what the phase waits for.
///
/// A sample becomes an event and is reported. A failed sample is passed
/// over: the loop waits for the next tick. So is a report that failed for
/// the moment, and its event is dropped. A report that was refused for good
/// ends the loop. A wait that lasts leads to the next sample; a wait that is
/// cancelled ends the loop.
pub open spec fn next(phase: Phase, input: InputView) -> Option<(Phase, ActionView)> {
    match (phase, input) {
        (Phase::Sampling, InputView::Sampled(Ok((label, at)))) => Some(
            (Phase::Reporting, ActionView::Report(built(label, at), PULSETIME_SECS as nat)),
        ),
        (Phase::Sampling, InputView::Sampled(Err(_))) => Some((Phase::Waiting, tick_wait())),
        (Phase::Reporting, InputView::Reported(Ok(_))) => Some((Phase::Waiting, tick_wait())),
        (Phase::Reporting, InputView::Reported(Err(ReportError::Transient))) => Some(
            (Phase::Waiting, tick_wait()),
        ),
        (Phase::Reporting, InputView::Reported(Err(ReportError::Fatal))) => Some(
            (Phase::Stopped(Exit::Fatal), ActionView::Stop(Exit::Fatal)),
        ),
        (Phase::Waiting, InputView::Elapsed) => Some((Phase::Sampling, ActionView::Sample)),
        (Phase::Waiting, InputView::Cancelled) => Some(
            (Phase::Stopped(Exit::Cancelled), ActionView::Stop(Exit::Cancelled)),
        ),
        _ => None,
    }
}

impl Exit {
    /// The status with which the process ends: zero after a cancellation.
    pub fn exit_code(self) -> (code: u8)
        ensures
            code == 0 <==> self == Exit::Cancelled,
            code == 1 <==> self == Exit::Fatal,
    {
        match self {
            Exit::Cancelled => 0,
            Exit::Fatal => 1,
        }
    }

    /// How many of the latest events are read back from the collector before
    /// the process ends: some after a cancellation, none otherwise.
    pub fn read_back(self) -> (limit: Option<u32>)
        ensures
            limit == if self == Exit::Cancelled {
                Some(READ_BACK_LIMIT)
            } else {
                None
            },
    {
        match self {
            Exit::Cancelled => Some(READ_BACK_LIMIT),
            Exit::Fatal => None,
        }
    }
}

/// The polling loop.
#[derive(Debug)]
pub struct Scheduler {
    phase: Phase,
}

impl View for Scheduler {
    type V = Phase;

    closed spec fn view(&self) -> Phase {
        self.phase
    }
}

impl Scheduler {
    /// Starts the loop once the bucket is ready, and asks for the first
    /// sample. Where the bucket could not be made ready there is no loop.
    pub fn start(ready: Result<(), BucketError>) -> (started: Result<(Scheduler, Action), BucketError>)
        ensures
            match ready {
                Ok(_) => started matches Ok((scheduler, action)) && scheduler@ == Phase::Sampling
                    && action@ == ActionView::Sample,
                Err(error) => started matches Err(same) && same == error,
            },
    {
        match ready {
            Ok(_) => Ok((Scheduler { phase: Phase::Sampling }, Action::Sample)),
            Err(error) => Err(error),
        }
    }

    /// Where the loop stands.
    pub fn phase(&self) -> (phase: Phase)
        ensures
            phase == self@,
    {
        self.phase
    }

    /// Whether the loop is still going.
    pub fn state(&self) -> (state: LoopState)
        ensures
            state == state_of(self@),
    {
        match self.phase {
            Phase::Stopped(_) => LoopState::Terminating,
            _ => LoopState::Running,
        }
    }

    /// Takes the step that `input` calls for and says what to do next. An
    /// input that the phase does not wait for is turned down: the result is
    /// `None` and the loop stands where it stood.
    pub fn step(&mut self, input: Input) -> (action: Option<Action>)
        ensures
            match next(old(self)@, input@) {
                Some((phase, asked)) => {
                    &&& final(self)@ == phase
                    &&& action matches Some(a)
                    &&& a@ == asked
                },
                None => final(self)@ == old(self)@ && action is None,
            },
    {
        match (self.phase, input) {
            (Phase::Sampling, Input::Sampled(Ok(sample))) => {
                self.phase = Phase::Reporting;
                Some(Action::Report(ActivityEvent::build(sample.label, sample.at), PULSETIME_SECS))
            },
            (Phase::Sampling, Input::Sampled(Err(_))) => {
                self.phase = Phase::Waiting;
                Some(Action::Wait(POLL_INTERVAL_SECS))
            },
            (Phase::Reporting, Input::Reported(Ok(_))) => {
                self.phase = Phase::Waiting;
                Some(Action::Wait(POLL_INTERVAL_SECS))
            },
            (Phase::Reporting, Input::Reported(Err(ReportError::Transient))) => {
                self.phase = Phase::Waiting;
                Some(Action::Wait(POLL_INTERVAL_SECS))
            },
            (Phase::Reporting, Input::Reported(Err(ReportError::Fatal))) => {
                self.phase = Phase::Stopped(Exit::Fatal);
                Some(Action::Stop(Exit::Fatal))
            },
            (Phase::Waiting, Input::Elapsed) => {
                self.phase = Phase::Sampling;
                Some(Action::Sample)
            },
            (Phase::Waiting, Input::Cancelled) => {
                self.phase = Phase::Stopped(Exit::Cancelled);
                Some(Action::Stop(Exit::Cancelled))
            },
            _ => None,
        }
    }
}

} // verus!
