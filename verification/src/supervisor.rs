//! The life of a supervised launch as a state machine.
//!
//! The caller reports events (the process was spawned, the clock shows so
//! many milliseconds, the health check answered with a status) and receives
//! the action to perform next. The machine never performs an effect itself.

use vstd::prelude::*;
use crate::config::{Settings, READY_STATUS};
use crate::slot::ProcessSlot;

verus! {

/// Where the readiness wait stands.
#[derive(Clone, Copy, Debug, PartialEq, Eq)]
pub enum WaitStep {
    /// The time waited so far is about to be held against the timeout.
    Deadline,
    /// A health check is under way.
    Polling,
    /// The pause between two health checks is under way.
    Pausing,
}

/// The phases of a launch.
#[derive(Clone, Copy, Debug, PartialEq, Eq)]
pub enum Phase {
    Unstarted,
    Spawning,
    WaitingReady(WaitStep),
    Ready,
    Running,
    Terminated,
}

/// Why a launch was given up.
#[derive(Clone, Copy, Debug, PartialEq, Eq)]
pub enum ErrorKind {
    /// The service process could not be started.
    SpawnFailure,
    /// The service did not answer a health check with success in time.
    ReadinessTimeout,
}

/// What the caller reports to the machine.
#[derive(Debug, PartialEq, Eq)]
pub enum Event<T> {
    /// The launch is to begin.
    Start,
    /// The service process was spawned; this is its handle.
    Spawned(T),
    /// The service process could not be spawned.
    SpawnFailed,
    /// The readiness wait has lasted this many milliseconds.
    Elapsed(u64),
    /// The health check got an HTTP response with this status.
    Answered(u16),
    /// The health check got no response: connection refused, timed out.
    Unreachable,
    /// The pause is over.
    Paused,
    /// The user interface has taken over.
    GuiStarted,
    /// The user interface has ended.
    GuiExited,
}

/// What the machine asks the caller to do.
#[derive(Debug, PartialEq, Eq)]
pub enum Action<T> {
    /// Spawn the service process, then report `Spawned` or `SpawnFailed`.
    Spawn,
    /// Report how long the readiness wait has lasted, counted from the first
    /// such request.
    ReadClock,
    /// Issue one health check, then report `Answered` or `Unreachable`.
    Poll,
    /// Sleep for this many milliseconds, then report `Paused`.
    Pause(u64),
    /// Hand control to the user interface.
    LaunchGui,
    /// Nothing to do until the user interface ends.
    Await,
    /// Give the launch up for the reason given. A handle in `reap` is to be
    /// killed and waited for.
    Abort { error: ErrorKind, reap: Option<T> },
    /// The launch has come to its regular end. A handle in `reap` is to be
    /// killed and waited for.
    Shutdown { reap: Option<T> },
    /// The event does not belong to the current phase. Nothing changed, and
    /// the event is handed back.
    Ignored(Event<T>),
}

/// The mathematical content of a [`Supervisor`].
pub struct Model<T> {
    pub settings: Settings,
    /// Whether an outside service already runs, so that none is spawned.
    pub skip: bool,
    pub phase: Phase,
    /// The handle of the supervised process, while the supervisor owns it.
    pub slot: Option<T>,
}

/// The state in which every launch begins.
pub open spec fn initial<T>(settings: Settings, skip: bool) -> Model<T> {
    Model { settings, skip, phase: Phase::Unstarted, slot: None }
}

/// The state after `event` in state `m`, and the action that answers it.
pub open spec fn next<T>(m: Model<T>, event: Event<T>) -> (Model<T>, Action<T>) {
    match (m.phase, event) {
        (Phase::Unstarted, Event::Start) => if m.skip {
            (Model { phase: Phase::Ready, ..m }, Action::LaunchGui)
        } else {
            (Model { phase: Phase::Spawning, ..m }, Action::Spawn)
        },
        (Phase::Spawning, Event::Spawned(handle)) => (
            Model { phase: Phase::WaitingReady(WaitStep::Deadline), slot: Some(handle), ..m },
            Action::ReadClock,
        ),
        (Phase::Spawning, Event::SpawnFailed) => (
            Model { phase: Phase::Terminated, slot: None, ..m },
            Action::Abort { error: ErrorKind::SpawnFailure, reap: m.slot },
        ),
        (Phase::WaitingReady(WaitStep::Deadline), Event::Elapsed(millis)) => if millis
            < m.settings.timeout_ms {
            (Model { phase: Phase::WaitingReady(WaitStep::Polling), ..m }, Action::Poll)
        } else {
            (
                Model { phase: Phase::Terminated, slot: None, ..m },
                Action::Abort { error: ErrorKind::ReadinessTimeout, reap: m.slot },
            )
        },
        (Phase::WaitingReady(WaitStep::Polling), Event::Answered(status)) => if status
            == READY_STATUS {
            (Model { phase: Phase::Ready, ..m }, Action::LaunchGui)
        } else {
            (
                Model { phase: Phase::WaitingReady(WaitStep::Pausing), ..m },
                Action::Pause(m.settings.poll_interval_ms),
            )
        },
        (Phase::WaitingReady(WaitStep::Polling), Event::Unreachable) => (
            Model { phase: Phase::WaitingReady(WaitStep::Pausing), ..m },
            Action::Pause(m.settings.poll_interval_ms),
        ),
        (Phase::WaitingReady(WaitStep::Pausing), Event::Paused) => (
            Model { phase: Phase::WaitingReady(WaitStep::Deadline), ..m },
            Action::ReadClock,
        ),
        (Phase::Ready, Event::GuiStarted) => (Model { phase: Phase::Running, ..m }, Action::Await),
        (Phase::Running, Event::GuiExited) => (
            Model { phase: Phase::Terminated, slot: None, ..m },
            Action::Shutdown { reap: m.slot },
        ),
        (_, other) => (m, Action::Ignored(other)),
    }
}

/// The state after termination of `m`, and the handle that termination
/// hands out for killing and reaping.
pub open spec fn terminated<T>(m: Model<T>) -> (Model<T>, Option<T>) {
    (Model { phase: Phase::Terminated, slot: None, ..m }, m.slot)
}

/// The state reached from `m` after the events of `events`, in order.
pub open spec fn run<T>(m: Model<T>, events: Seq<Event<T>>) -> Model<T>
    decreases events.len(),
{
    if events.len() == 0 {
        m
    } else {
        next(run(m, events.drop_last()), events.last()).0
    }
}

/// What holds of every state that a launch can be in: a launch that skips
/// the service never holds a process and never spawns or waits; before the
/// spawn and after termination the slot is empty; a launch that does not
/// skip holds its process from the spawn until termination.
pub open spec fn sound<T>(m: Model<T>) -> bool {
    &&& m.skip ==> m.slot is None && m.phase !is Spawning && m.phase !is WaitingReady
    &&& (m.phase is Unstarted || m.phase is Spawning || m.phase is Terminated) ==> m.slot is None
    &&& (!m.skip && (m.phase is WaitingReady || m.phase is Ready || m.phase is Running))
        ==> m.slot is Some
}

/// Supervises one launch: knows the phase it is in and owns the handle of
/// the service process, if there is one.
pub struct Supervisor<T> {
    settings: Settings,
    skip: bool,
    phase: Phase,
    slot: ProcessSlot<T>,
}

impl<T> View for Supervisor<T> {
    type V = Model<T>;

    closed spec fn view(&self) -> Model<T> {
        Model { settings: self.settings, skip: self.skip, phase: self.phase, slot: self.slot@ }
    }
}

impl<T> Supervisor<T> {
    /// A supervisor that has not started yet. With `skip_server` it will
    /// spawn nothing and go straight to the user interface.
    pub fn new(settings: Settings, skip_server: bool) -> (supervisor: Self)
        ensures
            supervisor@ == initial::<T>(settings, skip_server),
    {
        Supervisor { settings, skip: skip_server, phase: Phase::Unstarted, slot: ProcessSlot::empty() }
    }

    /// The phase the launch is in.
    pub fn phase(&self) -> (phase: Phase)
        ensures
            phase == self@.phase,
    {
        self.phase
    }

    /// The settings the launch was configured with.
    pub fn settings(&self) -> (settings: Settings)
        ensures
            settings == self@.settings,
    {
        self.settings
    }

    /// Whether the supervisor owns the handle of a process.
    pub fn holds_process(&self) -> (holds: bool)
        ensures
            holds == (self@.slot is Some),
    {
        !self.slot.is_empty()
    }

    /// Takes an event and answers with the action to perform.
    pub fn step(&mut self, event: Event<T>) -> (action: Action<T>)
        ensures
            (final(self)@, action) == next(old(self)@, event),
    {
        match self.phase {
            Phase::Unstarted => match event {
                Event::Start => {
                    if self.skip {
                        self.phase = Phase::Ready;
                        Action::LaunchGui
                    } else {
                        self.phase = Phase::Spawning;
                        Action::Spawn
                    }
                },
                other => Action::Ignored(other),
            },
            Phase::Spawning => match event {
                Event::Spawned(handle) => {
                    self.slot = ProcessSlot::holding(handle);
                    self.phase = Phase::WaitingReady(WaitStep::Deadline);
                    Action::ReadClock
                },
                Event::SpawnFailed => {
                    self.phase = Phase::Terminated;
                    let reap = self.slot.release();
                    Action::Abort { error: ErrorKind::SpawnFailure, reap }
                },
                other => Action::Ignored(other),
            },
            Phase::WaitingReady(WaitStep::Deadline) => match event {
                Event::Elapsed(millis) => {
                    if millis < self.settings.timeout_ms {
                        self.phase = Phase::WaitingReady(WaitStep::Polling);
                        Action::Poll
                    } else {
                        self.phase = Phase::Terminated;
                        let reap = self.slot.release();
                        Action::Abort { error: ErrorKind::ReadinessTimeout, reap }
                    }
                },
                other => Action::Ignored(other),
            },
            Phase::WaitingReady(WaitStep::Polling) => match event {
                Event::Answered(status) => {
                    if status == READY_STATUS {
                        self.phase = Phase::Ready;
                        Action::LaunchGui
                    } else {
                        self.phase = Phase::WaitingReady(WaitStep::Pausing);
                        Action::Pause(self.settings.poll_interval_ms)
                    }
                },
                Event::Unreachable => {
                    self.phase = Phase::WaitingReady(WaitStep::Pausing);
                    Action::Pause(self.settings.poll_interval_ms)
                },
                other => Action::Ignored(other),
            },
            Phase::WaitingReady(WaitStep::Pausing) => match event {
                Event::Paused => {
                    self.phase = Phase::WaitingReady(WaitStep::Deadline);
                    Action::ReadClock
                },
                other => Action::Ignored(other),
            },
            Phase::Ready => match event {
                Event::GuiStarted => {
                    self.phase = Phase::Running;
                    Action::Await
                },
                other => Action::Ignored(other),
            },
            Phase::Running => match event {
                Event::GuiExited => {
                    self.phase = Phase::Terminated;
                    let reap = self.slot.release();
                    Action::Shutdown { reap }
                },
                other => Action::Ignored(other),
            },
            Phase::Terminated => Action::Ignored(event),
        }
    }

    /// Ends the launch, in whatever phase it is. A handle that comes back is
    /// to be killed and waited for; it comes back at most once.
    pub fn terminate(&mut self) -> (reap: Option<T>)
        ensures
            (final(self)@, reap) == terminated(old(self)@),
    {
        self.phase = Phase::Terminated;
        self.slot.release()
    }
}

} // verus!
