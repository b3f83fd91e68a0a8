//! What holds of every launch, whatever events arrive and in whatever order.

use vstd::prelude::*;
use crate::config::{Settings, READY_STATUS};
use crate::supervisor::{
    initial, next, run, sound, terminated, Action, ErrorKind, Event, Model, Phase, WaitStep,
};

verus! {

/// Running one more event is running the events before it and then taking
/// one step.
pub proof fn run_push<T>(m: Model<T>, events: Seq<Event<T>>, event: Event<T>)
    ensures
        run(m, events.push(event)) == next(run(m, events), event).0,
{
    assert(events.push(event).drop_last() =~= events);
}

/// A step leads from a sound state to a sound state.
pub proof fn next_keeps_sound<T>(m: Model<T>, event: Event<T>)
    requires
        sound(m),
    ensures
        sound(next(m, event).0),
        next(m, event).0.skip == m.skip,
        next(m, event).0.settings == m.settings,
{
}

/// Every state of every launch is sound, and a launch keeps the
/// configuration it began with.
pub proof fn every_launch_is_sound<T>(settings: Settings, skip: bool, events: Seq<Event<T>>)
    ensures
        sound(run(initial::<T>(settings, skip), events)),
        run(initial::<T>(settings, skip), events).skip == skip,
        run(initial::<T>(settings, skip), events).settings == settings,
    decreases events.len(),
{
    if events.len() > 0 {
        every_launch_is_sound(settings, skip, events.drop_last());
        next_keeps_sound(run(initial::<T>(settings, skip), events.drop_last()), events.last());
    }
}

/// A launch that spawns the service reaches the user interface only after a
/// health check was answered with the success status: if no such answer
/// ever arrives, the launch is never ready.
pub proof fn ready_needs_ok_answer<T>(settings: Settings, events: Seq<Event<T>>)
    ensures
        ({
            let reached = run(initial::<T>(settings, false), events);
            reached.phase is Ready || reached.phase is Running
        }) ==> exists|i: int|
            0 <= i < events.len() && #[trigger] events[i] == Event::<T>::Answered(READY_STATUS),
    decreases events.len(),
{
    if events.len() > 0 {
        let earlier = events.drop_last();
        let before = run(initial::<T>(settings, false), earlier);
        let reached = run(initial::<T>(settings, false), events);
        every_launch_is_sound(settings, false, earlier);
        ready_needs_ok_answer(settings, earlier);
        if reached.phase is Ready || reached.phase is Running {
            if before.phase is Ready || before.phase is Running {
                let i = choose|i: int|
                    0 <= i < earlier.len() && #[trigger] earlier[i] == Event::<T>::Answered(
                        READY_STATUS,
                    );
                assert(events[i] == earlier[i]);
            } else {
                assert(events[events.len() - 1] == Event::<T>::Answered(READY_STATUS));
            }
        }
    }
}

/// The first health check that is answered with the success status ends the
/// wait at once, whatever happened before it: however many checks failed or
/// were answered otherwise, the launch is ready and the user interface is
/// next.
pub proof fn ok_answer_ends_wait<T>(settings: Settings, skip: bool, history: Seq<Event<T>>)
    requires
        run(initial::<T>(settings, skip), history).phase == Phase::WaitingReady(WaitStep::Polling),
    ensures
        run(initial::<T>(settings, skip), history.push(Event::Answered(READY_STATUS))).phase
            == Phase::Ready,
        next(run(initial::<T>(settings, skip), history), Event::Answered(READY_STATUS)).1
            == Action::<T>::LaunchGui,
{
    run_push(initial::<T>(settings, skip), history, Event::Answered(READY_STATUS));
}

/// In a launch that spawns the service, the user interface is asked for
/// only in answer to a health check that succeeded.
pub proof fn gui_follows_ok_answer<T>(m: Model<T>, event: Event<T>)
    requires
        !m.skip,
        next(m, event).1 == Action::<T>::LaunchGui,
    ensures
        m.phase == Phase::WaitingReady(WaitStep::Polling),
        event == Event::<T>::Answered(READY_STATUS),
{
}

/// A health check that fails, or is answered with another status, never
/// ends the wait: a pause of the poll interval follows.
pub proof fn other_answer_keeps_waiting<T>(m: Model<T>, event: Event<T>)
    requires
        m.phase == Phase::WaitingReady(WaitStep::Polling),
        event == Event::<T>::Unreachable || (event matches Event::Answered(status) && status
            != READY_STATUS),
    ensures
        next(m, event).0.phase == Phase::WaitingReady(WaitStep::Pausing),
        next(m, event).1 == Action::<T>::Pause(m.settings.poll_interval_ms),
{
}

/// Termination is idempotent: the first termination hands out the handle
/// that the supervisor held and leaves it terminated and empty, which is a
/// sound state; a second one changes nothing and hands out nothing.
pub proof fn terminate_twice_is_terminate_once<T>(m: Model<T>)
    ensures
        sound(terminated(m).0),
        terminated(m).1 == m.slot,
        terminated(m).0.phase == Phase::Terminated,
        terminated(m).0.slot == None::<T>,
        terminated(terminated(m).0) == (terminated(m).0, None::<T>),
{
}

/// A terminated launch stays terminated and empty, and answers every event
/// by handing it back.
pub proof fn terminated_is_final<T>(m: Model<T>, events: Seq<Event<T>>, event: Event<T>)
    requires
        m.phase == Phase::Terminated,
    ensures
        run(m, events) == m,
        next(run(m, events), event).1 == Action::Ignored(event),
    decreases events.len(),
{
    if events.len() > 0 {
        terminated_is_final(m, events.drop_last(), events.last());
    }
}

/// A launch that skips the service never holds a process and is never asked
/// to spawn one, to poll, to read the clock or to pause; what it hands out
/// for reaping is nothing.
pub proof fn skipping_never_spawns<T>(settings: Settings, events: Seq<Event<T>>, event: Event<T>)
    ensures
        run(initial::<T>(settings, true), events).slot == None::<T>,
        ({
            let action = next(run(initial::<T>(settings, true), events), event).1;
            &&& action !is Spawn
            &&& action !is Poll
            &&& action !is ReadClock
            &&& action !is Pause
            &&& action matches Action::Abort { reap, .. } ==> reap is None
            &&& action matches Action::Shutdown { reap } ==> reap is None
        }),
{
    every_launch_is_sound(settings, true, events);
}

/// A failed spawn ends the launch before any health check: the failure is
/// answered with an abort, and whatever events follow, the launch stays
/// terminated and no further action is asked for.
pub proof fn spawn_failure_ends_launch<T>(m: Model<T>, later: Seq<Event<T>>, event: Event<T>)
    requires
        m.phase == Phase::Spawning,
    ensures
        next(m, Event::SpawnFailed).1 == (Action::Abort {
            error: ErrorKind::SpawnFailure,
            reap: m.slot,
        }),
        run(next(m, Event::SpawnFailed).0, later).phase == Phase::Terminated,
        next(run(next(m, Event::SpawnFailed).0, later), event).1 == Action::Ignored(event),
{
    terminated_is_final(next(m, Event::SpawnFailed).0, later, event);
}

/// The wait gives up exactly when the clock has reached the timeout: below
/// it a health check is next, from it on the launch is aborted and the
/// process handed out for reaping.
pub proof fn deadline_decides<T>(m: Model<T>, millis: u64)
    requires
        m.phase == Phase::WaitingReady(WaitStep::Deadline),
    ensures
        millis < m.settings.timeout_ms ==> next(m, Event::Elapsed(millis)).1 == Action::<T>::Poll,
        millis >= m.settings.timeout_ms ==> next(m, Event::Elapsed(millis)) == (
            Model { phase: Phase::Terminated, slot: None, ..m },
            Action::Abort { error: ErrorKind::ReadinessTimeout, reap: m.slot },
        ),
{
}

} // verus!
