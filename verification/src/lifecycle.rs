//! The life of the process, from start to serving or to failure.
//!
//! The process does three things in a fixed order: it sets up logging, it binds
//! the listening socket, and it serves until it is stopped from outside. This
//! module decides what comes next; the caller does the work and reports how it
//! went.

use vstd::prelude::*;

verus! {

/// How far the process has come.
#[derive(Clone, Copy, Debug, PartialEq, Eq, Structural)]
pub enum Phase {
    /// Nothing has been done yet.
    Created,
    /// Logging is set up; no socket is held.
    LoggingReady,
    /// The socket is bound and owned by the listener.
    Listening,
    /// The socket could not be bound. No socket is held, and none will be.
    Failed,
}

/// What the caller reports back after an action.
#[derive(Clone, Copy, Debug, PartialEq, Eq, Structural)]
pub enum Event {
    LoggingInitialised,
    Bound,
    BindFailed,
}

/// What the caller has to do next.
#[derive(Clone, Copy, Debug, PartialEq, Eq, Structural)]
pub enum Action {
    /// Set up logging for the whole process.
    InitLogging,
    /// Bind the listening socket on `bind_address()`.
    Bind,
    /// Accept connections until the process is stopped from outside.
    Serve,
    /// End the process with this exit code.
    Exit { code: u8 },
}

/// The exit code of a process that could not bind its socket.
pub const BIND_FAILURE_EXIT_CODE: u8 = 1;

/// The action that each phase asks for.
pub open spec fn action_of(phase: Phase) -> Action {
    match phase {
        Phase::Created => Action::InitLogging,
        Phase::LoggingReady => Action::Bind,
        Phase::Listening => Action::Serve,
        Phase::Failed => Action::Exit { code: BIND_FAILURE_EXIT_CODE },
    }
}

/// The phase that follows `phase` on `event`, or `None` where the event does
/// not answer the action of the phase.
pub open spec fn step(phase: Phase, event: Event) -> Option<Phase> {
    match (phase, event) {
        (Phase::Created, Event::LoggingInitialised) => Some(Phase::LoggingReady),
        (Phase::LoggingReady, Event::Bound) => Some(Phase::Listening),
        (Phase::LoggingReady, Event::BindFailed) => Some(Phase::Failed),
        _ => None,
    }
}

/// The phase reached from `phase` by `events`, one after the other, or `None`
/// where one of them does not fit.
pub open spec fn run(phase: Phase, events: Seq<Event>) -> Option<Phase>
    decreases events.len(),
{
    if events.len() == 0 {
        Some(phase)
    } else {
        match step(phase, events.first()) {
            Some(next) => run(next, events.drop_first()),
            None => None,
        }
    }
}

/// The phase in which every process begins.
pub fn start() -> (phase: Phase)
    ensures
        phase == Phase::Created,
{
    Phase::Created
}

/// The address that the listener binds: every interface, port 8080.
pub fn bind_address() -> (address: &'static str)
    ensures
        address@ == "0.0.0.0:8080"@,
{
    "0.0.0.0:8080"
}

/// What to do in `phase`.
pub fn next_action(phase: Phase) -> (action: Action)
    ensures
        action == action_of(phase),
{
    match phase {
        Phase::Created => Action::InitLogging,
        Phase::LoggingReady => Action::Bind,
        Phase::Listening => Action::Serve,
        Phase::Failed => Action::Exit { code: BIND_FAILURE_EXIT_CODE },
    }
}

/// Takes the report of the last action and moves on.
pub fn advance(phase: Phase, event: Event) -> (next: Option<Phase>)
    ensures
        next == step(phase, event),
{
    match phase {
        Phase::Created => match event {
            Event::LoggingInitialised => Some(Phase::LoggingReady),
            _ => None,
        },
        Phase::LoggingReady => match event {
            Event::Bound => Some(Phase::Listening),
            Event::BindFailed => Some(Phase::Failed),
            Event::LoggingInitialised => None,
        },
        Phase::Listening => None,
        Phase::Failed => None,
    }
}

/// A failed bind ends the process: the next action is to exit with a code that
/// is not zero, and no event leads anywhere from there, so the bind is never
/// tried again and nothing is ever served.
pub proof fn lemma_bind_failure_is_fatal(event: Event)
    ensures
        step(Phase::LoggingReady, Event::BindFailed) == Some(Phase::Failed),
        action_of(Phase::Failed) matches Action::Exit { code } && code != 0,
        step(Phase::Failed, event).is_none(),
{
}

/// The process exits only after a failed bind, and it serves only after a bind
/// that succeeded.
pub proof fn lemma_actions_by_phase(phase: Phase)
    ensures
        action_of(phase) is Exit <==> phase == Phase::Failed,
        action_of(phase) == Action::Serve <==> phase == Phase::Listening,
        action_of(phase) == Action::Bind <==> phase == Phase::LoggingReady,
        action_of(phase) == Action::InitLogging <==> phase == Phase::Created,
{
}

/// Once the process serves, no event moves it on: there is no way to shut down
/// but to stop the process from outside.
pub proof fn lemma_listening_is_final(event: Event)
    ensures
        step(Phase::Listening, event).is_none(),
{
}

/// From the start there is one way to serve and one way to fail. Logging is set
/// up once, before the bind, and the bind is tried once.
pub proof fn lemma_runs_from_start(events: Seq<Event>)
    ensures
        run(Phase::Created, events) == Some(Phase::Listening) <==> events == seq![
            Event::LoggingInitialised,
            Event::Bound,
        ],
        run(Phase::Created, events) == Some(Phase::Failed) <==> events == seq![
            Event::LoggingInitialised,
            Event::BindFailed,
        ],
        run(Phase::Created, events) == Some(Phase::LoggingReady) <==> events == seq![
            Event::LoggingInitialised,
        ],
        run(Phase::Created, events) == Some(Phase::Created) <==> events.len() == 0,
{
    reveal_with_fuel(run, 4);
    if events.len() >= 1 {
        let rest1 = events.drop_first();
        if events.first() == Event::LoggingInitialised {
            assert(run(Phase::Created, events) == run(Phase::LoggingReady, rest1));
            if rest1.len() == 0 {
                assert(events =~= seq![Event::LoggingInitialised]);
            } else {
                let rest2 = rest1.drop_first();
                assert(events[1] == rest1.first());
                if rest2.len() == 0 {
                    assert(events =~= seq![Event::LoggingInitialised, rest1.first()]);
                } else {
                    assert(events.len() >= 3);
                    assert(run(Phase::Listening, rest2).is_none());
                    assert(run(Phase::Failed, rest2).is_none());
                }
            }
        } else {
            assert(events[0] != Event::LoggingInitialised);
        }
    }
}

} // verus!
