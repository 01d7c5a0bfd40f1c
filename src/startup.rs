//! The startup sequence: resolve the port, bind, announce, serve.
//!
//! The decisions are a transition function from a phase and an event to the
//! next phase and the action to perform; the caller performs the action and
//! reports back what happened as the next event.
use vstd::prelude::*;

use crate::config::{port_of_text, resolved_port, PortError};

verus! {

/// The exit status of a process whose startup or serving failed.
pub const FAILURE_EXIT_CODE: i32 = 1;

/// Where the server stands.
#[derive(Clone, Copy, Debug, PartialEq, Eq, Structural)]
pub enum Phase {
    /// Nothing is known yet.
    Unconfigured,
    /// The port is chosen and the application state exists.
    Configured { port: u16 },
    /// A socket is bound.
    Listening { port: u16 },
    /// Connections are accepted and dispatched.
    Serving,
    /// The server stopped after a shutdown.
    Terminated,
    /// Startup or serving failed.
    Failed,
}

/// What the caller reports back.
#[derive(Clone, Copy, Debug, PartialEq, Eq)]
pub enum Event {
    /// The port setting was read and resolved.
    PortResolved(Result<u16, PortError>),
    /// The socket asked for is bound.
    Bound,
    /// Binding the socket failed (port in use, permission denied).
    BindFailed,
    /// The bound address was logged.
    Announced,
    /// Serving ended; `clean` tells a shutdown from a failure.
    Stopped { clean: bool },
}

/// What the caller is to do next.
#[derive(Clone, Copy, Debug, PartialEq, Eq)]
pub enum Action {
    /// Bind a TCP listener to the IPv4 address `host` and `port`.
    Bind { host: (u8, u8, u8, u8), port: u16 },
    /// Log the bound address.
    Announce,
    /// Accept connections and dispatch them through the route table.
    Serve,
    /// End the process with this status.
    Exit { code: i32 },
    /// Nothing: the event does not apply to the phase.
    Wait,
}

/// The address on every interface.
pub open spec fn all_interfaces() -> (u8, u8, u8, u8) {
    (0u8, 0u8, 0u8, 0u8)
}

/// The transition table of the startup sequence.
pub open spec fn next(phase: Phase, event: Event) -> (Phase, Action) {
    match (phase, event) {
        (Phase::Unconfigured, Event::PortResolved(Ok(port))) => (
            Phase::Configured { port },
            Action::Bind { host: all_interfaces(), port },
        ),
        (Phase::Unconfigured, Event::PortResolved(Err(_))) => (
            Phase::Failed,
            Action::Exit { code: FAILURE_EXIT_CODE },
        ),
        (Phase::Configured { port }, Event::Bound) => (Phase::Listening { port }, Action::Announce),
        (Phase::Configured { .. }, Event::BindFailed) => (
            Phase::Failed,
            Action::Exit { code: FAILURE_EXIT_CODE },
        ),
        (Phase::Listening { .. }, Event::Announced) => (Phase::Serving, Action::Serve),
        (Phase::Serving, Event::Stopped { clean }) => if clean {
            (Phase::Terminated, Action::Exit { code: 0 })
        } else {
            (Phase::Failed, Action::Exit { code: FAILURE_EXIT_CODE })
        },
        _ => (phase, Action::Wait),
    }
}

/// Takes one step of the startup sequence.
pub fn step(phase: Phase, event: Event) -> (r: (Phase, Action))
    ensures
        r == next(phase, event),
{
    match (phase, event) {
        (Phase::Unconfigured, Event::PortResolved(Ok(port))) => (
            Phase::Configured { port },
            Action::Bind { host: (0, 0, 0, 0), port },
        ),
        (Phase::Unconfigured, Event::PortResolved(Err(_))) => (
            Phase::Failed,
            Action::Exit { code: FAILURE_EXIT_CODE },
        ),
        (Phase::Configured { port }, Event::Bound) => (Phase::Listening { port }, Action::Announce),
        (Phase::Configured { .. }, Event::BindFailed) => (
            Phase::Failed,
            Action::Exit { code: FAILURE_EXIT_CODE },
        ),
        (Phase::Listening { .. }, Event::Announced) => (Phase::Serving, Action::Serve),
        (Phase::Serving, Event::Stopped { clean }) => if clean {
            (Phase::Terminated, Action::Exit { code: 0 })
        } else {
            (Phase::Failed, Action::Exit { code: FAILURE_EXIT_CODE })
        },
        _ => (phase, Action::Wait),
    }
}

/// The phase reached and the actions asked for when `events` arrive in order,
/// starting from `phase`.
pub open spec fn run(phase: Phase, events: Seq<Event>) -> (Phase, Seq<Action>)
    decreases events.len(),
{
    if events.len() == 0 {
        (phase, Seq::empty())
    } else {
        let (after, action) = next(phase, events[0]);
        let (last, actions) = run(after, events.drop_first());
        (last, seq![action] + actions)
    }
}

proof fn lemma_failed_is_final(events: Seq<Event>)
    ensures
        run(Phase::Failed, events).0 == Phase::Failed,
        run(Phase::Failed, events).1.len() == events.len(),
        forall|i: int|
            0 <= i < events.len() ==> #[trigger] run(Phase::Failed, events).1[i] == Action::Wait,
    decreases events.len(),
{
    if events.len() > 0 {
        lemma_failed_is_final(events.drop_first());
        let actions = run(Phase::Failed, events).1;
        let tail = run(Phase::Failed, events.drop_first()).1;
        assert(actions =~= seq![Action::Wait] + tail);
        assert forall|i: int| 0 <= i < events.len() implies #[trigger] actions[i] == Action::Wait by {
            if i > 0 {
                assert(actions[i] == tail[i - 1]);
            }
        }
    }
}

/// A setting that denotes a port makes startup bind that port on every interface.
pub proof fn lemma_valid_port_is_bound(text: Seq<char>, port: u16)
    requires
        port_of_text(text) == Ok::<u16, PortError>(port),
    ensures
        next(Phase::Unconfigured, Event::PortResolved(resolved_port(Some(text)))) == (
            Phase::Configured { port },
            Action::Bind { host: all_interfaces(), port },
        ),
{
}

/// A setting that denotes no port makes startup fail at once with a non-zero
/// exit status, and no socket is bound afterwards, whatever else happens.
pub proof fn lemma_invalid_port_never_binds(text: Seq<char>, later: Seq<Event>)
    requires
        port_of_text(text) is Err,
    ensures
        ({
            let events = seq![Event::PortResolved(resolved_port(Some(text)))] + later;
            let (last, actions) = run(Phase::Unconfigured, events);
            &&& last == Phase::Failed
            &&& actions[0] == Action::Exit { code: FAILURE_EXIT_CODE }
            &&& FAILURE_EXIT_CODE != 0
            &&& forall|i: int| 0 <= i < actions.len() ==> !(#[trigger] actions[i] is Bind)
        }),
{
    let events = seq![Event::PortResolved(resolved_port(Some(text)))] + later;
    assert(events.drop_first() =~= later);
    lemma_failed_is_final(later);
    let actions = run(Phase::Unconfigured, events).1;
    let tail = run(Phase::Failed, later).1;
    assert(actions =~= seq![Action::Exit { code: FAILURE_EXIT_CODE }] + tail);
    assert forall|i: int| 0 <= i < actions.len() implies !(#[trigger] actions[i] is Bind) by {
        if i > 0 {
            assert(actions[i] == tail[i - 1]);
        }
    }
}

} // verus!
