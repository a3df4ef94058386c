//! The server's lifecycle: startup configuration, the state machine from
//! binding to termination, and the messages it reports.
use vstd::prelude::*;
use vstd::string::StringExecFns;

verus! {

/// Where the server lifecycle stands.
#[derive(Clone, Copy, Debug, PartialEq, Eq, Structural)]
pub enum Phase {
    /// The listen address is known; nothing is bound yet.
    Unbound,
    /// The listener is bound; its address is to be reported.
    Bound,
    /// Requests are being served.
    Running,
    /// The server loop ended without error.
    Stopped,
    /// Binding failed; no request was ever served.
    BindFailed,
    /// The server loop failed after binding.
    RuntimeFailed,
}

/// What the outside world reports to the lifecycle.
#[derive(Clone, Copy, Debug, PartialEq, Eq, Structural)]
pub enum Event {
    /// The listener was bound.
    BindSucceeded,
    /// The listener could not be bound.
    BindRefused,
    /// The bound address was reported.
    Announced,
    /// The server loop returned without error.
    ServerStopped,
    /// The server loop returned an error.
    ServerFailed,
}

/// What the lifecycle asks the outside world to do next.
#[derive(Clone, Copy, Debug, PartialEq, Eq, Structural)]
pub enum Action {
    /// Log the address that was actually bound.
    AnnounceAddress,
    /// Start serving requests.
    Serve,
    /// Log the attempted address and the cause, and exit with failure.
    ReportBindFailure,
    /// Log the server error and exit with failure.
    ReportRuntimeFailure,
    /// Exit with success.
    ExitSuccess,
    /// Nothing: the event does not apply in this phase.
    Ignore,
}

/// The phase after `event` in `phase`, and the action it calls for.
pub open spec fn next(phase: Phase, event: Event) -> (Phase, Action) {
    match (phase, event) {
        (Phase::Unbound, Event::BindSucceeded) => (Phase::Bound, Action::AnnounceAddress),
        (Phase::Unbound, Event::BindRefused) => (Phase::BindFailed, Action::ReportBindFailure),
        (Phase::Bound, Event::Announced) => (Phase::Running, Action::Serve),
        (Phase::Running, Event::ServerStopped) => (Phase::Stopped, Action::ExitSuccess),
        (Phase::Running, Event::ServerFailed) => (Phase::RuntimeFailed, Action::ReportRuntimeFailure),
        _ => (phase, Action::Ignore),
    }
}

/// The phase after each of `events` in turn, from `phase`.
pub open spec fn run(phase: Phase, events: Seq<Event>) -> Phase
    decreases events.len(),
{
    if events.len() == 0 {
        phase
    } else {
        run(next(phase, events[0]).0, events.drop_first())
    }
}

/// The phase has ended.
pub open spec fn is_terminal(phase: Phase) -> bool {
    phase == Phase::Stopped || phase == Phase::BindFailed || phase == Phase::RuntimeFailed
}

/// The process exit the phase stands for: `Some(true)` for success,
/// `Some(false)` for failure, `None` while the server has not ended.
pub open spec fn exit_outcome(phase: Phase) -> Option<bool> {
    match phase {
        Phase::Stopped => Some(true),
        Phase::BindFailed => Some(false),
        Phase::RuntimeFailed => Some(false),
        _ => None,
    }
}

/// Advances the lifecycle by one event.
pub fn step(phase: Phase, event: Event) -> (r: (Phase, Action))
    ensures
        r == next(phase, event),
{
    match (phase, event) {
        (Phase::Unbound, Event::BindSucceeded) => (Phase::Bound, Action::AnnounceAddress),
        (Phase::Unbound, Event::BindRefused) => (Phase::BindFailed, Action::ReportBindFailure),
        (Phase::Bound, Event::Announced) => (Phase::Running, Action::Serve),
        (Phase::Running, Event::ServerStopped) => (Phase::Stopped, Action::ExitSuccess),
        (Phase::Running, Event::ServerFailed) => (Phase::RuntimeFailed, Action::ReportRuntimeFailure),
        _ => (phase, Action::Ignore),
    }
}

/// The process exit that `phase` stands for.
pub fn exit_success(phase: Phase) -> (r: Option<bool>)
    ensures
        r == exit_outcome(phase),
{
    match phase {
        Phase::Stopped => Some(true),
        Phase::BindFailed => Some(false),
        Phase::RuntimeFailed => Some(false),
        _ => None,
    }
}

/// A terminal phase stays as it is, whatever comes after.
pub proof fn law_terminal_phase_is_final(phase: Phase, events: Seq<Event>)
    requires
        is_terminal(phase),
    ensures
        run(phase, events) == phase,
    decreases events.len(),
{
    if events.len() > 0 {
        law_terminal_phase_is_final(phase, events.drop_first());
    }
}

/// A failed bind reports the failure, ends the server with a failed exit, and
/// no later event brings it to serving requests.
pub proof fn law_bind_failure_never_serves(events: Seq<Event>)
    ensures
        next(Phase::Unbound, Event::BindRefused) == (Phase::BindFailed, Action::ReportBindFailure),
        exit_outcome(run(Phase::Unbound, seq![Event::BindRefused] + events)) == Some(false),
        forall|k: int|
            0 <= k <= events.len() ==> #[trigger] run(Phase::Unbound, seq![Event::BindRefused] + events.take(k))
                != Phase::Running,
{
    assert forall|k: int|
        0 <= k <= events.len() implies #[trigger] run(Phase::Unbound, seq![Event::BindRefused] + events.take(k))
        == Phase::BindFailed by {
        let s = seq![Event::BindRefused] + events.take(k);
        assert(s.drop_first() =~= events.take(k));
        law_terminal_phase_is_final(Phase::BindFailed, events.take(k));
    }
    let s = seq![Event::BindRefused] + events;
    assert(s.drop_first() =~= events);
    law_terminal_phase_is_final(Phase::BindFailed, events);
}

/// The address to listen on: the configured one, else `127.0.0.1:8081`.
pub fn listen_address(configured: Option<&str>) -> (r: String)
    ensures
        r@ == match configured {
            Some(a) => a@,
            None => "127.0.0.1:8081"@,
        },
{
    match configured {
        Some(a) => String::from_str(a),
        None => String::from_str("127.0.0.1:8081"),
    }
}

/// The log filter: the configured one, else `info`.
pub fn log_level(configured: Option<&str>) -> (r: String)
    ensures
        r@ == match configured {
            Some(l) => l@,
            None => "info"@,
        },
{
    match configured {
        Some(l) => String::from_str(l),
        None => String::from_str("info"),
    }
}

/// The message logged when binding to `address` failed because of `cause`.
pub fn bind_failure_message(address: &str, cause: &str) -> (r: String)
    ensures
        r@ == "Failed to bind to "@ + address@ + ": "@ + cause@,
{
    String::from_str("Failed to bind to ").concat(address).concat(": ").concat(cause)
}

/// The message logged when the listener is bound to `address`.
pub fn listening_message(address: &str) -> (r: String)
    ensures
        r@ == "listening on "@ + address@,
{
    String::from_str("listening on ").concat(address)
}

/// The message logged when the server loop failed because of `cause`.
pub fn runtime_failure_message(cause: &str) -> (r: String)
    ensures
        r@ == "Server error: "@ + cause@,
{
    String::from_str("Server error: ").concat(cause)
}

} // verus!
