use web_server::lifecycle::{
    bind_failure_message, exit_success, listen_address, listening_message, log_level,
    runtime_failure_message, step, Action, Event, Phase,
};

#[test]
fn normal_startup_reaches_running() {
    let (p, a) = step(Phase::Unbound, Event::BindSucceeded);
    assert_eq!((p, a), (Phase::Bound, Action::AnnounceAddress));
    let (p, a) = step(p, Event::Announced);
    assert_eq!((p, a), (Phase::Running, Action::Serve));
    assert_eq!(exit_success(p), None);
    let (p, a) = step(p, Event::ServerStopped);
    assert_eq!((p, a), (Phase::Stopped, Action::ExitSuccess));
    assert_eq!(exit_success(p), Some(true));
}

#[test]
fn bind_failure_terminates_with_failure() {
    let (p, a) = step(Phase::Unbound, Event::BindRefused);
    assert_eq!((p, a), (Phase::BindFailed, Action::ReportBindFailure));
    assert_eq!(exit_success(p), Some(false));
    for e in [Event::BindSucceeded, Event::Announced, Event::ServerStopped, Event::ServerFailed] {
        assert_eq!(step(p, e), (Phase::BindFailed, Action::Ignore));
    }
    assert_eq!(
        bind_failure_message("127.0.0.1:8081", "Address already in use"),
        "Failed to bind to 127.0.0.1:8081: Address already in use"
    );
}

#[test]
fn runtime_failure_terminates_with_failure() {
    let (p, a) = step(Phase::Running, Event::ServerFailed);
    assert_eq!((p, a), (Phase::RuntimeFailed, Action::ReportRuntimeFailure));
    assert_eq!(exit_success(p), Some(false));
    assert_eq!(runtime_failure_message("boom"), "Server error: boom");
}

#[test]
fn out_of_order_events_are_ignored() {
    assert_eq!(step(Phase::Unbound, Event::ServerFailed), (Phase::Unbound, Action::Ignore));
    assert_eq!(step(Phase::Bound, Event::BindRefused), (Phase::Bound, Action::Ignore));
}

#[test]
fn configuration_defaults() {
    assert_eq!(listen_address(None), "127.0.0.1:8081");
    assert_eq!(listen_address(Some("0.0.0.0:9000")), "0.0.0.0:9000");
    assert_eq!(log_level(None), "info");
    assert_eq!(log_level(Some("debug")), "debug");
    assert_eq!(listening_message("127.0.0.1:8081"), "listening on 127.0.0.1:8081");
}
