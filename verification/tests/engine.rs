use probe_client::config::Configure;
use probe_client::config::Identification;
use probe_client::config::RemoteServer;
use probe_client::config::Statistics;
use probe_client::response::JsonResponse;
use probe_client::session::Action;
use probe_client::session::EngineState;
use probe_client::session::Event;
use probe_client::session::Failure;
use probe_client::session::Session;
use probe_client::session::StopReason;

fn config(backups: Vec<&str>, interval: Option<u32>, check_version: Option<bool>) -> Configure {
    Configure {
        server: RemoteServer {
            server_address: String::from("http://primary"),
            token: String::from("token-1"),
            backup_servers: if backups.is_empty() {
                None
            } else {
                Some(backups.into_iter().map(String::from).collect())
            },
            interval,
            check_server_version: check_version,
        },
        statistics: Statistics { enabled: false },
        identification: Some(Identification { token: String::from("id-0") }),
    }
}

fn ok_response() -> Event {
    Event::Response { decoded: Some(JsonResponse::new(String::from("2.0"), 200, None)) }
}

fn response(status: i64, message: &str) -> Event {
    Event::Response {
        decoded: Some(JsonResponse::new(
            String::from("2.0"),
            status,
            Some(String::from(message)),
        )),
    }
}

/// One primary endpoint, no backups, interval 1: a successful registration
/// and three successful heartbeats make four requests in all, and the loop
/// ends cleanly only on the external cancellation.
#[test]
fn scenario_steady_run_stops_only_on_cancellation() {
    let mut s = Session::new(config(vec![], Some(1), None));
    let mut requests = 0;

    let a = s.start();
    assert!(matches!(a, Action::SendRegister));
    requests += 1;

    let a = s.step(ok_response());
    assert!(matches!(a, Action::SendHeartbeat { with_statistics: false }));
    requests += 1;

    for _ in 0..2 {
        let a = s.step(ok_response());
        assert!(matches!(a, Action::Wait { seconds: 1 }));
        let a = s.step(Event::TimerElapsed);
        assert!(matches!(a, Action::SendHeartbeat { .. }));
        requests += 1;
    }
    let a = s.step(ok_response());
    assert!(matches!(a, Action::Wait { seconds: 1 }));

    assert_eq!(requests, 4);
    assert!(!matches!(s.state, EngineState::Stopped));

    let a = s.step(Event::Cancelled);
    assert!(matches!(a, Action::Stop { reason: StopReason::Cancelled }));
    assert!(matches!(s.state, EngineState::Stopped));
}

/// Every heartbeat gets status 500: exactly four heartbeat attempts (the
/// initial one plus three retries) happen before the escalation failure is
/// surfaced; with no endpoint left, the loop stops.
#[test]
fn scenario_persistent_500_escalates_after_four_attempts() {
    let mut s = Session::new(config(vec![], None, None));
    s.start();
    let a = s.step(ok_response());
    assert!(matches!(a, Action::SendHeartbeat { .. }));
    let mut heartbeat_attempts = 1;

    loop {
        let a = s.step(response(500, "server error"));
        match a {
            Action::Wait { seconds } => {
                assert_eq!(seconds, 5);
                let a = s.step(Event::TimerElapsed);
                assert!(matches!(a, Action::SendHeartbeat { .. }));
                heartbeat_attempts += 1;
            }
            Action::Stop { reason } => {
                match reason {
                    StopReason::TooManyRetries(t) => {
                        assert!(matches!(t.last, Failure::Server(e) if e.code == 500));
                    }
                    other => panic!("expected a too-many-retries stop, got {other:?}"),
                }
                break;
            }
            _ => panic!("unexpected action"),
        }
    }
    assert_eq!(heartbeat_attempts, 4);
    assert!(matches!(s.state, EngineState::Stopped));
}

/// A terminal directive on the first heartbeat stops the loop at once:
/// exactly one heartbeat attempt, no retries.
#[test]
fn scenario_terminal_directive_stops_immediately() {
    let mut s = Session::new(config(vec![], None, None));
    s.start();
    let a = s.step(ok_response());
    assert!(matches!(a, Action::SendHeartbeat { .. }));

    let a = s.step(response(4031, "banned"));
    match a {
        Action::Stop { reason: StopReason::Terminal(e) } => {
            assert_eq!(e.status_code, 4031);
            assert_eq!(e.message, "banned");
        }
        other => panic!("expected a terminal stop, got {other:?}"),
    }
    assert!(matches!(s.state, EngineState::Stopped));
}

/// Cancellation delivered while waiting out the backoff exits the loop
/// without another network call.
#[test]
fn cancellation_during_backoff_sends_nothing_more() {
    let mut s = Session::new(config(vec![], None, None));
    s.start();
    s.step(ok_response());
    let a = s.step(Event::Transport);
    assert!(matches!(a, Action::Wait { seconds: 5 }));
    let a = s.step(Event::Cancelled);
    assert!(matches!(a, Action::Stop { reason: StopReason::Cancelled }));
    assert!(matches!(s.state, EngineState::Stopped));
}

/// After escalation the engine rotates to the next endpoint and
/// re-registers; the failure run starts afresh after that registration
/// succeeds.
#[test]
fn escalation_rotates_to_backup_and_reregisters() {
    let mut s = Session::new(config(vec!["http://backup"], None, None));
    s.start();
    s.step(ok_response());
    for _ in 0..3 {
        let a = s.step(Event::Transport);
        assert!(matches!(a, Action::Wait { seconds: 5 }));
        s.step(Event::TimerElapsed);
    }
    let a = s.step(Event::Transport);
    assert!(matches!(a, Action::SendRegister));
    assert!(matches!(s.state, EngineState::Registering));
    assert_eq!(s.server_address.get_unwrap(), "http://backup");

    let a = s.step(ok_response());
    assert!(matches!(a, Action::SendHeartbeat { .. }));
    assert_eq!(s.retry.consecutive_failures, 0);
}

/// A failed registration is surfaced at once; registration is not retried
/// internally.
#[test]
fn register_failure_is_surfaced() {
    let mut s = Session::new(config(vec![], None, None));
    s.start();
    let a = s.step(response(500, "not ready"));
    match a {
        Action::Stop { reason: StopReason::RegisterFailed(Failure::Server(e)) } => {
            assert_eq!(e.code, 500);
            assert_eq!(e.message.as_deref(), Some("not ready"));
        }
        other => panic!("expected a register failure, got {other:?}"),
    }
}

/// A terminal directive at registration stops the run as terminal.
#[test]
fn register_terminal_is_surfaced() {
    let mut s = Session::new(config(vec![], None, None));
    s.start();
    let a = s.step(response(4000, "deregistered"));
    assert!(matches!(a, Action::Stop { reason: StopReason::Terminal(e) }
        if e.status_code == 4000));
}

/// An undecodable heartbeat body counts as a retryable failure.
#[test]
fn undecodable_body_backs_off() {
    let mut s = Session::new(config(vec![], None, None));
    s.start();
    s.step(ok_response());
    let a = s.step(Event::Response { decoded: None });
    assert!(matches!(a, Action::Wait { seconds: 5 }));
    assert_eq!(s.retry.consecutive_failures, 1);
}

/// With version checking enabled, registration pins the observed server
/// version, and a heartbeat reporting a different version is a terminal
/// stop even with status 200.
#[test]
fn version_pin_mismatch_is_terminal() {
    let mut s = Session::new(config(vec![], None, Some(true)));
    s.start();
    s.step(ok_response());
    assert_eq!(s.server_version.as_deref(), Some("2.0"));

    let a = s.step(Event::Response {
        decoded: Some(JsonResponse::new(String::from("2.1"), 200, None)),
    });
    match a {
        Action::Stop { reason: StopReason::Terminal(e) } => {
            assert_eq!(e.status_code, 1);
            assert_eq!(e.message, "server version mismatch");
        }
        other => panic!("expected a terminal stop, got {other:?}"),
    }
}

/// Without the opt-in, no version is pinned and a changed server version
/// is not a mismatch.
#[test]
fn no_pin_without_opt_in() {
    let mut s = Session::new(config(vec![], None, None));
    s.start();
    s.step(ok_response());
    assert!(s.server_version.is_none());
    let a = s.step(Event::Response {
        decoded: Some(JsonResponse::new(String::from("9.9"), 200, None)),
    });
    assert!(matches!(a, Action::Wait { .. }));
}

/// Telemetry is attached to heartbeats exactly when statistics are enabled.
#[test]
fn statistics_gate_controls_payload() {
    let mut cfg = config(vec![], None, None);
    cfg.statistics.enabled = true;
    let mut s = Session::new(cfg);
    s.start();
    let a = s.step(ok_response());
    assert!(matches!(a, Action::SendHeartbeat { with_statistics: true }));
}

/// Full failover run: the primary endpoint keeps failing, the engine
/// escalates, rotates to the backup, re-registers, heartbeats steadily
/// there, and finally stops cleanly on cancellation.
#[test]
fn scenario_failover_then_steady_then_cancel() {
    let mut s = Session::new(config(vec!["http://backup"], Some(2), None));
    s.start();
    s.step(ok_response());
    for _ in 0..3 {
        assert!(matches!(s.step(Event::Transport), Action::Wait { seconds: 5 }));
        s.step(Event::TimerElapsed);
    }
    let a = s.step(Event::Transport);
    assert!(matches!(a, Action::SendRegister));
    assert_eq!(s.server_address.get_unwrap(), "http://backup");

    let a = s.step(ok_response());
    assert!(matches!(a, Action::SendHeartbeat { .. }));
    let a = s.step(ok_response());
    assert!(matches!(a, Action::Wait { seconds: 2 }));
    let a = s.step(Event::Cancelled);
    assert!(matches!(a, Action::Stop { reason: StopReason::Cancelled }));
    assert!(matches!(s.state, EngineState::Stopped));
}
