use stacklume::coordinator::{Action, Diagnostic, Event, Phase, ReadinessCoordinator, ReadinessOutcome, TAIL_LINES};
use stacklume::health::{is_healthy, poll_step, HealthPoller, PollStep, MAX_ATTEMPTS, POLL_INTERVAL_MS};
use stacklume::port::{allocate_port, candidate_ports, DEFAULT_PORT};
use stacklume::session::{ServerSession, SessionState, INITIAL_PORT};
use stacklume::supervisor::{child_environment, resolve_resource, toggle_maximize, WindowCommand};
use stacklume::text::{decimal_string, endpoint_url, health_url, tail_lines};

fn probes(ports: &[u16], free: &[bool]) -> Vec<(u16, bool)> {
    ports.iter().cloned().zip(free.iter().cloned()).collect()
}

fn emitted(a: &Action) -> bool {
    matches!(a, Action::Emit { .. })
}

#[test]
fn candidates_are_3001_to_3008() {
    assert_eq!(candidate_ports(), vec![3001, 3002, 3003, 3004, 3005, 3006, 3007, 3008]);
}

#[test]
fn all_free_allocates_first() {
    let c = candidate_ports();
    let p = probes(&c, &[true; 8]);
    assert_eq!(allocate_port(&p), 3001);
}

#[test]
fn all_occupied_falls_back_to_default() {
    let c = candidate_ports();
    let p = probes(&c, &[false; 8]);
    assert_eq!(allocate_port(&p), DEFAULT_PORT);
    assert_eq!(DEFAULT_PORT, 3001);
}

#[test]
fn first_free_in_list_order_wins() {
    let c = candidate_ports();
    let p = probes(&c, &[false, false, false, true, false, true, true, false]);
    assert_eq!(allocate_port(&p), 3004);
    let q = probes(&[9000, 8000, 7000], &[false, true, true]);
    assert_eq!(allocate_port(&q), 8000);
    assert_eq!(allocate_port(&Vec::new()), DEFAULT_PORT);
}

#[test]
fn health_classification() {
    assert!(is_healthy(Some(200)));
    assert!(is_healthy(Some(404)));
    assert!(is_healthy(Some(499)));
    assert!(!is_healthy(Some(500)));
    assert!(!is_healthy(Some(503)));
    assert!(!is_healthy(None));
    assert_eq!(poll_step(0, Some(200)), PollStep::Healthy);
    assert_eq!(poll_step(0, Some(404)), PollStep::Healthy);
    assert_eq!(poll_step(0, None), PollStep::Retry);
    assert_eq!(poll_step(MAX_ATTEMPTS - 1, None), PollStep::TimedOut);
    assert_eq!(poll_step(MAX_ATTEMPTS - 1, Some(200)), PollStep::Healthy);
}

#[test]
fn poller_gives_up_after_budget_of_refusals() {
    assert_eq!(MAX_ATTEMPTS, 80);
    assert_eq!(POLL_INTERVAL_MS, 500);
    let mut poller = HealthPoller::new();
    for _ in 0..79 {
        assert_eq!(poller.record(None), PollStep::Retry);
        assert!(!poller.is_finished());
    }
    assert_eq!(poller.record(None), PollStep::TimedOut);
    assert!(poller.is_finished());
    assert_eq!(poller.attempts(), 80);
}

#[test]
fn poller_retries_then_sees_healthy() {
    let mut poller = HealthPoller::new();
    assert_eq!(poller.record(None), PollStep::Retry);
    assert_eq!(poller.record(Some(502)), PollStep::Retry);
    assert_eq!(poller.record(Some(404)), PollStep::Healthy);
    assert!(poller.is_finished());
    assert_eq!(poller.attempts(), 3);
}

#[test]
fn urls_and_numbers() {
    assert_eq!(decimal_string(0), "0");
    assert_eq!(decimal_string(7), "7");
    assert_eq!(decimal_string(3001), "3001");
    assert_eq!(decimal_string(65535), "65535");
    assert_eq!(endpoint_url(3001), "http://127.0.0.1:3001");
    assert_eq!(health_url(3002), "http://127.0.0.1:3002/api/health");
}

#[test]
fn tail_keeps_last_lines_in_order() {
    let lines: Vec<String> = (1..=25).map(|i| format!("line {}", i)).collect();
    let t = tail_lines(&lines, 20);
    assert_eq!(t.len(), 20);
    assert_eq!(t[0], "line 6");
    assert_eq!(t[19], "line 25");
    let short: Vec<String> = vec!["a".to_string(), "b".to_string()];
    assert_eq!(tail_lines(&short, 20), short);
    assert!(tail_lines(&Vec::new(), 20).is_empty());
    assert!(tail_lines(&short, 0).is_empty());
}

#[test]
fn environment_of_the_server() {
    let env = child_environment(3001, Some("/data/stacklume.db".to_string()));
    let expected: Vec<(String, String)> = vec![
        ("PORT".to_string(), "3001".to_string()),
        ("HOSTNAME".to_string(), "127.0.0.1".to_string()),
        ("DESKTOP_MODE".to_string(), "true".to_string()),
        ("DATABASE_PATH".to_string(), "/data/stacklume.db".to_string()),
        ("NODE_ENV".to_string(), "production".to_string()),
    ];
    assert_eq!(env, expected);
    let fallback = child_environment(3005, None);
    assert_eq!(fallback[0].1, "3005");
    assert_eq!(fallback[3].1, "stacklume.db");
}

#[test]
fn resource_resolution_order() {
    assert_eq!(resolve_resource("a", true, "b", true), "a");
    assert_eq!(resolve_resource("a", false, "b", true), "b");
    assert_eq!(resolve_resource("a", false, "b", false), "a");
    assert_eq!(resolve_resource("a", true, "b", false), "a");
}

#[test]
fn maximize_toggles() {
    assert_eq!(toggle_maximize(Some(true)), WindowCommand::Unmaximize);
    assert_eq!(toggle_maximize(Some(false)), WindowCommand::Maximize);
    assert_eq!(toggle_maximize(None), WindowCommand::Maximize);
}

#[test]
fn port_is_assigned_once() {
    let mut s: ServerSession<u32, isize> = ServerSession::new();
    assert_eq!(s.get_server_port(), INITIAL_PORT);
    assert!(s.assign_port(3004));
    assert!(!s.assign_port(3005));
    assert_eq!(s.get_server_port(), 3004);
}

#[test]
fn terminate_twice_kills_once() {
    let mut s: ServerSession<u32, isize> = ServerSession::new();
    assert!(s.begin_spawn());
    assert_eq!(s.spawned(42), None);
    assert_eq!(s.state(), SessionState::Running);
    assert_eq!(s.keep_container(7), None);
    assert_eq!(s.keep_container(8), Some(8));
    let mut kills = 0;
    if let Some(pid) = s.take_for_termination() {
        assert_eq!(pid, 42);
        kills += 1;
    }
    assert_eq!(s.state(), SessionState::Terminating);
    if s.take_for_termination().is_some() {
        kills += 1;
    }
    assert_eq!(kills, 1);
    assert_eq!(s.mark_terminated(), None);
    assert_eq!(s.state(), SessionState::Terminated);
    assert!(!s.begin_spawn());
    assert_eq!(s.spawned(43), Some(43));
}

#[test]
fn terminate_without_process_is_noop() {
    let mut s: ServerSession<u32, isize> = ServerSession::new();
    assert_eq!(s.take_for_termination(), None);
    assert_eq!(s.state(), SessionState::Unstarted);
    assert!(s.begin_spawn());
    s.spawn_failed();
    assert_eq!(s.state(), SessionState::Terminated);
    assert_eq!(s.take_for_termination(), None);
}

#[test]
fn missing_script_short_circuits() {
    let mut c = ReadinessCoordinator::new();
    let a = c.step(Event::ResourcesChecked { executable: true, script: false });
    match a {
        Action::Emit {
            outcome:
                ReadinessOutcome::Failed {
                    diagnostic: Diagnostic::ResourceMissing { executable_missing, script_missing },
                },
        } => {
            assert!(!executable_missing);
            assert!(script_missing);
        }
        _ => panic!("expected a resource failure"),
    }
    assert!(c.is_done());
    assert!(matches!(c.step(Event::PortAllocated { port: 3001 }), Action::Ignore));
    assert!(matches!(c.step(Event::Spawned), Action::Ignore));
}

#[test]
fn spawn_failure_reports_os_error() {
    let mut c = ReadinessCoordinator::new();
    assert!(matches!(c.step(Event::ResourcesChecked { executable: true, script: true }), Action::AllocatePort));
    assert!(matches!(c.step(Event::PortAllocated { port: 3002 }), Action::Spawn { port: 3002 }));
    match c.step(Event::SpawnFailed { error: "access denied".to_string() }) {
        Action::Emit { outcome: ReadinessOutcome::Failed { diagnostic: Diagnostic::SpawnFailure { error } } } => {
            assert_eq!(error, "access denied")
        }
        _ => panic!("expected a spawn failure"),
    }
    assert!(c.is_done());
}

#[test]
fn scenario_ready_after_three_polls() {
    let c = candidate_ports();
    let p = probes(&c, &[true; 8]);
    let port = allocate_port(&p);
    assert_eq!(port, 3001);
    let mut coord = ReadinessCoordinator::new();
    let mut session: ServerSession<u32, isize> = ServerSession::new();
    assert!(matches!(coord.step(Event::ResourcesChecked { executable: true, script: true }), Action::AllocatePort));
    assert!(session.assign_port(port));
    assert!(matches!(coord.step(Event::PortAllocated { port }), Action::Spawn { port: 3001 }));
    assert!(session.begin_spawn());
    assert_eq!(session.spawned(1234), None);
    assert!(matches!(coord.step(Event::Spawned), Action::InstallGuarantee));
    match coord.step(Event::GuaranteeInstalled { ok: false }) {
        Action::PollHealth { url, delay_ms } => {
            assert_eq!(url, "http://127.0.0.1:3001/api/health");
            assert_eq!(delay_ms, 0);
        }
        _ => panic!("expected a poll"),
    }
    let mut emissions = 0;
    let responses = [None, None, Some(200)];
    let mut last = Action::Ignore;
    for r in responses.iter() {
        last = coord.step(Event::HealthChecked { status: *r });
        if emitted(&last) {
            emissions += 1;
        }
    }
    assert_eq!(emissions, 1);
    match last {
        Action::Emit { outcome: ReadinessOutcome::Ready { url } } => assert_eq!(url, "http://127.0.0.1:3001"),
        _ => panic!("expected ready"),
    }
    assert_eq!(coord.phase(), Phase::Done);
    assert!(!emitted(&coord.step(Event::HealthChecked { status: Some(200) })));
    assert_eq!(session.take_for_termination(), Some(1234));
    assert_eq!(session.mark_terminated(), None);
    assert_eq!(session.state(), SessionState::Terminated);
}

#[test]
fn scenario_timeout_reports_last_twenty_lines() {
    let mut coord = ReadinessCoordinator::new();
    coord.step(Event::ResourcesChecked { executable: true, script: true });
    coord.step(Event::PortAllocated { port: 3001 });
    coord.step(Event::Spawned);
    coord.step(Event::GuaranteeInstalled { ok: true });
    let mut polls = 0;
    let mut emissions = 0;
    let mut asked_output = false;
    for i in 0..80 {
        match coord.step(Event::HealthChecked { status: None }) {
            Action::PollHealth { delay_ms, .. } => {
                assert_eq!(delay_ms, 500);
                polls += 1;
            }
            Action::ReadOutput => {
                assert_eq!(i, 79);
                asked_output = true;
            }
            Action::Emit { .. } => emissions += 1,
            _ => panic!("unexpected action"),
        }
    }
    assert_eq!(polls, 79);
    assert!(asked_output);
    assert_eq!(emissions, 0);
    let lines: Vec<String> = (1..=30).map(|i| format!("out {}", i)).collect();
    match coord.step(Event::OutputRead { lines }) {
        Action::Emit {
            outcome: ReadinessOutcome::Failed { diagnostic: Diagnostic::HealthTimeout { port, tail } },
        } => {
            assert_eq!(port, 3001);
            assert_eq!(tail.len(), TAIL_LINES);
            assert_eq!(tail[0], "out 11");
            assert_eq!(tail[19], "out 30");
        }
        _ => panic!("expected a timeout"),
    }
    assert!(coord.is_done());
    assert!(!emitted(&coord.step(Event::OutputRead { lines: Vec::new() })));
}

#[test]
fn at_most_one_emission_for_mixed_events() {
    let mut coord = ReadinessCoordinator::new();
    let events = vec![
        Event::Spawned,
        Event::ResourcesChecked { executable: true, script: true },
        Event::HealthChecked { status: Some(200) },
        Event::PortAllocated { port: 3003 },
        Event::Spawned,
        Event::SpawnFailed { error: "late".to_string() },
        Event::GuaranteeInstalled { ok: true },
        Event::HealthChecked { status: Some(500) },
        Event::HealthChecked { status: Some(301) },
        Event::SpawnFailed { error: "again".to_string() },
        Event::HealthChecked { status: Some(200) },
    ];
    let mut emissions = 0;
    for e in events {
        if emitted(&coord.step(e)) {
            emissions += 1;
        }
    }
    assert_eq!(emissions, 1);
    assert!(coord.is_done());
}
