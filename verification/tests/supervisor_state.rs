use rss_reader::supervisor::state::{
    restart_outcome, LaunchError, LaunchStep, MonitorAction, NotReady, Phase, Probe, Reply,
    Request, RestartError, RestartPlan, Supervisor, HEALTH_INTERVAL_MS, RESTART_CEILING,
    RESTART_GRACE_MS,
};

fn running(port: u16) -> Supervisor {
    let mut s = Supervisor::new();
    assert!(!s.worker_spawned());
    assert!(s.handshake_completed(port));
    s
}

/// One crash that is detected and whose restart spawns a worker that never announces a port.
fn crash_without_recovery(s: &mut Supervisor) -> MonitorAction {
    let action = s.on_probe(Probe::Exited);
    if let MonitorAction::Restart(_) = action {
        s.worker_spawned();
        assert!(s.handshake_timed_out());
    }
    action
}

#[test]
fn timing_constants() {
    assert_eq!(RESTART_CEILING, 5);
    assert_eq!(HEALTH_INTERVAL_MS, 5_000);
    assert_eq!(RESTART_GRACE_MS, 500);
}

#[test]
fn not_ready_before_first_handshake() {
    let mut s = Supervisor::new();
    assert_eq!(s.current_port(), Err(NotReady));
    assert_eq!(s.phase(), Phase::Stopped);
    assert!(!s.owns_handle());
    s.worker_spawned();
    assert_eq!(s.phase(), Phase::Starting);
    assert!(s.owns_handle());
    assert_eq!(s.current_port(), Err(NotReady));
}

#[test]
fn port_is_known_right_after_handshake() {
    let s = running(54213);
    assert_eq!(s.current_port(), Ok(54213));
    assert_eq!(s.phase(), Phase::Running);
    assert_eq!(s.restart_count(), 0);
}

#[test]
fn not_ready_after_detected_crash() {
    let mut s = running(8080);
    let action = s.on_probe(Probe::Exited);
    assert_eq!(
        action,
        MonitorAction::Restart(RestartPlan { reap_stale: true, grace_ms: 500 })
    );
    assert_eq!(s.current_port(), Err(NotReady));
    assert_eq!(s.phase(), Phase::Restarting);
    assert_eq!(s.restart_count(), 1);
}

#[test]
fn alive_and_no_handle_do_nothing() {
    let mut s = running(8080);
    assert_eq!(s.on_probe(Probe::Alive), MonitorAction::Nothing);
    assert_eq!(s.on_probe(Probe::NoHandle), MonitorAction::Nothing);
    assert_eq!(s.current_port(), Ok(8080));
    let mut fresh = Supervisor::new();
    assert_eq!(fresh.on_probe(Probe::NoHandle), MonitorAction::Nothing);
    assert_eq!(fresh.on_probe(Probe::Exited), MonitorAction::Nothing);
    assert_eq!(fresh.phase(), Phase::Stopped);
}

#[test]
fn probe_during_launch_does_nothing() {
    let mut s = Supervisor::new();
    s.worker_spawned();
    assert_eq!(s.on_probe(Probe::Exited), MonitorAction::Nothing);
    assert_eq!(s.phase(), Phase::Starting);
}

#[test]
fn handshake_timeout_kills_worker() {
    let mut s = Supervisor::new();
    s.worker_spawned();
    assert!(s.handshake_timed_out());
    assert_eq!(s.phase(), Phase::Crashed);
    assert_eq!(s.current_port(), Err(NotReady));
    assert!(s.owns_handle());
}

#[test]
fn spawn_failure_is_reported() {
    let mut s = Supervisor::new();
    assert_eq!(s.spawn_failed(), LaunchError::SpawnFailure);
    assert_eq!(s.phase(), Phase::Stopped);
    let mut r = running(1);
    assert_eq!(r.on_probe(Probe::Exited) == MonitorAction::Nothing, false);
    assert_eq!(r.spawn_failed(), LaunchError::SpawnFailure);
    assert_eq!(r.phase(), Phase::Stopped);
    assert_eq!(r.restart_count(), 1);
    assert_eq!(r.on_probe(Probe::NoHandle), MonitorAction::Nothing);
}

#[test]
fn sixth_consecutive_crash_exceeds_limit() {
    let mut s = running(8080);
    for attempt in 1..=5u32 {
        let action = crash_without_recovery(&mut s);
        assert_eq!(
            action,
            MonitorAction::Restart(RestartPlan { reap_stale: true, grace_ms: 500 })
        );
        assert_eq!(s.restart_count(), attempt);
    }
    assert_eq!(s.on_probe(Probe::Exited), MonitorAction::GiveUp);
    assert_eq!(s.phase(), Phase::Failed);
    assert_eq!(s.restart_count(), 5);
    assert!(!s.owns_handle());
    assert_eq!(s.current_port(), Err(NotReady));
    for probe in [Probe::Exited, Probe::Alive, Probe::NoHandle] {
        assert_eq!(s.on_probe(probe), MonitorAction::Nothing);
        assert_eq!(s.phase(), Phase::Failed);
    }
    assert_eq!(s.restart(), Err(RestartError::LimitExceeded));
    assert_eq!(s.restart_count(), 5);
}

#[test]
fn startup_crash_loop_is_bounded() {
    let mut s = Supervisor::new();
    s.worker_spawned();
    assert!(s.handshake_timed_out());
    let mut restarts = 0;
    loop {
        match crash_without_recovery(&mut s) {
            MonitorAction::Restart(_) => restarts += 1,
            MonitorAction::GiveUp => break,
            MonitorAction::Nothing => panic!("a dead worker was ignored"),
        }
    }
    assert_eq!(restarts, 5);
}

#[test]
fn healthy_observation_resets_counter() {
    let mut s = running(8080);
    for _ in 0..2 {
        assert!(matches!(crash_without_recovery(&mut s), MonitorAction::Restart(_)));
    }
    assert!(matches!(s.on_probe(Probe::Exited), MonitorAction::Restart(_)));
    assert_eq!(s.restart_count(), 3);
    s.worker_spawned();
    assert!(s.handshake_completed(9000));
    assert_eq!(s.current_port(), Ok(9000));
    assert_eq!(s.restart_count(), 0);
    for crash in 1..=5u32 {
        let action = crash_without_recovery(&mut s);
        assert!(matches!(action, MonitorAction::Restart(_)), "crash {}", crash);
        assert_eq!(s.restart_count(), crash);
    }
    assert_ne!(s.phase(), Phase::Failed);
}

#[test]
fn stop_clears_state() {
    let mut s = running(8080);
    assert!(s.stop());
    assert_eq!(s.current_port(), Err(NotReady));
    assert_eq!(s.phase(), Phase::Stopped);
    assert_eq!(s.restart_count(), 0);
    assert!(!s.owns_handle());
    assert!(!s.stop());
    let mut starting = Supervisor::new();
    starting.worker_spawned();
    assert!(starting.stop());
    assert!(!starting.handshake_completed(1234));
    assert_eq!(starting.current_port(), Err(NotReady));
    assert!(!starting.handshake_timed_out());
}

#[test]
fn second_start_replaces_worker() {
    let mut s = running(8080);
    assert!(s.worker_spawned());
    assert_eq!(s.current_port(), Err(NotReady));
    assert!(s.handshake_completed(8081));
    assert_eq!(s.current_port(), Ok(8081));
}

#[test]
fn restart_policy_counts_attempts() {
    let mut s = Supervisor::new();
    assert_eq!(s.restart(), Ok(RestartPlan { reap_stale: false, grace_ms: 500 }));
    assert_eq!(s.phase(), Phase::Restarting);
    assert_eq!(s.restart_count(), 1);
    s.worker_spawned();
    assert_eq!(s.restart(), Ok(RestartPlan { reap_stale: true, grace_ms: 500 }));
    assert_eq!(s.restart_count(), 2);
}

#[test]
fn restart_outcome_wraps_launch_errors() {
    assert_eq!(restart_outcome(Ok(8080)), Ok(8080));
    assert_eq!(
        restart_outcome(Err(LaunchError::HandshakeTimeout)),
        Err(RestartError::Launch(LaunchError::HandshakeTimeout))
    );
    assert_eq!(
        restart_outcome(Err(LaunchError::SpawnFailure)),
        Err(RestartError::Launch(LaunchError::SpawnFailure))
    );
}

#[test]
fn requests_are_served_like_the_calls() {
    let mut s = Supervisor::new();
    assert_eq!(s.handle(Request::CurrentPort), Reply::Port(Err(NotReady)));
    assert_eq!(s.handle(Request::WorkerSpawned), Reply::Replaced(false));
    assert_eq!(s.handle(Request::HandshakeCompleted(4000)), Reply::Accepted(true));
    assert_eq!(s.handle(Request::CurrentPort), Reply::Port(Ok(4000)));
    assert_eq!(
        s.handle(Request::Probe(Probe::Exited)),
        Reply::Monitor(MonitorAction::Restart(RestartPlan { reap_stale: true, grace_ms: 500 }))
    );
    assert_eq!(s.handle(Request::SpawnFailed), Reply::LaunchFailed(LaunchError::SpawnFailure));
    assert_eq!(s.handle(Request::WorkerSpawned), Reply::Replaced(false));
    assert_eq!(s.handle(Request::HandshakeTimedOut), Reply::Kill(true));
    assert_eq!(
        s.handle(Request::Restart),
        Reply::Restart(Ok(RestartPlan { reap_stale: true, grace_ms: 500 }))
    );
    assert_eq!(s.handle(Request::Stop), Reply::Stopped(false));
    assert_eq!(s.handle(Request::CurrentPort), Reply::Port(Err(NotReady)));
}

#[test]
fn backend_port_query() {
    let mut s = Supervisor::new();
    assert_eq!(s.get_backend_port(), Err("not ready".to_string()));
    assert_eq!(s.user_message(), Some("backend not available"));
    s.worker_spawned();
    assert_eq!(s.get_backend_port(), Err("not ready".to_string()));
    s.handshake_completed(54213);
    assert_eq!(s.get_backend_port(), Ok(54213));
    assert_eq!(s.user_message(), None);
}

#[test]
fn failed_episode_reports_worker_unavailable() {
    let mut s = running(1);
    while s.phase() != Phase::Failed {
        crash_without_recovery(&mut s);
    }
    assert_eq!(s.user_message(), Some("worker unavailable"));
    assert_eq!(s.get_backend_port(), Err("not ready".to_string()));
    assert!(!s.stop());
    assert_eq!(s.phase(), Phase::Stopped);
    assert_eq!(s.user_message(), Some("backend not available"));
}

#[test]
fn launch_without_announcement_times_out_at_the_deadline() {
    let mut s = Supervisor::new();
    s.worker_spawned();
    assert_eq!(s.await_handshake(0, None, false), LaunchStep::Wait(10_000));
    assert_eq!(s.await_handshake(4_000, None, true), LaunchStep::Wait(6_000));
    assert_eq!(s.await_handshake(9_999, None, true), LaunchStep::Wait(1));
    assert_eq!(s.phase(), Phase::Starting);
    assert_eq!(
        s.await_handshake(10_000, None, true),
        LaunchStep::Done { result: Err(LaunchError::HandshakeTimeout), kill: true }
    );
    assert_eq!(s.phase(), Phase::Crashed);
    assert_eq!(s.current_port(), Err(NotReady));
}

#[test]
fn launch_with_announcement_succeeds() {
    let mut s = Supervisor::new();
    s.worker_spawned();
    assert_eq!(
        s.await_handshake(120, Some(8080), false),
        LaunchStep::Done { result: Ok(8080), kill: false }
    );
    assert_eq!(s.current_port(), Ok(8080));
}

#[test]
fn launch_overtaken_by_stop_fails() {
    let mut s = Supervisor::new();
    s.worker_spawned();
    assert!(s.stop());
    assert_eq!(
        s.await_handshake(120, Some(8080), false),
        LaunchStep::Done { result: Err(LaunchError::HandshakeTimeout), kill: false }
    );
    assert_eq!(s.current_port(), Err(NotReady));
    assert_eq!(
        s.await_handshake(10_000, None, false),
        LaunchStep::Done { result: Err(LaunchError::HandshakeTimeout), kill: false }
    );
    assert_eq!(s.phase(), Phase::Stopped);
}
