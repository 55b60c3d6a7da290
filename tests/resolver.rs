use opencode_desktop::log_buffer::{LogBuffer, Stream};
use opencode_desktop::resolver::{
    health_url, is_healthy_status, Action, Endpoint, Event, Failure, Outcome, Phase, Resolver,
    RetryDecision, LOCAL_START_TIMEOUT_MS, POLL_INTERVAL_MS,
};

fn finish(a: Option<Action>) -> Outcome {
    match a {
        Some(Action::Finish(o)) => o,
        _ => panic!("expected the pass to finish"),
    }
}

#[test]
fn reachable_local_port_skips_spawn() {
    let mut r = Resolver::new(None, 4096);
    assert!(matches!(r.start(), Action::ProbeLocal { port: 4096 }));
    let o = finish(r.step(Event::LocalProbed { reachable: true, elapsed_ms: 0 }));
    assert!(matches!(o, Outcome::Ready(Endpoint::Local { port: 4096 })));
    assert!(!r.spawned());
    assert_eq!(r.phase(), Phase::Done);
}

#[test]
fn healthy_remote_is_used_without_spawning() {
    let mut r = Resolver::new(Some("https://example.com/".to_string()), 4096);
    match r.start() {
        Action::ProbeRemote { health_url } => assert_eq!(health_url, "https://example.com/health"),
        _ => panic!("expected a health check"),
    }
    let o = finish(r.step(Event::RemoteProbed { healthy: true }));
    match o {
        Outcome::Ready(Endpoint::Remote { url }) => assert_eq!(url, "https://example.com/"),
        _ => panic!("expected the remote endpoint"),
    }
    assert!(!r.spawned());
    assert!(r.step(Event::Spawned).is_none());
}

#[test]
fn unhealthy_remote_and_cancel_fails() {
    let mut r = Resolver::new(Some("http://10.0.0.1:4096".to_string()), 4096);
    r.start();
    for _ in 0..3 {
        match r.step(Event::RemoteProbed { healthy: false }) {
            Some(Action::AskUser { url }) => assert_eq!(url, "http://10.0.0.1:4096"),
            _ => panic!("expected a prompt"),
        }
        assert!(matches!(
            r.step(Event::Decided(RetryDecision::Retry)),
            Some(Action::ProbeRemote { .. })
        ));
    }
    r.step(Event::RemoteProbed { healthy: false });
    let o = finish(r.step(Event::Decided(RetryDecision::Cancel)));
    assert!(matches!(o, Outcome::Failed(Failure::UserCancelled)));
    assert_eq!(o.status(), Err("user cancelled".to_string()));
    assert!(!r.spawned());
}

#[test]
fn fallback_to_local_keeps_spawned_process() {
    let mut r = Resolver::new(Some("http://down".to_string()), 5000);
    r.start();
    r.step(Event::RemoteProbed { healthy: false });
    assert!(matches!(
        r.step(Event::Decided(RetryDecision::FallbackToLocal)),
        Some(Action::Spawn { port: 5000 })
    ));
    assert!(r.spawned());
    let mut a = r.step(Event::Spawned);
    let mut elapsed = 0;
    // becomes reachable after 50 ms
    loop {
        match a {
            Some(Action::PollLocal { port: 5000, delay_ms }) => {
                assert_eq!(delay_ms, POLL_INTERVAL_MS);
                elapsed += delay_ms;
                a = r.step(Event::LocalProbed { reachable: elapsed >= 50, elapsed_ms: elapsed });
            }
            Some(Action::Settle { delay_ms: 10 }) => break,
            _ => panic!("unexpected action"),
        }
    }
    let o = finish(r.step(Event::Settled));
    assert!(matches!(o, Outcome::Ready(Endpoint::Local { port: 5000 })));
    assert!(r.spawned());
}

#[test]
fn local_start_times_out_with_logs() {
    let mut logs = LogBuffer::new();
    logs.record(Stream::Stderr, "error: address in use\n");
    let mut r = Resolver::new(None, 6000);
    r.start();
    assert!(matches!(
        r.step(Event::LocalProbed { reachable: false, elapsed_ms: 0 }),
        Some(Action::Spawn { port: 6000 })
    ));
    let mut a = r.step(Event::Spawned);
    let mut elapsed = 0;
    let mut polls = 0;
    while let Some(Action::PollLocal { .. }) = a {
        elapsed += POLL_INTERVAL_MS;
        polls += 1;
        a = r.step(Event::LocalProbed { reachable: false, elapsed_ms: elapsed });
    }
    assert!(matches!(a, Some(Action::ReadLogs)));
    assert!(elapsed > LOCAL_START_TIMEOUT_MS && elapsed <= LOCAL_START_TIMEOUT_MS + POLL_INTERVAL_MS);
    assert_eq!(polls, 701);
    let o = finish(r.step(Event::LogsRead { logs: logs.contents() }));
    let msg = o.status().unwrap_err();
    assert_eq!(msg, "Failed to spawn OpenCode Server. Logs:\n[STDERR] error: address in use\n");
    assert!(msg.contains("address in use"));
}

#[test]
fn spawn_failure_ends_the_pass() {
    let mut r = Resolver::new(None, 6000);
    r.start();
    r.step(Event::LocalProbed { reachable: false, elapsed_ms: 0 });
    let o = finish(r.step(Event::SpawnFailed { reason: "no such file".to_string() }));
    assert_eq!(o.status(), Err("Failed to spawn OpenCode Server: no such file".to_string()));
}

#[test]
fn unexpected_event_changes_nothing() {
    let mut r = Resolver::new(None, 1);
    assert!(r.step(Event::Settled).is_none());
    assert_eq!(r.phase(), Phase::Init);
    r.start();
    assert!(r.step(Event::RemoteProbed { healthy: true }).is_none());
    assert_eq!(r.phase(), Phase::CheckingLocal);
}

#[test]
fn health_url_trims_trailing_slashes() {
    assert_eq!(health_url("http://localhost:4096"), "http://localhost:4096/health");
    assert_eq!(health_url("http://localhost:4096///"), "http://localhost:4096/health");
    assert_eq!(health_url(""), "/health");
}

#[test]
fn only_2xx_is_healthy() {
    assert!(is_healthy_status(Some(200)));
    assert!(is_healthy_status(Some(204)));
    assert!(is_healthy_status(Some(299)));
    assert!(!is_healthy_status(Some(199)));
    assert!(!is_healthy_status(Some(300)));
    assert!(!is_healthy_status(Some(503)));
    assert!(!is_healthy_status(None));
}
