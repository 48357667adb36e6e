use neon_beat_back::events::{end_of_stream, StreamKind};
use neon_beat_back::supervisor::{
    ConnectAttempts, ConnectDecision, Supervisor, SupervisorAction, SupervisorEvent, SupervisorPhase,
};

fn action(install_store: bool, set_degraded: Option<bool>, sleep_ms: u64) -> SupervisorAction {
    SupervisorAction { install_store, set_degraded, sleep_ms }
}

#[test]
fn failed_connections_back_off_up_to_ten_seconds() {
    let mut s = Supervisor::new();
    let mut sleeps = Vec::new();
    for _ in 0..6 {
        let a = s.step(SupervisorEvent::ConnectFailed);
        assert_eq!(s.phase, SupervisorPhase::Connecting);
        sleeps.push(a.sleep_ms);
    }
    assert_eq!(sleeps, vec![1000, 2000, 4000, 8000, 10000, 10000]);
}

#[test]
fn connecting_installs_the_store_and_resets_the_delay() {
    let mut s = Supervisor::new();
    s.step(SupervisorEvent::ConnectFailed);
    s.step(SupervisorEvent::ConnectFailed);
    assert_eq!(s.delay_ms, 4000);
    let a = s.step(SupervisorEvent::ConnectSucceeded);
    assert_eq!(a, action(true, None, 0));
    assert_eq!(s, Supervisor { phase: SupervisorPhase::Monitoring, delay_ms: 1000 });
}

#[test]
fn healthy_checks_leave_degraded_mode() {
    let mut s = Supervisor::new();
    s.step(SupervisorEvent::ConnectSucceeded);
    assert_eq!(s.step(SupervisorEvent::HealthOk { degraded: true }), action(false, Some(false), 5000));
    assert_eq!(s.step(SupervisorEvent::HealthOk { degraded: false }), action(false, None, 5000));
    assert_eq!(s.phase, SupervisorPhase::Monitoring);
}

#[test]
fn three_failed_reconnections_lead_to_a_new_connection() {
    let mut s = Supervisor::new();
    s.step(SupervisorEvent::ConnectSucceeded);
    assert_eq!(s.step(SupervisorEvent::HealthFailed), action(false, None, 0));
    assert_eq!(s.step(SupervisorEvent::ReconnectFailed), action(false, Some(true), 1000));
    assert_eq!(s.step(SupervisorEvent::ReconnectFailed), action(false, None, 2000));
    assert_eq!(s.step(SupervisorEvent::ReconnectFailed), action(false, None, 5000));
    assert_eq!(s, Supervisor { phase: SupervisorPhase::Connecting, delay_ms: 2000 });
}

#[test]
fn a_successful_reconnection_resumes_monitoring() {
    let mut s = Supervisor::new();
    s.step(SupervisorEvent::ConnectSucceeded);
    s.step(SupervisorEvent::HealthFailed);
    s.step(SupervisorEvent::ReconnectFailed);
    assert_eq!(s.step(SupervisorEvent::ReconnectSucceeded), action(false, Some(false), 5000));
    assert_eq!(s.phase, SupervisorPhase::Monitoring);
}

#[test]
fn unexpected_events_change_nothing() {
    let mut s = Supervisor::new();
    assert_eq!(s.step(SupervisorEvent::HealthFailed), action(false, None, 0));
    assert_eq!(s, Supervisor::new());
}

#[test]
fn the_first_connection_gives_up_after_ten_failed_pings() {
    let mut c = ConnectAttempts::new();
    let mut waits = Vec::new();
    for _ in 0..9 {
        match c.on_ping(false) {
            ConnectDecision::RetryAfter { delay_ms } => waits.push(delay_ms),
            other => panic!("unexpected decision {other:?}"),
        }
    }
    assert_eq!(waits, vec![250, 500, 1000, 2000, 4000, 5000, 5000, 5000, 5000]);
    assert_eq!(c.on_ping(false), ConnectDecision::GiveUp { attempts: 10 });
}

#[test]
fn a_successful_ping_connects() {
    let mut c = ConnectAttempts::new();
    c.on_ping(false);
    assert_eq!(c.on_ping(true), ConnectDecision::Connected);
}

#[test]
fn closing_the_admin_stream_releases_its_token() {
    let mut slot = Some("abc".to_string());
    end_of_stream(StreamKind::Public, &mut slot);
    assert_eq!(slot, Some("abc".to_string()));
    end_of_stream(StreamKind::Admin, &mut slot);
    assert_eq!(slot, None);
}
