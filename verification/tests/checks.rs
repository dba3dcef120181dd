use status_board::checker::{
    classify, latency_ms_of, plan_check, process_check, CheckOutcome, CheckPlan,
    IncidentOp,
};
use status_board::config::{build_app_config, AppConfig, ServiceConfig};
use status_board::state::{ServiceState, ServiceStates, Status};
use status_board::time::{seconds_between, Instant};

const SEC: i64 = 1_000_000_000;

/// The instant `nanos` nanoseconds after the UNIX epoch.
fn t(nanos: i64) -> Instant {
    Instant::new(nanos.div_euclid(SEC), nanos.rem_euclid(SEC) as u32).expect("an instant")
}

fn service() -> ServiceConfig {
    ServiceConfig {
        id: "api".to_string(),
        name: "API".to_string(),
        url: "https://api.example".to_string(),
        category: "core".to_string(),
        check: "http".to_string(),
    }
}

fn config_with_chat() -> AppConfig {
    build_app_config(
        None, None, None, Some("tok".to_string()), Some("chat".to_string()), None, None, None, None, None,
    )
}

fn config_without_chat() -> AppConfig {
    build_app_config(None, None, None, Some("tok".to_string()), None, None, None, None, None, None)
}

fn ok() -> CheckOutcome {
    CheckOutcome::Response { code: 200 }
}

fn fail() -> CheckOutcome {
    CheckOutcome::Response { code: 503 }
}

fn state(status: Status, failures: u32, last_change: i64) -> ServiceState {
    let last_change = t(last_change);
    ServiceState {
        status,
        latency_ms: 0,
        last_check: last_change,
        last_change,
        consecutive_failures: failures,
        last_error: None,
    }
}

fn is_open(op: &IncidentOp, kind: &str) -> bool {
    matches!(op, IncidentOp::Open { kind: k, .. } if k == kind)
}

fn is_close(op: &IncidentOp) -> bool {
    matches!(op, IncidentOp::Close)
}

#[test]
fn latency_keeps_low_bits() {
    assert_eq!(latency_ms_of(250), 250);
    assert_eq!(latency_ms_of((1u128 << 32) + 5), 5);
}

#[test]
fn classify_answers_and_failures() {
    let o = classify(&CheckOutcome::Response { code: 204 }, 3000);
    assert_eq!(o.status, Status::Up);
    assert_eq!(o.error, None);
    assert_eq!(o.http_code, Some(204));

    let o = classify(&CheckOutcome::Response { code: 200 }, 3001);
    assert_eq!(o.status, Status::Degraded);
    assert_eq!(o.error, None);

    let o = classify(&CheckOutcome::Response { code: 404 }, 10);
    assert_eq!(o.status, Status::Down);
    assert_eq!(o.error.as_deref(), Some("HTTP 404"));
    assert_eq!(o.http_code, Some(404));

    let o = classify(&CheckOutcome::Response { code: 199 }, 10);
    assert_eq!(o.status, Status::Down);
    assert_eq!(o.error.as_deref(), Some("HTTP 199"));

    let o = classify(
        &CheckOutcome::Failed { timeout: true, connect: true, message: "x".to_string() },
        10,
    );
    assert_eq!(o.status, Status::Down);
    assert_eq!(o.error.as_deref(), Some("connection timeout"));
    assert_eq!(o.http_code, None);

    let o = classify(
        &CheckOutcome::Failed { timeout: false, connect: true, message: "x".to_string() },
        10,
    );
    assert_eq!(o.error.as_deref(), Some("connection refused"));

    let o = classify(
        &CheckOutcome::Failed { timeout: false, connect: false, message: "dns error".to_string() },
        10,
    );
    assert_eq!(o.error.as_deref(), Some("dns error"));
}

#[test]
fn seconds_round_toward_zero() {
    assert_eq!(seconds_between(t(0), t(2 * SEC - 1)), 1);
    assert_eq!(seconds_between(t(2 * SEC - 1), t(0)), -1);
    assert_eq!(seconds_between(t(-SEC / 2), t(SEC / 2)), 1);
    assert_eq!(seconds_between(t(i64::MIN), t(i64::MAX)), 18446744073);
}

#[test]
fn first_check_is_quiet() {
    let svc = service();
    let cfg = config_with_chat();
    for outcome in [ok(), fail(), CheckOutcome::Response { code: 200 }] {
        let p = plan_check(&svc, None, &outcome, 4000, t(7 * SEC), &cfg);
        assert!(!p.changed);
        assert!(p.incidents.is_empty());
        assert!(p.alert.is_none());
        assert_ne!(p.state.status, Status::Down);
        assert_eq!(p.state.last_change, t(7 * SEC));
        assert_eq!(p.state.last_check, t(7 * SEC));
    }
    let p = plan_check(&svc, None, &fail(), 10, t(0), &cfg);
    assert_eq!(p.state.status, Status::Up);
    assert_eq!(p.state.consecutive_failures, 1);
    assert_eq!(p.state.last_error.as_deref(), Some("HTTP 503"));
    assert_eq!(p.record.status, Status::Down);
    assert_eq!(p.record.latency_ms, None);
    assert_eq!(p.record.http_code, Some(503));
    assert_eq!(p.record.service_id, "api");
}

#[test]
fn record_keeps_observation() {
    let p = plan_check(&service(), None, &ok(), 120, t(0), &config_with_chat());
    assert_eq!(p.record.status, Status::Up);
    assert_eq!(p.record.latency_ms, Some(120));
    assert_eq!(p.record.error, None);
    assert_eq!(p.state.latency_ms, 120);
    assert_eq!(p.state.consecutive_failures, 0);
}

#[test]
fn third_failure_shows_down() {
    let svc = service();
    let cfg = config_with_chat();
    let start = state(Status::Up, 0, 0);
    let p1 = plan_check(&svc, Some(&start), &fail(), 10, t(60 * SEC), &cfg);
    assert_eq!(p1.state.status, Status::Up);
    assert!(!p1.changed);
    let p2 = plan_check(&svc, Some(&p1.state), &fail(), 10, t(120 * SEC), &cfg);
    assert_eq!(p2.state.status, Status::Up);
    assert!(!p2.changed);
    assert!(p2.alert.is_none());
    let p3 = plan_check(&svc, Some(&p2.state), &fail(), 10, t(180 * SEC), &cfg);
    assert_eq!(p3.state.status, Status::Down);
    assert_eq!(p3.state.consecutive_failures, 3);
    assert_eq!(p3.state.latency_ms, 0);
    assert_eq!(p3.state.last_change, t(180 * SEC));
    assert!(p3.changed);
    assert_eq!(p3.incidents.len(), 1);
    assert!(is_open(&p3.incidents[0], "down"));
    match &p3.incidents[0] {
        IncidentOp::Open { error, .. } => assert_eq!(error.as_deref(), Some("HTTP 503")),
        IncidentOp::Close => panic!("expected an opened incident"),
    }
    let alert = p3.alert.expect("an alert");
    assert_eq!(alert.token, "tok");
    assert_eq!(alert.chat_id, "chat");
    assert_eq!(
        alert.text,
        "\u{1f534} <b>DOWN \u{2014} API</b>\nhttps://api.example\nSince: 00:03 UTC\nError: HTTP 503"
    );
    // A fourth failure keeps it down without a new change.
    let p4 = plan_check(&svc, Some(&p3.state), &fail(), 10, t(240 * SEC), &cfg);
    assert_eq!(p4.state.status, Status::Down);
    assert_eq!(p4.state.consecutive_failures, 4);
    assert!(!p4.changed);
    assert_eq!(p4.state.last_change, t(180 * SEC));
}

#[test]
fn recovery_alert_reports_downtime() {
    let svc = service();
    let cfg = config_with_chat();
    let down = state(Status::Down, 5, 1000 * SEC);
    let p = plan_check(&svc, Some(&down), &ok(), 80, t(1000 * SEC + 3725 * SEC + 999), &cfg);
    assert_eq!(p.state.status, Status::Up);
    assert_eq!(p.state.consecutive_failures, 0);
    assert!(p.changed);
    assert_eq!(p.incidents.len(), 1);
    assert!(is_close(&p.incidents[0]));
    let alert = p.alert.expect("an alert");
    assert_eq!(
        alert.text,
        "\u{1f7e2} <b>UP \u{2014} API</b>\nhttps://api.example\nRecovered at: 01:18 UTC\nDowntime: 1h 2min"
    );
}

#[test]
fn slowdown_replaces_incident() {
    let svc = service();
    let cfg = config_with_chat();
    let up = state(Status::Up, 0, 0);
    let p = plan_check(&svc, Some(&up), &ok(), 3500, t(10 * SEC), &cfg);
    assert_eq!(p.state.status, Status::Degraded);
    assert_eq!(p.state.latency_ms, 3500);
    assert!(p.changed);
    assert_eq!(p.incidents.len(), 2);
    assert!(is_close(&p.incidents[0]));
    assert!(is_open(&p.incidents[1], "degraded"));
    assert_eq!(
        p.alert.expect("an alert").text,
        "\u{1f7e1} <b>SLOW \u{2014} API</b>\nhttps://api.example\nLatency: 3500 ms (threshold: 3000 ms)"
    );
}

#[test]
fn no_alert_without_chat() {
    let svc = service();
    let up = state(Status::Up, 0, 0);
    let p = plan_check(&svc, Some(&up), &ok(), 3500, t(10 * SEC), &config_without_chat());
    assert!(p.changed);
    assert!(p.alert.is_none());
    assert_eq!(p.incidents.len(), 2);
}

#[test]
fn failures_while_down_then_success() {
    let svc = service();
    let cfg = config_with_chat();
    let degraded = state(Status::Degraded, 0, 5 * SEC);
    let p = plan_check(&svc, Some(&degraded), &fail(), 10, t(6 * SEC), &cfg);
    // Debounced: still shown degraded, latency kept.
    assert_eq!(p.state.status, Status::Degraded);
    assert_eq!(p.state.latency_ms, 10);
    assert_eq!(p.state.last_change, t(5 * SEC));
    assert_eq!(p.state.last_error.as_deref(), Some("HTTP 503"));
    let p2 = plan_check(&svc, Some(&p.state), &ok(), 20, t(7 * SEC), &cfg);
    assert_eq!(p2.state.status, Status::Up);
    assert_eq!(p2.state.consecutive_failures, 0);
    assert_eq!(p2.state.last_error, None);
    assert!(p2.changed);
}

fn debounced(s: &ServiceState) -> bool {
    (s.status == Status::Down) == (s.consecutive_failures >= 3)
}

#[test]
fn process_check_stores_the_new_state() {
    let svc = service();
    let other = ServiceConfig { id: "web".to_string(), ..service() };
    let cfg = config_with_chat();
    let mut states = ServiceStates::new();
    assert!(states.get("api").is_none());
    let pattern = [fail(), fail(), fail(), ok(), fail(), ok(), fail(), fail(), fail(), fail()];
    let mut changes = Vec::new();
    let mut trailing = 0u32;
    for (i, outcome) in pattern.iter().enumerate() {
        trailing = if matches!(outcome, CheckOutcome::Response { code: 503 }) { trailing + 1 } else { 0 };
        let plan: CheckPlan = process_check(&mut states, &svc, outcome, 50, t((i as i64) * SEC), &cfg);
        let stored = states.get("api").expect("stored");
        assert_eq!(stored.status, plan.state.status);
        assert_eq!(stored.consecutive_failures, plan.state.consecutive_failures);
        assert!(debounced(&stored));
        assert_eq!(stored.consecutive_failures, trailing);
        assert_eq!(stored.status == Status::Down, trailing >= 3);
        if stored.status == Status::Down {
            assert_eq!(stored.latency_ms, 0);
        }
        let key = |x: &Instant| (x.secs(), x.nanos());
        assert!(key(&stored.last_change) <= key(&stored.last_check));
        assert_eq!(stored.last_check, t((i as i64) * SEC));
        changes.push(plan.changed);
    }
    assert_eq!(changes, vec![false, false, true, true, false, false, false, false, true, false]);
    assert!(states.get("web").is_none());
    let _ = process_check(&mut states, &other, &ok(), 50, t(0), &cfg);
    assert_eq!(states.get("api").unwrap().status, Status::Down);
    assert_eq!(states.get("web").unwrap().status, Status::Up);
}

#[test]
fn states_insert_replaces() {
    let mut states = ServiceStates::new();
    states.insert("a".to_string(), state(Status::Up, 0, 1));
    states.insert("a".to_string(), state(Status::Down, 3, 2));
    assert!(states.get("b").is_none());
    let got = states.get("a").unwrap();
    assert_eq!(got.status, Status::Down);
    assert_eq!(got.last_change, t(2));
    let copy = got.clone();
    assert_eq!(copy.consecutive_failures, 3);
}
