use status_board::config::{build_app_config, ServiceConfig};
use status_board::routes::{
    authorize_reload, count_available, find_service, health, incident_duration, incident_limit,
    incident_list, overall_status, render_index, service_detail, service_name, service_status,
    status_report, IncidentRow, Overall,
};
use status_board::state::{ServiceState, ServiceStates, Status};
use status_board::time::Instant;
use status_board::state::Status::{Degraded, Down, Up};

const SEC: i64 = 1_000_000_000;

/// The instant `nanos` nanoseconds after the UNIX epoch.
fn t(nanos: i64) -> Instant {
    Instant::new(nanos.div_euclid(SEC), nanos.rem_euclid(SEC) as u32).expect("an instant")
}

fn svc(id: &str, name: &str) -> ServiceConfig {
    ServiceConfig {
        id: id.to_string(),
        name: name.to_string(),
        url: format!("https://{id}.example"),
        category: "core".to_string(),
        check: "http".to_string(),
    }
}

fn st(status: Status, latency_ms: u32, last_check: i64, error: Option<&str>) -> ServiceState {
    ServiceState {
        status,
        latency_ms,
        last_check: t(last_check),
        last_change: t(0),
        consecutive_failures: if status == Status::Down { 3 } else { 0 },
        last_error: error.map(|e| e.to_string()),
    }
}

fn row(service_id: &str, started_at: i64, resolved_at: Option<i64>) -> IncidentRow {
    IncidentRow {
        service_id: service_id.to_string(),
        kind: "down".to_string(),
        started_at: t(started_at),
        resolved_at: resolved_at.map(t),
        error: Some("HTTP 500".to_string()),
    }
}

#[test]
fn health_says_ok() {
    assert_eq!(health(), "ok");
}

#[test]
fn index_page_fills_placeholders() {
    let config = build_app_config(
        None,
        None,
        Some("30".to_string()),
        None,
        None,
        None,
        None,
        Some("Board".to_string()),
        Some("https://s.example".to_string()),
        Some("Footer".to_string()),
    );
    let page = render_index(
        "<title>{{SITE_TITLE}}</title><a href=\"{{SITE_URL}}\">{{SITE_TITLE}}</a><p>{{FOOTER_TEXT}}</p><i>{{CHECK_INTERVAL}}s</i>{{OTHER}}",
        &config,
    );
    assert_eq!(
        page,
        "<title>Board</title><a href=\"https://s.example\">Board</a><p>Footer</p><i>30s</i>{{OTHER}}"
    );
}

#[test]
fn overall_states() {
    assert_eq!(overall_status(&vec![]), Overall::Operational);
    assert_eq!(overall_status(&vec![Up, Up]), Overall::Operational);
    assert_eq!(overall_status(&vec![Up, Degraded]), Overall::PartialDegradation);
    assert_eq!(overall_status(&vec![Up, Up, Down]), Overall::PartialOutage);
    assert_eq!(overall_status(&vec![Up, Down]), Overall::MajorOutage);
    assert_eq!(overall_status(&vec![Degraded, Down, Down]), Overall::MajorOutage);
    assert_eq!(overall_status(&vec![Degraded, Degraded, Down]), Overall::PartialOutage);
    assert_eq!(Overall::MajorOutage.as_str(), "major_outage");
    assert_eq!(Overall::PartialOutage.as_str(), "partial_outage");
    assert_eq!(Overall::PartialDegradation.as_str(), "partial_degradation");
    assert_eq!(Overall::Operational.as_str(), "operational");
}

#[test]
fn operational_only_when_all_up() {
    let cases: Vec<Vec<Status>> = vec![vec![], vec![Up], vec![Up, Degraded], vec![Down], vec![Up, Up, Up]];
    for s in cases {
        let all_up = s.iter().all(|x| *x == Up);
        assert_eq!(overall_status(&s) == Overall::Operational, all_up);
        let some_down = s.iter().any(|x| *x == Down);
        let outage = matches!(overall_status(&s), Overall::PartialOutage | Overall::MajorOutage);
        assert_eq!(outage, some_down);
        assert!(count_available(&s) as usize <= s.len());
    }
}

#[test]
fn available_counts_up_and_degraded() {
    assert_eq!(count_available(&vec![Up, Degraded, Down, Up]), 3);
    assert_eq!(count_available(&vec![]), 0);
}

#[test]
fn status_report_of_the_board() {
    let services = vec![svc("a", "A"), svc("b", "B"), svc("c", "C"), svc("d", "D")];
    let mut states = ServiceStates::new();
    states.insert("a".to_string(), st(Status::Up, 120, 0, None));
    states.insert("b".to_string(), st(Status::Down, 0, SEC, Some("HTTP 500")));
    states.insert("c".to_string(), st(Status::Degraded, 3500, 1_500_000_000, None));
    let last = vec![None, Some(t(60 * SEC)), None, None];
    let report = status_report(&services, &states, &last, t(0));
    assert_eq!(report.total, 4);
    assert_eq!(report.up_count, 3);
    assert_eq!(report.overall, Overall::PartialOutage);
    assert_eq!(report.checked_at, "1970-01-01T00:00:00+00:00");
    let a = &report.services[0];
    assert_eq!((a.id.as_str(), a.name.as_str(), a.category.as_str()), ("a", "A", "core"));
    assert_eq!(a.url, "https://a.example");
    assert_eq!(a.status, Status::Up);
    assert_eq!(a.latency_ms, 120);
    assert_eq!(a.last_check.as_deref(), Some("1970-01-01T00:00:00+00:00"));
    assert_eq!(a.last_incident, None);
    let b = &report.services[1];
    assert_eq!(b.status, Status::Down);
    assert_eq!(b.last_error.as_deref(), Some("HTTP 500"));
    assert_eq!(b.last_check.as_deref(), Some("1970-01-01T00:00:01+00:00"));
    assert_eq!(b.last_incident.as_deref(), Some("1970-01-01T00:01:00+00:00"));
    let c = &report.services[2];
    assert_eq!(c.last_check.as_deref(), Some("1970-01-01T00:00:01.500+00:00"));
    let d = &report.services[3];
    assert_eq!(d.status, Status::Up);
    assert_eq!(d.latency_ms, 0);
    assert_eq!(d.last_check, None);
    assert_eq!(d.last_error, None);
}

#[test]
fn major_outage_when_half_down() {
    let services = vec![svc("a", "A"), svc("b", "B")];
    let mut states = ServiceStates::new();
    states.insert("b".to_string(), st(Status::Down, 0, 0, Some("x")));
    let report = status_report(&services, &states, &vec![None, None], t(0));
    assert_eq!(report.up_count, 1);
    assert_eq!(report.overall, Overall::MajorOutage);
}

#[test]
fn service_status_entry_from_texts() {
    let s = svc("a", "A");
    let state = st(Status::Degraded, 3100, 0, Some("slow"));
    let e = service_status(&s, Some(&state), Some("T1".to_string()), Some("T2".to_string()));
    assert_eq!(e.status, Status::Degraded);
    assert_eq!(e.latency_ms, 3100);
    assert_eq!(e.last_check.as_deref(), Some("T1"));
    assert_eq!(e.last_incident.as_deref(), Some("T2"));
    assert_eq!(e.last_error.as_deref(), Some("slow"));
    let e = service_status(&s, None, Some("T1".to_string()), None);
    assert_eq!(e.status, Status::Up);
    assert_eq!(e.last_check, None);
}

#[test]
fn find_service_first_match_or_not_found() {
    let services = vec![svc("a", "A"), svc("b", "B1"), svc("b", "B2")];
    assert_eq!(find_service(&services, "a").ok(), Some(0));
    assert_eq!(find_service(&services, "b").ok(), Some(1));
    let err = find_service(&services, "zzz").err().expect("not found");
    assert_eq!(err.status, 404);
    assert_eq!(err.message, "service not found: zzz");
}

#[test]
fn incident_durations() {
    assert_eq!(incident_duration(&row("a", 10 * SEC, None)), None);
    assert_eq!(incident_duration(&row("a", 10 * SEC, Some(100 * SEC + 999))), Some(90));
    assert_eq!(incident_duration(&row("a", 10 * SEC, Some(9 * SEC))), Some(-1));
}

#[test]
fn service_detail_of_one_service() {
    let s = svc("api", "API");
    let mut states = ServiceStates::new();
    states.insert("api".to_string(), st(Status::Degraded, 3300, 0, None));
    let samples = vec![(t(60 * SEC), Some(120)), (t(0), None)];
    let incidents = vec![row("api", 0, Some(3600 * SEC)), row("api", 7200 * SEC, None)];
    let d = service_detail(&s, &states, &samples, &incidents);
    assert_eq!((d.id.as_str(), d.name.as_str(), d.url.as_str()), ("api", "API", "https://api.example"));
    assert_eq!(d.status, Status::Degraded);
    assert_eq!(d.latency_ms, 3300);
    assert_eq!(d.latency_24h.len(), 2);
    assert_eq!(d.latency_24h[0].time, "1970-01-01T00:01:00+00:00");
    assert_eq!(d.latency_24h[0].ms, Some(120));
    assert_eq!(d.latency_24h[1].ms, None);
    assert_eq!(d.recent_incidents.len(), 2);
    let first = &d.recent_incidents[0];
    assert_eq!(first.started_at, "1970-01-01T00:00:00+00:00");
    assert_eq!(first.resolved_at.as_deref(), Some("1970-01-01T01:00:00+00:00"));
    assert_eq!(first.duration_secs, Some(3600));
    assert_eq!(first.kind, "down");
    assert_eq!(first.error.as_deref(), Some("HTTP 500"));
    assert_eq!(d.recent_incidents[1].resolved_at, None);
    assert_eq!(d.recent_incidents[1].duration_secs, None);

    let empty = ServiceStates::new();
    let d = service_detail(&s, &empty, &vec![], &vec![]);
    assert_eq!(d.status, Status::Up);
    assert_eq!(d.latency_ms, 0);
}

#[test]
fn service_names_last_wins() {
    let services = vec![svc("a", "First"), svc("b", "B"), svc("a", "Second")];
    assert_eq!(service_name(&services, "a"), "Second");
    assert_eq!(service_name(&services, "b"), "B");
    assert_eq!(service_name(&services, "x"), "unknown");
    assert_eq!(service_name(&vec![], "a"), "unknown");
}

#[test]
fn incident_list_names_services() {
    let services = vec![svc("a", "A")];
    let rows = vec![row("a", 0, Some(61 * SEC)), row("gone", SEC, None)];
    let list = incident_list(&services, &rows);
    assert_eq!(list.len(), 2);
    assert_eq!(list[0].service_id, "a");
    assert_eq!(list[0].service_name, "A");
    assert_eq!(list[0].kind, "down");
    assert_eq!(list[0].started_at, "1970-01-01T00:00:00+00:00");
    assert_eq!(list[0].resolved_at.as_deref(), Some("1970-01-01T00:01:01+00:00"));
    assert_eq!(list[0].duration_secs, Some(61));
    assert_eq!(list[0].error.as_deref(), Some("HTTP 500"));
    assert_eq!(list[1].service_name, "unknown");
    assert_eq!(list[1].duration_secs, None);
}

#[test]
fn incident_limits() {
    assert_eq!(incident_limit(&None), 20);
    assert_eq!(incident_limit(&Some("5".to_string())), 5);
    assert_eq!(incident_limit(&Some("0".to_string())), 0);
    assert_eq!(incident_limit(&Some("abc".to_string())), 20);
    assert_eq!(incident_limit(&Some("-3".to_string())), 20);
    assert_eq!(incident_limit(&Some("4294967295".to_string())), u32::MAX);
    assert_eq!(incident_limit(&Some("4294967296".to_string())), 20);
}

#[test]
fn reload_authorization() {
    let none: Option<String> = None;
    let err = authorize_reload(&none, "Bearer x").err().expect("not found");
    assert_eq!(err.status, 404);
    assert_eq!(err.message, "not found");
    let token = Some("s3cret".to_string());
    assert!(authorize_reload(&token, "Bearer s3cret").is_ok());
    for bad in ["", "Bearer", "Bearer s3cret ", "bearer s3cret", "s3cret", "Bearer s3cre"] {
        let err = authorize_reload(&token, bad).err().expect("unauthorized");
        assert_eq!(err.status, 401);
        assert_eq!(err.message, "unauthorized");
    }
}

#[test]
fn instants_and_their_text() {
    let i = Instant::new(32503680000, 0).expect("year 3000");
    assert_eq!(i.to_rfc3339(), "3000-01-01T00:00:00+00:00");
    assert_eq!((i.secs(), i.nanos()), (32503680000, 0));
    let j = Instant::new(-1, 250_000_000).expect("just before the epoch");
    assert_eq!(j.to_rfc3339(), "1969-12-31T23:59:59.250+00:00");
    assert!(Instant::new(0, 1_000_000_000).is_none());
    assert!(Instant::new(10_000_000_000_000, 0).is_none());
    assert!(Instant::new(i64::MAX, 0).is_none());
    assert!(Instant::new(i64::MIN, 0).is_none());
}
