//! What the HTTP endpoints answer: the index page, the status report, the
//! detail of one service, the incident list and the reload authorization.

use vstd::prelude::*;
use crate::checker::previous_state;
use crate::config::{parse_unsigned, parse_unsigned_text, AppConfig, ServiceConfig};
use crate::state::{ServiceState, ServiceStateView, ServiceStates, Status};
use crate::text::{
    clone_optional_text, decimal, lemma_replace_all_shorter_text, lemma_replace_all_whole_pattern,
    lemma_replace_all_without_first_char, push_decimal, replace_all, replace_text,
};
use crate::time::{instant_nanos, instant_text, seconds_between, whole_seconds, Instant};

verus! {

/// An error answer: the HTTP status code and the message.
pub struct ApiError {
    pub status: u16,
    pub message: String,
}

/// The answer of the health endpoint.
pub fn health() -> (res: &'static str)
    ensures
        res@ == "ok"@,
{
    "ok"
}

/// The index page: the template with the site title, site URL, footer text
/// and check interval put in place of their placeholders.
pub open spec fn index_page(template: Seq<char>, config: AppConfig) -> Seq<char> {
    replace_all(
        replace_all(
            replace_all(
                replace_all(template, "{{SITE_TITLE}}"@, config.site_title@),
                "{{SITE_URL}}"@,
                config.site_url@,
            ),
            "{{FOOTER_TEXT}}"@,
            config.footer_text@,
        ),
        "{{CHECK_INTERVAL}}"@,
        decimal(config.check_interval_secs as nat),
    )
}

/// Fills the index page template from the settings.
pub fn render_index(template: &str, config: &AppConfig) -> (res: String)
    ensures
        res@ == index_page(template@, *config),
{
    proof {
        reveal_strlit("{{SITE_TITLE}}");
        reveal_strlit("{{SITE_URL}}");
        reveal_strlit("{{FOOTER_TEXT}}");
        reveal_strlit("{{CHECK_INTERVAL}}");
    }
    let a = replace_text(template, "{{SITE_TITLE}}", config.site_title.as_str());
    let b = replace_text(a.as_str(), "{{SITE_URL}}", config.site_url.as_str());
    let c = replace_text(b.as_str(), "{{FOOTER_TEXT}}", config.footer_text.as_str());
    let mut interval = String::new();
    push_decimal(&mut interval, config.check_interval_secs);
    replace_text(c.as_str(), "{{CHECK_INTERVAL}}", interval.as_str())
}

/// Whether a text has no '{' (so it holds no placeholder).
pub open spec fn has_no_brace(s: Seq<char>) -> bool {
    forall|i: int| 0 <= i < s.len() ==> s[i] != '{'
}

proof fn lemma_decimal_has_no_brace(n: nat)
    ensures
        has_no_brace(decimal(n)),
    decreases n,
{
    if n >= 10 {
        lemma_decimal_has_no_brace(n / 10);
    }
}

/// Law: each placeholder is replaced by its setting whatever the setting is,
/// the empty text included: a page that is just `{{SITE_TITLE}}` renders as
/// the site title, and one that is just `{{SITE_URL}}` renders as the site
/// URL (for settings that hold no placeholder of their own).
pub proof fn lemma_placeholders_become_settings(config: AppConfig)
    requires
        has_no_brace(config.site_title@),
        has_no_brace(config.site_url@),
    ensures
        index_page("{{SITE_TITLE}}"@, config) == config.site_title@,
        index_page("{{SITE_URL}}"@, config) == config.site_url@,
{
    reveal_strlit("{{SITE_TITLE}}");
    reveal_strlit("{{SITE_URL}}");
    reveal_strlit("{{FOOTER_TEXT}}");
    reveal_strlit("{{CHECK_INTERVAL}}");
    let title = config.site_title@;
    let url = config.site_url@;
    let footer = config.footer_text@;
    let interval = decimal(config.check_interval_secs as nat);
    lemma_decimal_has_no_brace(config.check_interval_secs as nat);

    lemma_replace_all_whole_pattern("{{SITE_TITLE}}"@, title);
    lemma_replace_all_without_first_char(title, "{{SITE_URL}}"@, url);
    lemma_replace_all_without_first_char(title, "{{FOOTER_TEXT}}"@, footer);
    lemma_replace_all_without_first_char(title, "{{CHECK_INTERVAL}}"@, interval);

    lemma_replace_all_shorter_text("{{SITE_URL}}"@, "{{SITE_TITLE}}"@, title);
    lemma_replace_all_whole_pattern("{{SITE_URL}}"@, url);
    lemma_replace_all_without_first_char(url, "{{FOOTER_TEXT}}"@, footer);
    lemma_replace_all_without_first_char(url, "{{CHECK_INTERVAL}}"@, interval);
}

/// The overall state of the board.
#[derive(Clone, Copy, Debug, PartialEq, Eq, Structural)]
pub enum Overall {
    Operational,
    PartialDegradation,
    PartialOutage,
    MajorOutage,
}

/// The word for an overall state, as reported.
pub open spec fn overall_text(o: Overall) -> Seq<char> {
    match o {
        Overall::Operational => "operational"@,
        Overall::PartialDegradation => "partial_degradation"@,
        Overall::PartialOutage => "partial_outage"@,
        Overall::MajorOutage => "major_outage"@,
    }
}

impl Overall {
    /// The word for this overall state.
    pub fn as_str(&self) -> (res: &'static str)
        ensures
            res@ == overall_text(*self),
    {
        match self {
            Overall::Operational => "operational",
            Overall::PartialDegradation => "partial_degradation",
            Overall::PartialOutage => "partial_outage",
            Overall::MajorOutage => "major_outage",
        }
    }
}

/// The status shown for service `id`: its stored status, or up before its first check.
pub open spec fn board_status(states: Map<Seq<char>, ServiceStateView>, id: Seq<char>) -> Status {
    if states.contains_key(id) {
        states[id].status
    } else {
        Status::Up
    }
}

/// The statuses shown for the services, in order.
pub open spec fn board_statuses(services: Seq<ServiceConfig>, states: Map<Seq<char>, ServiceStateView>) -> Seq<Status> {
    Seq::new(services.len(), |i: int| board_status(states, services[i].id@))
}

/// How many of the statuses are up or degraded.
pub open spec fn available_count(s: Seq<Status>) -> nat
    decreases s.len(),
{
    if s.len() == 0 {
        0
    } else {
        available_count(s.drop_last()) + if s.last() != Status::Down { 1nat } else { 0nat }
    }
}

/// Whether one of the statuses is `st`.
pub open spec fn has_status(s: Seq<Status>, st: Status) -> bool {
    exists|i: int| 0 <= i < s.len() && s[i] == st
}

/// The overall state: an outage when a service is down, major when at most
/// half of the services are available; else a degradation when one is
/// degraded; else operational.
pub open spec fn overall_of(s: Seq<Status>) -> Overall {
    if has_status(s, Status::Down) {
        if 2 * available_count(s) <= s.len() {
            Overall::MajorOutage
        } else {
            Overall::PartialOutage
        }
    } else if has_status(s, Status::Degraded) {
        Overall::PartialDegradation
    } else {
        Overall::Operational
    }
}

proof fn lemma_available_count_step(s: Seq<Status>, i: int)
    requires
        0 <= i < s.len(),
    ensures
        available_count(s.take(i + 1)) == available_count(s.take(i)) + if s[i] != Status::Down { 1nat } else { 0nat },
{
    assert(s.take(i + 1).drop_last() =~= s.take(i));
}

/// Law: the number of available services never exceeds the number of services.
pub proof fn lemma_available_count_bound(s: Seq<Status>)
    ensures
        available_count(s) <= s.len(),
    decreases s.len(),
{
    if s.len() > 0 {
        lemma_available_count_bound(s.drop_last());
    }
}

/// Law: the board is operational exactly when every service is shown up.
pub proof fn lemma_operational_iff_all_up(s: Seq<Status>)
    ensures
        (overall_of(s) == Overall::Operational) == (forall|i: int| 0 <= i < s.len() ==> s[i] == Status::Up),
{
    if forall|i: int| 0 <= i < s.len() ==> s[i] == Status::Up {
        assert(!has_status(s, Status::Down));
        assert(!has_status(s, Status::Degraded));
    } else {
        let i = choose|i: int| 0 <= i < s.len() && s[i] != Status::Up;
        assert(s[i] == Status::Down || s[i] == Status::Degraded);
    }
}

/// Law: the board reports an outage (partial or major) exactly when some
/// service is shown down.
pub proof fn lemma_outage_iff_some_down(s: Seq<Status>)
    ensures
        (overall_of(s) == Overall::PartialOutage || overall_of(s) == Overall::MajorOutage) == has_status(s, Status::Down),
{
}

/// How many of the statuses are up or degraded.
pub fn count_available(statuses: &Vec<Status>) -> (res: u32)
    requires
        statuses@.len() <= u32::MAX,
    ensures
        res == available_count(statuses@),
{
    let n = statuses.len();
    let mut count: u32 = 0;
    let mut i: usize = 0;
    while i < n
        invariant
            n == statuses@.len(),
            n <= u32::MAX,
            i <= n,
            count == available_count(statuses@.take(i as int)),
        decreases n - i,
    {
        proof {
            lemma_available_count_step(statuses@, i as int);
            lemma_available_count_bound(statuses@.take(i as int));
        }
        if statuses[i] != Status::Down {
            count = count + 1;
        }
        i = i + 1;
    }
    assert(statuses@.take(n as int) =~= statuses@);
    count
}

/// The overall state of the board for the shown statuses.
pub fn overall_status(statuses: &Vec<Status>) -> (res: Overall)
    requires
        statuses@.len() <= u32::MAX,
    ensures
        res == overall_of(statuses@),
{
    let n = statuses.len();
    let mut has_down = false;
    let mut has_degraded = false;
    let mut i: usize = 0;
    while i < n
        invariant
            n == statuses@.len(),
            i <= n,
            has_down == exists|j: int| 0 <= j < i && statuses@[j] == Status::Down,
            has_degraded == exists|j: int| 0 <= j < i && statuses@[j] == Status::Degraded,
        decreases n - i,
    {
        if statuses[i] == Status::Down {
            has_down = true;
        }
        if statuses[i] == Status::Degraded {
            has_degraded = true;
        }
        i = i + 1;
    }
    if has_down {
        let up = count_available(statuses);
        if (up as u64) * 2 <= n as u64 {
            Overall::MajorOutage
        } else {
            Overall::PartialOutage
        }
    } else if has_degraded {
        Overall::PartialDegradation
    } else {
        Overall::Operational
    }
}

/// One service in the status report.
pub struct ServiceStatus {
    pub id: String,
    pub name: String,
    pub url: String,
    pub category: String,
    pub status: Status,
    pub latency_ms: u32,
    pub last_check: Option<String>,
    pub last_incident: Option<String>,
    pub last_error: Option<String>,
}

/// The status report of the whole board.
pub struct StatusReport {
    pub overall: Overall,
    pub checked_at: String,
    pub up_count: u32,
    pub total: u32,
    pub services: Vec<ServiceStatus>,
}

/// Whether `entry` reports `service`, whose state is `state` (`None` before its
/// first check), with `last_check` the text of the state's check time and
/// `last_incident` the text of the start of its latest incident.
pub open spec fn is_service_status(
    entry: ServiceStatus,
    service: ServiceConfig,
    state: Option<ServiceStateView>,
    last_check: Option<Seq<char>>,
    last_incident: Option<Seq<char>>,
) -> bool {
    &&& entry.id@ == service.id@
    &&& entry.name@ == service.name@
    &&& entry.url@ == service.url@
    &&& entry.category@ == service.category@
    &&& entry.status == match state {
        Some(s) => s.status,
        None => Status::Up,
    }
    &&& entry.latency_ms == match state {
        Some(s) => s.latency_ms,
        None => 0,
    }
    &&& entry.last_check.deep_view() == match state {
        Some(_) => last_check,
        None => None,
    }
    &&& entry.last_incident.deep_view() == last_incident
    &&& entry.last_error.deep_view() == match state {
        Some(s) => s.last_error,
        None => None,
    }
}

/// Law: a report entry carries the given start of the latest incident,
/// whatever the service's state and status.
pub proof fn lemma_entry_keeps_last_incident(
    entry: ServiceStatus,
    service: ServiceConfig,
    state: Option<ServiceStateView>,
    last_check: Option<Seq<char>>,
    last_incident: Option<Seq<char>>,
)
    requires
        is_service_status(entry, service, state, last_check, last_incident),
    ensures
        entry.last_incident.deep_view() == last_incident,
{
}

/// The report entry of one service, given the text of its last check time
/// and the text of the start of its latest incident.
pub fn service_status(
    service: &ServiceConfig,
    state: Option<&ServiceState>,
    last_check: Option<String>,
    last_incident: Option<String>,
) -> (res: ServiceStatus)
    ensures
        is_service_status(
            res,
            *service,
            match state {
                Some(s) => Some(s@),
                None => None,
            },
            last_check.deep_view(),
            last_incident.deep_view(),
        ),
{
    let (status, latency_ms, checked, last_error) = match state {
        Some(s) => (s.status, s.latency_ms, last_check, clone_optional_text(&s.last_error)),
        None => (Status::Up, 0, None, None),
    };
    ServiceStatus {
        id: service.id.clone(),
        name: service.name.clone(),
        url: service.url.clone(),
        category: service.category.clone(),
        status,
        latency_ms,
        last_check: checked,
        last_incident,
        last_error,
    }
}

/// The text of an optional instant.
fn optional_rfc3339(t: Option<Instant>) -> (res: Option<String>)
    ensures
        res.deep_view() == match t {
            Some(n) => Some(instant_text(n)),
            None => None,
        },
{
    match t {
        Some(n) => Some(n.to_rfc3339()),
        None => None,
    }
}

/// The status report at `now`: every service in order with its shown state,
/// `last_incidents[i]` the start of the latest incident of service `i`.
pub fn status_report(
    services: &Vec<ServiceConfig>,
    states: &ServiceStates,
    last_incidents: &Vec<Option<Instant>>,
    now: Instant,
) -> (res: StatusReport)
    requires
        services@.len() <= u32::MAX,
        last_incidents@.len() == services@.len(),
    ensures
        res.total == services@.len(),
        res.up_count == available_count(board_statuses(services@, states@)),
        res.overall == overall_of(board_statuses(services@, states@)),
        res.checked_at@ == instant_text(now),
        res.services@.len() == services@.len(),
        forall|i: int|
            0 <= i < services@.len() ==> is_service_status(
                #[trigger] res.services@[i],
                services@[i],
                previous_state(states@, services@[i].id@),
                match previous_state(states@, services@[i].id@) {
                    Some(s) => Some(instant_text(s.last_check)),
                    None => None,
                },
                match last_incidents@[i] {
                    Some(t) => Some(instant_text(t)),
                    None => None,
                },
            ),
{
    let n = services.len();
    let mut entries: Vec<ServiceStatus> = Vec::new();
    let mut statuses: Vec<Status> = Vec::new();
    let mut i: usize = 0;
    while i < n
        invariant
            n == services@.len(),
            n == last_incidents@.len(),
            i <= n,
            entries@.len() == i,
            statuses@ == board_statuses(services@, states@).take(i as int),
            forall|j: int|
                0 <= j < i ==> is_service_status(
                    #[trigger] entries@[j],
                    services@[j],
                    previous_state(states@, services@[j].id@),
                    match previous_state(states@, services@[j].id@) {
                        Some(s) => Some(instant_text(s.last_check)),
                        None => None,
                    },
                    match last_incidents@[j] {
                        Some(t) => Some(instant_text(t)),
                        None => None,
                    },
                ),
        decreases n - i,
    {
        let service = &services[i];
        let state = states.get(service.id.as_str());
        let last_check = match &state {
            Some(s) => Some(s.last_check.to_rfc3339()),
            None => None,
        };
        let last_incident = optional_rfc3339(last_incidents[i]);
        let entry = match &state {
            Some(s) => service_status(service, Some(s), last_check, last_incident),
            None => service_status(service, None, last_check, last_incident),
        };
        statuses.push(entry.status);
        entries.push(entry);
        assert(statuses@ =~= board_statuses(services@, states@).take(i + 1));
        i = i + 1;
    }
    assert(statuses@ =~= board_statuses(services@, states@));
    let up_count = count_available(&statuses);
    let overall = overall_status(&statuses);
    StatusReport {
        overall,
        checked_at: now.to_rfc3339(),
        up_count,
        total: n as u32,
        services: entries,
    }
}

/// The position of the first service with id `id`, or a not-found answer.
pub fn find_service(services: &Vec<ServiceConfig>, id: &str) -> (res: Result<usize, ApiError>)
    ensures
        match res {
            Ok(i) => i < services@.len() && services@[i as int].id@ == id@
                && forall|j: int| 0 <= j < i ==> services@[j].id@ != id@,
            Err(e) => e.status == 404 && e.message@ == "service not found: "@ + id@
                && forall|j: int| 0 <= j < services@.len() ==> services@[j].id@ != id@,
        },
{
    let key = String::from_str(id);
    let n = services.len();
    let mut i: usize = 0;
    while i < n
        invariant
            n == services@.len(),
            key@ == id@,
            i <= n,
            forall|j: int| 0 <= j < i ==> services@[j].id@ != id@,
        decreases n - i,
    {
        if services[i].id == key {
            return Ok(i);
        }
        i = i + 1;
    }
    let mut message = String::from_str("service not found: ");
    message.append(id);
    Err(ApiError { status: 404, message })
}

/// An incident as stored.
pub struct IncidentRow {
    pub service_id: String,
    pub kind: String,
    pub started_at: Instant,
    pub resolved_at: Option<Instant>,
    pub error: Option<String>,
}

/// How long a resolved incident lasted, in whole seconds rounded toward zero.
pub open spec fn incident_seconds(row: IncidentRow) -> Option<i64> {
    match row.resolved_at {
        Some(r) => Some(whole_seconds(instant_nanos(r) - instant_nanos(row.started_at)) as i64),
        None => None,
    }
}

/// How long the incident lasted, in whole seconds (`None` while it is open).
pub fn incident_duration(row: &IncidentRow) -> (res: Option<i64>)
    ensures
        res == incident_seconds(*row),
{
    match row.resolved_at {
        Some(r) => Some(seconds_between(row.started_at, r)),
        None => None,
    }
}

/// An incident in the detail of a service.
pub struct IncidentEntry {
    pub started_at: String,
    pub resolved_at: Option<String>,
    pub duration_secs: Option<i64>,
    pub kind: String,
    pub error: Option<String>,
}

/// Whether `entry` shows `row`, with `started` and `resolved` the texts of its times.
pub open spec fn is_incident_entry(entry: IncidentEntry, row: IncidentRow, started: Seq<char>, resolved: Option<Seq<char>>) -> bool {
    &&& entry.started_at@ == started
    &&& entry.resolved_at.deep_view() == resolved
    &&& entry.duration_secs == incident_seconds(row)
    &&& entry.kind@ == row.kind@
    &&& entry.error.deep_view() == row.error.deep_view()
}

/// The texts of the times of an incident.
pub open spec fn started_text(row: IncidentRow) -> Seq<char> {
    instant_text(row.started_at)
}

/// The text of the resolution time of an incident, if it is resolved.
pub open spec fn resolved_text(row: IncidentRow) -> Option<Seq<char>> {
    match row.resolved_at {
        Some(r) => Some(instant_text(r)),
        None => None,
    }
}

/// The detail entry of an incident, given the texts of its times.
pub fn incident_entry(row: &IncidentRow, started: String, resolved: Option<String>) -> (res: IncidentEntry)
    ensures
        is_incident_entry(res, *row, started@, resolved.deep_view()),
{
    IncidentEntry {
        started_at: started,
        resolved_at: resolved,
        duration_secs: incident_duration(row),
        kind: row.kind.clone(),
        error: clone_optional_text(&row.error),
    }
}

/// A latency sample in the detail of a service.
pub struct LatencyPoint {
    pub time: String,
    pub ms: Option<u32>,
}

/// The detail of one service.
pub struct ServiceDetail {
    pub id: String,
    pub name: String,
    pub url: String,
    pub status: Status,
    pub latency_ms: u32,
    pub latency_24h: Vec<LatencyPoint>,
    pub recent_incidents: Vec<IncidentEntry>,
}

/// The detail of `service`: its shown status and latency, its latency samples
/// (time, milliseconds) and its recent incidents, in the given order.
pub fn service_detail(
    service: &ServiceConfig,
    states: &ServiceStates,
    samples: &Vec<(Instant, Option<u32>)>,
    incidents: &Vec<IncidentRow>,
) -> (res: ServiceDetail)
    ensures
        res.id@ == service.id@,
        res.name@ == service.name@,
        res.url@ == service.url@,
        res.status == board_status(states@, service.id@),
        res.latency_ms == (if states@.contains_key(service.id@) { states@[service.id@].latency_ms } else { 0 }),
        res.latency_24h@.len() == samples@.len(),
        forall|i: int|
            0 <= i < samples@.len() ==> (#[trigger] res.latency_24h@[i]).time@ == instant_text(samples@[i].0)
                && res.latency_24h@[i].ms == samples@[i].1,
        res.recent_incidents@.len() == incidents@.len(),
        forall|i: int|
            0 <= i < incidents@.len() ==> is_incident_entry(
                #[trigger] res.recent_incidents@[i],
                incidents@[i],
                started_text(incidents@[i]),
                resolved_text(incidents@[i]),
            ),
{
    let (status, latency_ms) = match states.get(service.id.as_str()) {
        Some(s) => (s.status, s.latency_ms),
        None => (Status::Up, 0),
    };
    let mut points: Vec<LatencyPoint> = Vec::new();
    let mut i: usize = 0;
    while i < samples.len()
        invariant
            i <= samples@.len(),
            points@.len() == i,
            forall|j: int|
                0 <= j < i ==> (#[trigger] points@[j]).time@ == instant_text(samples@[j].0)
                    && points@[j].ms == samples@[j].1,
        decreases samples@.len() - i,
    {
        let (t, ms) = samples[i];
        points.push(LatencyPoint { time: t.to_rfc3339(), ms });
        i = i + 1;
    }
    let mut entries: Vec<IncidentEntry> = Vec::new();
    let mut k: usize = 0;
    while k < incidents.len()
        invariant
            k <= incidents@.len(),
            entries@.len() == k,
            forall|j: int|
                0 <= j < k ==> is_incident_entry(
                    #[trigger] entries@[j],
                    incidents@[j],
                    started_text(incidents@[j]),
                    resolved_text(incidents@[j]),
                ),
        decreases incidents@.len() - k,
    {
        let row = &incidents[k];
        let started = row.started_at.to_rfc3339();
        let resolved = optional_rfc3339(row.resolved_at);
        entries.push(incident_entry(row, started, resolved));
        k = k + 1;
    }
    ServiceDetail {
        id: service.id.clone(),
        name: service.name.clone(),
        url: service.url.clone(),
        status,
        latency_ms,
        latency_24h: points,
        recent_incidents: entries,
    }
}

/// The name of the service with id `id`: that of the last such service in
/// the list, or "unknown" when there is none.
pub open spec fn service_name_of(services: Seq<ServiceConfig>, id: Seq<char>) -> Seq<char>
    decreases services.len(),
{
    if services.len() == 0 {
        "unknown"@
    } else if services.last().id@ == id {
        services.last().name@
    } else {
        service_name_of(services.drop_last(), id)
    }
}

/// The name of the service with id `id` (the last such service in the list),
/// or "unknown".
pub fn service_name(services: &Vec<ServiceConfig>, id: &str) -> (res: String)
    ensures
        res@ == service_name_of(services@, id@),
{
    let key = String::from_str(id);
    let mut i = services.len();
    assert(services@.take(i as int) =~= services@);
    while i > 0
        invariant
            i <= services@.len(),
            key@ == id@,
            service_name_of(services@, id@) == service_name_of(services@.take(i as int), id@),
        decreases i,
    {
        let ghost prefix = services@.take(i as int);
        assert(prefix.drop_last() =~= services@.take(i - 1));
        if services[i - 1].id == key {
            return services[i - 1].name.clone();
        }
        i = i - 1;
    }
    String::from_str("unknown")
}

/// An incident in the incident list.
pub struct IncidentListEntry {
    pub service_id: String,
    pub service_name: String,
    pub kind: String,
    pub started_at: String,
    pub resolved_at: Option<String>,
    pub duration_secs: Option<i64>,
    pub error: Option<String>,
}

/// Whether `entry` lists `row`, with `started` and `resolved` the texts of its times.
pub open spec fn is_incident_list_entry(
    entry: IncidentListEntry,
    services: Seq<ServiceConfig>,
    row: IncidentRow,
    started: Seq<char>,
    resolved: Option<Seq<char>>,
) -> bool {
    &&& entry.service_id@ == row.service_id@
    &&& entry.service_name@ == service_name_of(services, row.service_id@)
    &&& entry.kind@ == row.kind@
    &&& entry.started_at@ == started
    &&& entry.resolved_at.deep_view() == resolved
    &&& entry.duration_secs == incident_seconds(row)
    &&& entry.error.deep_view() == row.error.deep_view()
}

/// The incident list entry of an incident, given the texts of its times.
pub fn incident_list_entry(
    services: &Vec<ServiceConfig>,
    row: &IncidentRow,
    started: String,
    resolved: Option<String>,
) -> (res: IncidentListEntry)
    ensures
        is_incident_list_entry(res, services@, *row, started@, resolved.deep_view()),
{
    IncidentListEntry {
        service_id: row.service_id.clone(),
        service_name: service_name(services, row.service_id.as_str()),
        kind: row.kind.clone(),
        started_at: started,
        resolved_at: resolved,
        duration_secs: incident_duration(row),
        error: clone_optional_text(&row.error),
    }
}

/// The incident list: each incident, in the given order, with the name of its service.
pub fn incident_list(services: &Vec<ServiceConfig>, rows: &Vec<IncidentRow>) -> (res: Vec<IncidentListEntry>)
    ensures
        res@.len() == rows@.len(),
        forall|i: int|
            0 <= i < rows@.len() ==> is_incident_list_entry(
                #[trigger] res@[i],
                services@,
                rows@[i],
                started_text(rows@[i]),
                resolved_text(rows@[i]),
            ),
{
    let mut entries: Vec<IncidentListEntry> = Vec::new();
    let mut k: usize = 0;
    while k < rows.len()
        invariant
            k <= rows@.len(),
            entries@.len() == k,
            forall|j: int|
                0 <= j < k ==> is_incident_list_entry(
                    #[trigger] entries@[j],
                    services@,
                    rows@[j],
                    started_text(rows@[j]),
                    resolved_text(rows@[j]),
                ),
        decreases rows@.len() - k,
    {
        let row = &rows[k];
        let started = row.started_at.to_rfc3339();
        let resolved = optional_rfc3339(row.resolved_at);
        entries.push(incident_list_entry(services, row, started, resolved));
        k = k + 1;
    }
    entries
}

/// The number of incidents to list: the `limit` query parameter when it is a
/// number that fits in 32 bits, else 20.
pub fn incident_limit(limit: &Option<String>) -> (res: u32)
    ensures
        res as nat == match limit.deep_view() {
            Some(s) => match parse_unsigned(s, u32::MAX as nat) {
                Some(v) => v,
                None => 20,
            },
            None => 20,
        },
{
    match limit {
        Some(s) => match parse_unsigned_text(s.as_str(), u32::MAX as u64) {
            Some(v) => v as u32,
            None => 20,
        },
        None => 20,
    }
}

/// Whether a reload request may proceed: not found when no admin token is
/// set; unauthorized unless the `Authorization` header is exactly
/// `Bearer <admin token>`.
pub fn authorize_reload(admin_token: &Option<String>, authorization: &str) -> (res: Result<(), ApiError>)
    ensures
        match admin_token.deep_view() {
            None => res matches Err(e) && e.status == 404 && e.message@ == "not found"@,
            Some(token) => if authorization@ == "Bearer "@ + token {
                res is Ok
            } else {
                res matches Err(e) && e.status == 401 && e.message@ == "unauthorized"@
            },
        },
{
    match admin_token {
        None => Err(ApiError { status: 404, message: String::from_str("not found") }),
        Some(token) => {
            let mut expected = String::from_str("Bearer ");
            expected.append(token.as_str());
            let given = String::from_str(authorization);
            if given == expected {
                Ok(())
            } else {
                Err(ApiError { status: 401, message: String::from_str("unauthorized") })
            }
        },
    }
}

} // verus!
