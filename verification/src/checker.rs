//! The rules of a health check: how a transport result becomes an observed
//! status, how observations are debounced into the state shown on the board,
//! and which incident records and alerts a change of state calls for.

use vstd::prelude::*;
use crate::config::{AppConfig, ServiceConfig};
use crate::state::{ServiceState, ServiceStateView, ServiceStates, Status};
use crate::telegram::{
    clock_text, degraded_message, down_message, duration_text, format_degraded, format_down_at,
    format_up_at, up_message, SLOW_THRESHOLD_MS,
};
use crate::text::{clone_optional_text, decimal, push_decimal};
use crate::time::{instant_nanos, seconds_between, whole_seconds, Instant};

verus! {

/// Consecutive failed checks after which a service is shown as down.
pub const DOWN_AFTER_FAILURES: u32 = 3;

/// What the transport reported for one health check.
pub enum CheckOutcome {
    /// The service answered with this HTTP status code.
    Response { code: u16 },
    /// The request failed without an answer; `message` describes the failure.
    Failed { timeout: bool, connect: bool, message: String },
}

/// What one check observed, before debouncing.
pub struct Observation {
    pub status: Status,
    pub error: Option<String>,
    pub http_code: Option<u16>,
}

/// A row to append to the check history.
pub struct CheckRecord {
    pub service_id: String,
    pub status: Status,
    pub latency_ms: Option<u32>,
    pub error: Option<String>,
    pub http_code: Option<u16>,
}

/// A change to the incident log of one service.
pub enum IncidentOp {
    /// Start an incident of the given kind.
    Open { kind: String, error: Option<String> },
    /// Resolve every open incident of the service.
    Close,
}

/// The value of an [`IncidentOp`].
pub enum IncidentOpView {
    Open { kind: Seq<char>, error: Option<Seq<char>> },
    Close,
}

impl View for IncidentOp {
    type V = IncidentOpView;

    open spec fn view(&self) -> IncidentOpView {
        match self {
            IncidentOp::Open { kind, error } => IncidentOpView::Open { kind: kind@, error: error.deep_view() },
            IncidentOp::Close => IncidentOpView::Close,
        }
    }
}

/// A message for the Telegram chat.
pub struct Alert {
    pub token: String,
    pub chat_id: String,
    pub text: String,
}

/// Everything that follows from one check: the history row, the new state,
/// whether the shown status changed, the incident changes and the alert.
pub struct CheckPlan {
    pub record: CheckRecord,
    pub state: ServiceState,
    pub changed: bool,
    pub incidents: Vec<IncidentOp>,
    pub alert: Option<Alert>,
}

/// HTTP status codes of success: 200 to 299.
pub open spec fn is_success_code(code: u16) -> bool {
    200 <= code < 300
}

/// The latency in milliseconds of a check that took `elapsed_ms`, kept modulo 2^32.
pub open spec fn latency_of(elapsed_ms: u128) -> u32 {
    (elapsed_ms % 0x1_0000_0000) as u32
}

/// Whether the outcome is a failure: no answer, or an answer that is not a success.
pub open spec fn is_failure(outcome: CheckOutcome) -> bool {
    match outcome {
        CheckOutcome::Response { code } => !is_success_code(code),
        CheckOutcome::Failed { .. } => true,
    }
}

/// The status a check observed: down on failure, degraded when the answer
/// came after more than the slow threshold, else up.
pub open spec fn observed_status(outcome: CheckOutcome, latency_ms: u32) -> Status {
    if is_failure(outcome) {
        Status::Down
    } else if latency_ms > SLOW_THRESHOLD_MS {
        Status::Degraded
    } else {
        Status::Up
    }
}

/// The error text a check observed.
pub open spec fn observed_error(outcome: CheckOutcome) -> Option<Seq<char>> {
    match outcome {
        CheckOutcome::Response { code } => if is_success_code(code) {
            None
        } else {
            Some("HTTP "@ + decimal(code as nat))
        },
        CheckOutcome::Failed { timeout, connect, message } => if timeout {
            Some("connection timeout"@)
        } else if connect {
            Some("connection refused"@)
        } else {
            Some(message@)
        },
    }
}

/// The HTTP status code a check observed, if the service answered.
pub open spec fn observed_code(outcome: CheckOutcome) -> Option<u16> {
    match outcome {
        CheckOutcome::Response { code } => Some(code),
        CheckOutcome::Failed { .. } => None,
    }
}

/// Consecutive failures after a check: one more than before on failure, else zero.
pub open spec fn next_failures(prev: Option<ServiceStateView>, observed: Status) -> int {
    if observed == Status::Down {
        match prev {
            Some(p) => p.consecutive_failures + 1,
            None => 1,
        }
    } else {
        0
    }
}

/// The status shown after a check: a failure is shown only from the third
/// one in a row on; before that the previous status stays (up when there
/// was none).
pub open spec fn shown_status(prev: Option<ServiceStateView>, observed: Status, failures: int) -> Status {
    if observed == Status::Down && failures < DOWN_AFTER_FAILURES {
        match prev {
            Some(p) => p.status,
            None => Status::Up,
        }
    } else {
        observed
    }
}

/// Whether the shown status changed: there was a previous state with another status.
pub open spec fn status_changed(prev: Option<ServiceStateView>, shown: Status) -> bool {
    match prev {
        Some(p) => p.status != shown,
        None => false,
    }
}

/// The state after a check.
pub open spec fn next_state(
    prev: Option<ServiceStateView>,
    observed: Status,
    error: Option<Seq<char>>,
    latency_ms: u32,
    now: Instant,
) -> ServiceStateView {
    let failures = next_failures(prev, observed);
    let shown = shown_status(prev, observed, failures);
    let changed = status_changed(prev, shown);
    ServiceStateView {
        status: shown,
        latency_ms: if shown == Status::Down { 0 } else { latency_ms },
        last_check: now,
        last_change: if changed {
            now
        } else {
            match prev {
                Some(p) => p.last_change,
                None => now,
            }
        },
        consecutive_failures: failures as u32,
        last_error: error,
    }
}

/// The incident changes for a change of the shown status: a new outage opens
/// a "down" incident; a slowdown resolves what is open and opens a
/// "degraded" one; a recovery resolves what is open. No change, no incident change.
pub open spec fn incident_changes(changed: bool, shown: Status, error: Option<Seq<char>>) -> Seq<IncidentOpView> {
    if !changed {
        seq![]
    } else {
        match shown {
            Status::Down => seq![IncidentOpView::Open { kind: "down"@, error: error }],
            Status::Degraded => seq![IncidentOpView::Close, IncidentOpView::Open { kind: "degraded"@, error: None }],
            Status::Up => seq![IncidentOpView::Close],
        }
    }
}

/// The alert text for a change to `shown`, at `now`.
pub open spec fn alert_text(
    service: ServiceConfig,
    shown: Status,
    error: Option<Seq<char>>,
    latency_ms: u32,
    since: Instant,
    now: Instant,
) -> Seq<char> {
    match shown {
        Status::Down => down_message(
            service.name@,
            service.url@,
            match error {
                Some(e) => e,
                None => "unknown"@,
            },
            now.unix_secs() as int,
        ),
        Status::Up => up_message(
            service.name@,
            service.url@,
            whole_seconds(instant_nanos(now) - instant_nanos(since)),
            now.unix_secs() as int,
        ),
        Status::Degraded => degraded_message(service.name@, service.url@, latency_ms as int),
    }
}

/// Whether `plan` is what a check of `service` with outcome `outcome`, taking
/// `elapsed_ms`, at `now`, after the state `prev`, calls for.
pub open spec fn is_check_plan(
    plan: CheckPlan,
    service: ServiceConfig,
    prev: Option<ServiceStateView>,
    outcome: CheckOutcome,
    elapsed_ms: u128,
    now: Instant,
    config: AppConfig,
) -> bool {
    let latency = latency_of(elapsed_ms);
    let observed = observed_status(outcome, latency);
    let error = observed_error(outcome);
    let state = next_state(prev, observed, error, latency, now);
    let changed = status_changed(prev, state.status);
    &&& plan.record.service_id@ == service.id@
    &&& plan.record.status == observed
    &&& plan.record.latency_ms == (if observed == Status::Down { None } else { Some(latency) })
    &&& plan.record.error.deep_view() == error
    &&& plan.record.http_code == observed_code(outcome)
    &&& plan.state@ == state
    &&& plan.changed == changed
    &&& plan.incidents@.map_values(|op: IncidentOp| op@) == incident_changes(changed, state.status, error)
    &&& match plan.alert {
        Some(alert) => {
            &&& changed
            &&& config.telegram_bot_token.deep_view() == Some(alert.token@)
            &&& config.telegram_chat_id.deep_view() == Some(alert.chat_id@)
            &&& alert.text@ == alert_text(service, state.status, error, latency, prev->0.last_change, now)
        },
        None => !changed || config.telegram_bot_token is None || config.telegram_chat_id is None,
    }
}

/// The latency in milliseconds of a check that took `elapsed_ms` (the
/// conversion keeps the low 32 bits).
pub fn latency_ms_of(elapsed_ms: u128) -> (res: u32)
    ensures
        res == latency_of(elapsed_ms),
{
    let res = elapsed_ms as u32;
    assert(res == (elapsed_ms % 0x1_0000_0000) as u32) by (bit_vector)
        requires
            res == elapsed_ms as u32,
    ;
    res
}

/// What a check observed: the status, the error text and the HTTP status code.
pub fn classify(outcome: &CheckOutcome, latency_ms: u32) -> (res: Observation)
    ensures
        res.status == observed_status(*outcome, latency_ms),
        res.error.deep_view() == observed_error(*outcome),
        res.http_code == observed_code(*outcome),
{
    match outcome {
        CheckOutcome::Response { code } => {
            let code = *code;
            if 200 <= code && code < 300 {
                let status = if latency_ms > SLOW_THRESHOLD_MS {
                    Status::Degraded
                } else {
                    Status::Up
                };
                Observation { status, error: None, http_code: Some(code) }
            } else {
                let mut msg = String::from_str("HTTP ");
                push_decimal(&mut msg, code as u64);
                Observation { status: Status::Down, error: Some(msg), http_code: Some(code) }
            }
        },
        CheckOutcome::Failed { timeout, connect, message } => {
            let msg = if *timeout {
                String::from_str("connection timeout")
            } else if *connect {
                String::from_str("connection refused")
            } else {
                message.clone()
            };
            Observation { status: Status::Down, error: Some(msg), http_code: None }
        },
    }
}

/// Whether the outcome is a failure (no answer, or an answer that is not a success).
pub fn is_failure_outcome(outcome: &CheckOutcome) -> (res: bool)
    ensures
        res == is_failure(*outcome),
{
    match outcome {
        CheckOutcome::Response { code } => !(200 <= *code && *code < 300),
        CheckOutcome::Failed { .. } => true,
    }
}

/// Works out everything that follows from one check of `service`: its
/// outcome, how long it took, when it finished (`now`), the previous state of the service (`None` before its first check)
/// and the settings (for the alert chat).
pub fn plan_check(
    service: &ServiceConfig,
    prev: Option<&ServiceState>,
    outcome: &CheckOutcome,
    elapsed_ms: u128,
    now: Instant,
    config: &AppConfig,
) -> (plan: CheckPlan)
    requires
        is_failure(*outcome) && prev is Some ==> prev->0.consecutive_failures < u32::MAX,
    ensures
        is_check_plan(
            plan,
            *service,
            match prev {
                Some(p) => Some(p@),
                None => None,
            },
            *outcome,
            elapsed_ms,
            now,
            *config,
        ),
{
    let ghost prev_view: Option<ServiceStateView> = match prev {
        Some(p) => Some(p@),
        None => None,
    };
    let latency = latency_ms_of(elapsed_ms);
    let obs = classify(outcome, latency);
    let observed = obs.status;

    let record = CheckRecord {
        service_id: service.id.clone(),
        status: observed,
        latency_ms: if observed == Status::Down { None } else { Some(latency) },
        error: clone_optional_text(&obs.error),
        http_code: obs.http_code,
    };

    let (prev_status, prev_failures, prev_change): (Option<Status>, u32, Instant) = match prev {
        Some(p) => (Some(p.status), p.consecutive_failures, p.last_change),
        None => (None, 0, now),
    };
    let failures: u32 = if observed == Status::Down {
        prev_failures + 1
    } else {
        0
    };
    let shown = if observed == Status::Down && failures < DOWN_AFTER_FAILURES {
        match prev_status {
            Some(s) => s,
            None => Status::Up,
        }
    } else {
        observed
    };
    let changed = match prev_status {
        Some(s) => s != shown,
        None => false,
    };
    let last_change = if changed { now } else { prev_change };

    let state = ServiceState {
        status: shown,
        latency_ms: if shown == Status::Down { 0 } else { latency },
        last_check: now,
        last_change,
        consecutive_failures: failures,
        last_error: clone_optional_text(&obs.error),
    };
    assert(state@ == next_state(prev_view, observed, obs.error.deep_view(), latency, now));

    let mut incidents: Vec<IncidentOp> = Vec::new();
    if changed {
        match shown {
            Status::Down => {
                incidents.push(IncidentOp::Open { kind: String::from_str("down"), error: clone_optional_text(&obs.error) });
            },
            Status::Degraded => {
                incidents.push(IncidentOp::Close);
                incidents.push(IncidentOp::Open { kind: String::from_str("degraded"), error: None });
            },
            Status::Up => {
                incidents.push(IncidentOp::Close);
            },
        }
    }
    assert(incidents@.map_values(|op: IncidentOp| op@) =~= incident_changes(changed, shown, obs.error.deep_view()));

    let alert = if changed {
        match (&config.telegram_bot_token, &config.telegram_chat_id) {
            (Some(token), Some(chat_id)) => {
                let secs = now.secs();
                let text = match shown {
                    Status::Down => {
                        let error_text: &str = match &obs.error {
                            Some(e) => e.as_str(),
                            None => "unknown",
                        };
                        format_down_at(service.name.as_str(), service.url.as_str(), error_text, secs)
                    },
                    Status::Up => {
                        let downtime = seconds_between(prev_change, now);
                        format_up_at(service.name.as_str(), service.url.as_str(), downtime, secs)
                    },
                    Status::Degraded => format_degraded(service.name.as_str(), service.url.as_str(), latency),
                };
                Some(Alert { token: token.clone(), chat_id: chat_id.clone(), text })
            },
            _ => None,
        }
    } else {
        None
    };

    CheckPlan { record, state, changed, incidents, alert }
}

/// The previous state of a service in a state map, if it was checked before.
pub open spec fn previous_state(states: Map<Seq<char>, ServiceStateView>, id: Seq<char>) -> Option<ServiceStateView> {
    if states.contains_key(id) {
        Some(states[id])
    } else {
        None
    }
}

/// Handles one finished check of `service`: works out its plan from the
/// state stored for the service, stores the new state, and returns the plan
/// (the history row, incident changes and alert are for the caller to carry out).
pub fn process_check(
    states: &mut ServiceStates,
    service: &ServiceConfig,
    outcome: &CheckOutcome,
    elapsed_ms: u128,
    now: Instant,
    config: &AppConfig,
) -> (plan: CheckPlan)
    requires
        is_failure(*outcome) && old(states)@.contains_key(service.id@)
            ==> old(states)@[service.id@].consecutive_failures < u32::MAX,
    ensures
        is_check_plan(plan, *service, previous_state(old(states)@, service.id@), *outcome, elapsed_ms, now, *config),
        final(states)@ == old(states)@.insert(service.id@, plan.state@),
{
    let prev = states.get(service.id.as_str());
    let plan = match &prev {
        Some(p) => plan_check(service, Some(p), outcome, elapsed_ms, now, config),
        None => plan_check(service, None, outcome, elapsed_ms, now, config),
    };
    states.insert(service.id.clone(), plan.state.clone());
    plan
}

/// The debounce invariant of a stored state: shown down exactly when the
/// last three or more checks failed.
pub open spec fn is_debounced(s: ServiceStateView) -> bool {
    (s.status == Status::Down) == (s.consecutive_failures >= DOWN_AFTER_FAILURES)
}

/// No failure count about to overflow: a failed check after `prev` can count one more.
pub open spec fn can_count_failure(prev: Option<ServiceStateView>, observed: Status) -> bool {
    observed == Status::Down && prev is Some ==> prev->0.consecutive_failures < u32::MAX
}

/// The invariant of a stored state: debounced, no latency while shown down,
/// and its last change no later than its last check.
pub open spec fn is_well_formed(s: ServiceStateView) -> bool {
    &&& is_debounced(s)
    &&& s.status == Status::Down ==> s.latency_ms == 0
    &&& instant_nanos(s.last_change) <= instant_nanos(s.last_check)
}

/// Whether the clock reads `now` no earlier than the last check of `prev`.
pub open spec fn clock_not_behind(prev: Option<ServiceStateView>, now: Instant) -> bool {
    prev matches Some(p) ==> instant_nanos(p.last_check) <= instant_nanos(now)
}

/// Law: every check keeps the state invariant: the service is shown down
/// exactly when its last three or more checks failed, a service shown down
/// has latency 0, and the last change is no later than the last check (when
/// the clock does not go backwards).
pub proof fn lemma_check_keeps_state_well_formed(
    prev: Option<ServiceStateView>,
    observed: Status,
    error: Option<Seq<char>>,
    latency_ms: u32,
    now: Instant,
)
    requires
        prev matches Some(p) ==> is_well_formed(p),
        can_count_failure(prev, observed),
        clock_not_behind(prev, now),
    ensures
        is_well_formed(next_state(prev, observed, error, latency_ms, now)),
        next_state(prev, observed, error, latency_ms, now).last_check == now,
{
}

/// Law: processing a check keeps every stored state well formed (debounced,
/// latency 0 while shown down, last change no later than last check), when
/// the clock does not go backwards.
pub proof fn lemma_process_check_keeps_states_well_formed(
    before: Map<Seq<char>, ServiceStateView>,
    after: Map<Seq<char>, ServiceStateView>,
    plan: CheckPlan,
    service: ServiceConfig,
    outcome: CheckOutcome,
    elapsed_ms: u128,
    now: Instant,
    config: AppConfig,
)
    requires
        forall|k: Seq<char>| #[trigger] before.contains_key(k) ==> is_well_formed(before[k]),
        is_failure(outcome) && before.contains_key(service.id@) ==> before[service.id@].consecutive_failures < u32::MAX,
        clock_not_behind(previous_state(before, service.id@), now),
        is_check_plan(plan, service, previous_state(before, service.id@), outcome, elapsed_ms, now, config),
        after == before.insert(service.id@, plan.state@),
    ensures
        forall|k: Seq<char>| #[trigger] after.contains_key(k) ==> is_well_formed(after[k]),
{
    let prev = previous_state(before, service.id@);
    let latency = latency_of(elapsed_ms);
    let observed = observed_status(outcome, latency);
    lemma_check_keeps_state_well_formed(prev, observed, observed_error(outcome), latency, now);
}

/// Law: the first check of a service changes nothing visible: no status
/// change, no incident, no alert, and the service is not shown down.
pub proof fn lemma_first_check_is_quiet(
    plan: CheckPlan,
    service: ServiceConfig,
    outcome: CheckOutcome,
    elapsed_ms: u128,
    now: Instant,
    config: AppConfig,
)
    requires
        is_check_plan(plan, service, None, outcome, elapsed_ms, now, config),
    ensures
        !plan.changed,
        plan.incidents@.len() == 0,
        plan.alert is None,
        plan.state.status != Status::Down,
        plan.state.last_change == now,
{
    assert(plan.incidents@.map_values(|op: IncidentOp| op@).len() == 0);
}

/// Law: a check that does not fail is shown at once: the shown status is
/// the observed one and the failure count starts over.
pub proof fn lemma_success_shows_at_once(
    prev: Option<ServiceStateView>,
    observed: Status,
    error: Option<Seq<char>>,
    latency_ms: u32,
    now: Instant,
)
    requires
        observed != Status::Down,
    ensures
        next_state(prev, observed, error, latency_ms, now).status == observed,
        next_state(prev, observed, error, latency_ms, now).consecutive_failures == 0,
        next_state(prev, observed, error, latency_ms, now).latency_ms == latency_ms,
{
}

/// Law: after a check that did not fail, the next two failed checks in a row
/// leave the shown status as it was, and the third shows the service down.
pub proof fn lemma_third_failure_shows_down(
    prev: ServiceStateView,
    e1: Option<Seq<char>>,
    e2: Option<Seq<char>>,
    e3: Option<Seq<char>>,
    l1: u32,
    l2: u32,
    l3: u32,
    t1: Instant,
    t2: Instant,
    t3: Instant,
)
    requires
        is_debounced(prev),
        prev.consecutive_failures == 0,
    ensures
        ({
            let s1 = next_state(Some(prev), Status::Down, e1, l1, t1);
            let s2 = next_state(Some(s1), Status::Down, e2, l2, t2);
            let s3 = next_state(Some(s2), Status::Down, e3, l3, t3);
            &&& s1.status == prev.status
            &&& s2.status == prev.status
            &&& s3.status == Status::Down
            &&& s3.consecutive_failures == 3
        }),
{
}

/// Law: an alert goes out exactly when the shown status changed and both
/// the bot token and the chat id are set.
pub proof fn lemma_alert_iff_change_with_chat(
    plan: CheckPlan,
    service: ServiceConfig,
    prev: Option<ServiceStateView>,
    outcome: CheckOutcome,
    elapsed_ms: u128,
    now: Instant,
    config: AppConfig,
)
    requires
        is_check_plan(plan, service, prev, outcome, elapsed_ms, now, config),
    ensures
        plan.alert is Some <==> (plan.changed && config.telegram_bot_token is Some && config.telegram_chat_id is Some),
{
    if plan.alert is Some {
        assert(config.telegram_bot_token.deep_view() is Some);
        assert(config.telegram_chat_id.deep_view() is Some);
    }
}

/// Law: the incident log changes exactly when the shown status changed; a
/// recovery only resolves, an outage only opens.
pub proof fn lemma_incidents_follow_changes(
    plan: CheckPlan,
    service: ServiceConfig,
    prev: Option<ServiceStateView>,
    outcome: CheckOutcome,
    elapsed_ms: u128,
    now: Instant,
    config: AppConfig,
)
    requires
        is_check_plan(plan, service, prev, outcome, elapsed_ms, now, config),
    ensures
        (plan.incidents@.len() > 0) == plan.changed,
        plan.changed && plan.state.status == Status::Up ==> plan.incidents@.len() == 1 && plan.incidents@[0] is Close,
        plan.changed && plan.state.status == Status::Down ==> plan.incidents@.len() == 1 && plan.incidents@[0] is Open,
{
    let views = plan.incidents@.map_values(|op: IncidentOp| op@);
    assert(views.len() == plan.incidents@.len());
    if plan.changed && plan.incidents@.len() > 0 {
        assert(views[0] == plan.incidents@[0]@);
    }
}

/// Law: the time of the last change moves only when the shown status changes.
pub proof fn lemma_last_change_moves_only_on_change(
    prev: ServiceStateView,
    observed: Status,
    error: Option<Seq<char>>,
    latency_ms: u32,
    now: Instant,
)
    ensures
        ({
            let next = next_state(Some(prev), observed, error, latency_ms, now);
            &&& status_changed(Some(prev), next.status) ==> next.last_change == now
            &&& !status_changed(Some(prev), next.status) ==> next.last_change == prev.last_change
        }),
{
}

/// One check of a service, as the state machine sees it.
pub struct CheckEvent {
    pub observed: Status,
    pub error: Option<Seq<char>>,
    pub latency_ms: u32,
    pub now: Instant,
}

/// The state of a service after the given checks, from its first one on.
pub open spec fn state_after(events: Seq<CheckEvent>) -> Option<ServiceStateView>
    decreases events.len(),
{
    if events.len() == 0 {
        None
    } else {
        let e = events.last();
        Some(next_state(state_after(events.drop_last()), e.observed, e.error, e.latency_ms, e.now))
    }
}

/// How many of the last checks failed in a row.
pub open spec fn trailing_failures(events: Seq<CheckEvent>) -> nat
    decreases events.len(),
{
    if events.len() == 0 {
        0
    } else if events.last().observed == Status::Down {
        trailing_failures(events.drop_last()) + 1
    } else {
        0
    }
}

proof fn lemma_trailing_failures_bound(events: Seq<CheckEvent>)
    ensures
        trailing_failures(events) <= events.len(),
    decreases events.len(),
{
    if events.len() > 0 {
        lemma_trailing_failures_bound(events.drop_last());
    }
}

/// Law: over the whole history of a service, its failure count is the number
/// of its last checks that failed in a row, and it is shown down exactly when
/// that number is three or more.
pub proof fn lemma_history_shows_down_after_three_failures(events: Seq<CheckEvent>)
    requires
        events.len() > 0,
        events.len() < u32::MAX,
    ensures
        state_after(events)->0.consecutive_failures == trailing_failures(events),
        (state_after(events)->0.status == Status::Down) == (trailing_failures(events) >= DOWN_AFTER_FAILURES),
    decreases events.len(),
{
    let prefix = events.drop_last();
    let e = events.last();
    if prefix.len() > 0 {
        lemma_history_shows_down_after_three_failures(prefix);
        lemma_trailing_failures_bound(prefix);
    } else {
        assert(state_after(prefix) is None);
        assert(trailing_failures(prefix) == 0);
    }
    assert(state_after(events) == Some(next_state(state_after(prefix), e.observed, e.error, e.latency_ms, e.now)));
    assert(trailing_failures(events) == if e.observed == Status::Down {
        trailing_failures(prefix) + 1
    } else {
        0
    });
}

/// Law: over the whole history of a service, with a clock that never goes
/// backwards, the stored state is well formed (shown down exactly after three
/// or more failures in a row, latency 0 while shown down, last change no
/// later than last check), and its last check is the time of the last check.
pub proof fn lemma_history_states_well_formed(events: Seq<CheckEvent>)
    requires
        events.len() > 0,
        events.len() < u32::MAX,
        forall|i: int, j: int|
            0 <= i <= j < events.len() ==> instant_nanos(#[trigger] events[i].now) <= instant_nanos(
                #[trigger] events[j].now,
            ),
    ensures
        is_well_formed(state_after(events)->0),
        state_after(events)->0.last_check == events.last().now,
    decreases events.len(),
{
    let prefix = events.drop_last();
    let e = events.last();
    if prefix.len() > 0 {
        assert forall|i: int, j: int| 0 <= i <= j < prefix.len() implies instant_nanos(
            #[trigger] prefix[i].now,
        ) <= instant_nanos(#[trigger] prefix[j].now) by {
            assert(prefix[i] == events[i]);
            assert(prefix[j] == events[j]);
        }
        lemma_history_states_well_formed(prefix);
        lemma_history_shows_down_after_three_failures(prefix);
        lemma_trailing_failures_bound(prefix);
        assert(prefix.last() == events[events.len() - 2]);
        assert(instant_nanos(events[events.len() - 2].now) <= instant_nanos(events[events.len() - 1].now));
    } else {
        assert(state_after(prefix) is None);
    }
    assert(state_after(events) == Some(next_state(state_after(prefix), e.observed, e.error, e.latency_ms, e.now)));
    lemma_check_keeps_state_well_formed(state_after(prefix), e.observed, e.error, e.latency_ms, e.now);
}

/// Law: an answer with a status code outside 200 to 299 is a failure: it is
/// observed as down, with the error text "HTTP " and the code, whatever the
/// latency; an answer with a code from 200 to 299 is never observed as down
/// and carries no error.
pub proof fn lemma_only_2xx_answers_succeed(code: u16, latency_ms: u32)
    ensures
        !(200 <= code && code <= 299) ==> {
            &&& observed_status(CheckOutcome::Response { code }, latency_ms) == Status::Down
            &&& observed_error(CheckOutcome::Response { code }) == Some("HTTP "@ + decimal(code as nat))
            &&& observed_code(CheckOutcome::Response { code }) == Some(code)
        },
        200 <= code && code <= 299 ==> {
            &&& observed_status(CheckOutcome::Response { code }, latency_ms) != Status::Down
            &&& observed_error(CheckOutcome::Response { code }) is None
        },
{
}

/// Law: when a service shown down answers with success in time and the chat
/// is set, the recovery alert reports the downtime from the last change of
/// the shown status (not from the last check) to the time of this check.
pub proof fn lemma_recovery_downtime_counts_from_last_change(
    plan: CheckPlan,
    service: ServiceConfig,
    prev: ServiceStateView,
    code: u16,
    elapsed_ms: u128,
    now: Instant,
    config: AppConfig,
)
    requires
        prev.status == Status::Down,
        200 <= code && code <= 299,
        latency_of(elapsed_ms) <= 3000,
        config.telegram_bot_token is Some,
        config.telegram_chat_id is Some,
        is_check_plan(plan, service, Some(prev), CheckOutcome::Response { code }, elapsed_ms, now, config),
    ensures
        plan.changed,
        plan.state.status == Status::Up,
        plan.alert matches Some(a) && a.text@ == "\u{1f7e2} <b>UP \u{2014} "@ + service.name@ + "</b>\n"@
            + service.url@ + "\nRecovered at: "@ + clock_text(now.unix_secs() as int) + " UTC\nDowntime: "@
            + duration_text(whole_seconds(instant_nanos(now) - instant_nanos(prev.last_change))),
{
    assert(config.telegram_bot_token.deep_view() is Some);
    assert(config.telegram_chat_id.deep_view() is Some);
}

} // verus!
