//! The state of the services as shown on the board: the status of each
//! service and the map from service id to its current state.

use vstd::prelude::*;
use dashmap::DashMap;
use crate::text::clone_optional_text;
use crate::time::Instant;

verus! {

/// The status of a service: reachable, reachable but slow, or unreachable.
#[derive(Clone, Copy, Debug, PartialEq, Eq, Structural)]
pub enum Status {
    Up,
    Degraded,
    Down,
}

/// The lower-case word for a status, as used in check records and reports.
pub open spec fn status_text(s: Status) -> Seq<char> {
    match s {
        Status::Up => "up"@,
        Status::Degraded => "degraded"@,
        Status::Down => "down"@,
    }
}

impl Status {
    /// The lower-case word for this status.
    pub fn as_str(&self) -> (res: &'static str)
        ensures
            res@ == status_text(*self),
    {
        match self {
            Status::Up => "up",
            Status::Degraded => "degraded",
            Status::Down => "down",
        }
    }

    /// The lower-case word for this status, as an owned string.
    pub fn to_string(&self) -> (res: String)
        ensures
            res@ == status_text(*self),
    {
        String::from_str(self.as_str())
    }
}

/// The state of a service as shown on the board.
#[derive(Debug)]
pub struct ServiceState {
    pub status: Status,
    pub latency_ms: u32,
    pub last_check: Instant,
    pub last_change: Instant,
    pub consecutive_failures: u32,
    pub last_error: Option<String>,
}

/// The value of a [`ServiceState`], its error text as characters.
pub struct ServiceStateView {
    pub status: Status,
    pub latency_ms: u32,
    pub last_check: Instant,
    pub last_change: Instant,
    pub consecutive_failures: u32,
    pub last_error: Option<Seq<char>>,
}

impl View for ServiceState {
    type V = ServiceStateView;

    open spec fn view(&self) -> ServiceStateView {
        ServiceStateView {
            status: self.status,
            latency_ms: self.latency_ms,
            last_check: self.last_check,
            last_change: self.last_change,
            consecutive_failures: self.consecutive_failures,
            last_error: self.last_error.deep_view(),
        }
    }
}

impl Clone for ServiceState {
    fn clone(&self) -> (res: Self)
        ensures
            res@ == self@,
    {
        ServiceState {
            status: self.status,
            latency_ms: self.latency_ms,
            last_check: self.last_check,
            last_change: self.last_change,
            consecutive_failures: self.consecutive_failures,
            last_error: clone_optional_text(&self.last_error),
        }
    }
}

/// `dashmap::DashMap`, the concurrent map that holds the service states;
/// opaque to Verus, its contents are named by [`state_entries`].
#[verifier::external_type_specification]
#[verifier::external_body]
#[verifier::reject_recursive_types(K)]
#[verifier::reject_recursive_types(V)]
#[verifier::reject_recursive_types(S)]
pub struct ExDashMap<K, V, S>(DashMap<K, V, S>);

/// The entries of a state map: for each service id, the state stored for it.
pub uninterp spec fn state_entries(map: DashMap<String, ServiceState>) -> Map<Seq<char>, ServiceStateView>;

/// An empty map (`DashMap::new`).
#[verifier::external_body]
fn dashmap_new() -> (res: DashMap<String, ServiceState>)
    ensures
        state_entries(res).dom().is_empty(),
{
    DashMap::new()
}

/// A copy of the state stored under `id` (`DashMap::get`, then a clone of
/// the value).
#[verifier::external_body]
fn dashmap_get(map: &DashMap<String, ServiceState>, id: &str) -> (res: Option<ServiceState>)
    ensures
        match res {
            Some(s) => state_entries(*map).contains_key(id@) && s@ == state_entries(*map)[id@],
            None => !state_entries(*map).contains_key(id@),
        },
{
    match map.get(id) {
        Some(entry) => Some(entry.value().clone()),
        None => None,
    }
}

/// Stores `state` under `id`, replacing what was there (`DashMap::insert`).
#[verifier::external_body]
fn dashmap_insert(map: &mut DashMap<String, ServiceState>, id: String, state: ServiceState)
    ensures
        state_entries(*final(map)) == state_entries(*old(map)).insert(id@, state@),
{
    map.insert(id, state);
}

/// The states of the services, keyed by service id.
pub struct ServiceStates {
    map: DashMap<String, ServiceState>,
}

impl View for ServiceStates {
    type V = Map<Seq<char>, ServiceStateView>;

    closed spec fn view(&self) -> Map<Seq<char>, ServiceStateView> {
        state_entries(self.map)
    }
}

impl ServiceStates {
    /// No states yet.
    pub fn new() -> (res: ServiceStates)
        ensures
            res@.dom().is_empty(),
    {
        ServiceStates { map: dashmap_new() }
    }

    /// The state of service `id`, if it was checked.
    pub fn get(&self, id: &str) -> (res: Option<ServiceState>)
        ensures
            match res {
                Some(s) => self@.contains_key(id@) && s@ == self@[id@],
                None => !self@.contains_key(id@),
            },
    {
        dashmap_get(&self.map, id)
    }

    /// Records `state` as the state of service `id`.
    pub fn insert(&mut self, id: String, state: ServiceState)
        ensures
            final(self)@ == old(self)@.insert(id@, state@),
    {
        dashmap_insert(&mut self.map, id, state);
    }
}

} // verus!
