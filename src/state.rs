//! The shared application state and its two transitions.
use crate::models::Network;
use vstd::prelude::*;

verus! {

/// Service connection status.
#[derive(Debug, Clone, PartialEq, Eq)]
pub enum ServiceStatus {
    /// Service is not running
    NotRunning,
    /// Service is connected and authenticated
    Connected,
    /// Service is authenticating with an auth URL
    Authenticating(String),
}

impl Default for ServiceStatus {
    fn default() -> (r: Self)
        ensures
            r is NotRunning,
    {
        ServiceStatus::NotRunning
    }
}

/// Application state. `last_update` is the clock reading, in milliseconds,
/// of the last transition. The fields are read through the accessors and
/// changed through the two transitions (and `begin_refresh`).
#[derive(Debug)]
pub struct AppState {
    network: Option<Network>,
    service_status: ServiceStatus,
    last_update: Option<u64>,
    refreshing: bool,
}

/// Relies on `SystemTime::now`: milliseconds since the Unix epoch, 0 when the
/// clock stands before it.
#[verifier::external_body]
fn clock_millis() -> u64 {
    std::time::SystemTime::now().duration_since(std::time::UNIX_EPOCH).map(|d| d.as_millis() as u64).unwrap_or(0)
}

/// A record last updated at `last_update` is stale at `now` when more than
/// `threshold_ms` have passed, or when it was never updated.
pub open spec fn is_stale_at(last_update: Option<u64>, now: u64, threshold_ms: u64) -> bool {
    match last_update {
        Some(last) => now > last && now - last > threshold_ms,
        None => true,
    }
}

/// Whether a record last updated at `last_update` is stale at `now`.
pub fn stale_at(last_update: Option<u64>, now: u64, threshold_ms: u64) -> (r: bool)
    ensures
        r == is_stale_at(last_update, now, threshold_ms),
{
    match last_update {
        Some(last) => now > last && now - last > threshold_ms,
        None => true,
    }
}

/// A state as created at process start: not running, nothing cached.
pub open spec fn is_initial(s: AppState) -> bool {
    s.spec_network() is None && s.spec_status() is NotRunning && s.spec_last_update() is None && !s.spec_refreshing()
}

/// `s` is the state after `update_network(network)`.
pub open spec fn network_updated(s: AppState, network: Option<Network>) -> bool {
    &&& s.spec_network() == network
    &&& s.spec_status() == (if network is Some {
        ServiceStatus::Connected
    } else {
        ServiceStatus::NotRunning
    })
    &&& s.spec_last_update() is Some
    &&& !s.spec_refreshing()
}

/// `s` is the state after `set_authenticating(url)`.
pub open spec fn authenticating_set(s: AppState, url: String) -> bool {
    &&& s.spec_status() == ServiceStatus::Authenticating(url)
    &&& s.spec_network() is None
    &&& s.spec_last_update() is Some
    &&& !s.spec_refreshing()
}

/// From the initial state, entering authentication with a URL shows that URL
/// and drops any snapshot; a later update with a snapshot connects with it,
/// and an update without one reads as not running. Every state on the way
/// holds data exactly while connected.
pub proof fn lemma_state_transitions(
    s0: AppState,
    s1: AppState,
    s2: AppState,
    s3: AppState,
    url: String,
    snapshot: Network,
)
    requires
        is_initial(s0),
        authenticating_set(s1, url),
        network_updated(s2, Some(snapshot)),
        network_updated(s3, None),
    ensures
        s0.spec_status() is NotRunning,
        s1.spec_status() == ServiceStatus::Authenticating(url),
        s1.spec_network() is None,
        s2.spec_status() is Connected,
        s2.spec_network() == Some(snapshot),
        s3.spec_status() is NotRunning,
        s3.spec_network() is None,
        s0.wf() && s1.wf() && s2.wf() && s3.wf(),
{
}

impl Default for AppState {
    fn default() -> (r: Self)
        ensures
            r.wf(),
            is_initial(r),
    {
        AppState { network: None, service_status: ServiceStatus::NotRunning, last_update: None, refreshing: false }
    }
}

impl AppState {
    pub closed spec fn spec_network(&self) -> Option<Network> {
        self.network
    }

    pub closed spec fn spec_status(&self) -> ServiceStatus {
        self.service_status
    }

    pub closed spec fn spec_last_update(&self) -> Option<u64> {
        self.last_update
    }

    pub closed spec fn spec_refreshing(&self) -> bool {
        self.refreshing
    }

    /// Data is held exactly while the service is connected.
    pub open spec fn wf(&self) -> bool {
        self.spec_network() is Some <==> self.spec_status() is Connected
    }

    pub fn new() -> (r: Self)
        ensures
            r.wf(),
            is_initial(r),
    {
        AppState { network: None, service_status: ServiceStatus::NotRunning, last_update: None, refreshing: false }
    }

    pub fn network(&self) -> (r: Option<&Network>)
        ensures
            r matches Some(n) ==> self.spec_network() == Some(*n),
            r is None <==> self.spec_network() is None,
    {
        self.network.as_ref()
    }

    pub fn service_status(&self) -> (r: &ServiceStatus)
        ensures
            *r == self.spec_status(),
    {
        &self.service_status
    }

    /// The authentication URL, while authenticating.
    pub fn auth_url(&self) -> (r: Option<&str>)
        ensures
            r matches Some(u) ==> self.spec_status() matches ServiceStatus::Authenticating(url) && u@ == url@,
            r is None <==> !(self.spec_status() is Authenticating),
    {
        match &self.service_status {
            ServiceStatus::Authenticating(url) => Some(url.as_str()),
            _ => None,
        }
    }

    /// Replace the snapshot: connected with data, not running without.
    pub fn update_network(&mut self, network: Option<Network>)
        ensures
            final(self).wf(),
            network_updated(*final(self), network),
    {
        let has_data = network.is_some();
        self.network = network;
        self.service_status = if has_data {
            ServiceStatus::Connected
        } else {
            ServiceStatus::NotRunning
        };
        self.last_update = Some(clock_millis());
        self.refreshing = false;
    }

    /// Enter the authenticating status; any cached snapshot is dropped.
    pub fn set_authenticating(&mut self, auth_url: String)
        ensures
            final(self).wf(),
            authenticating_set(*final(self), auth_url),
    {
        self.service_status = ServiceStatus::Authenticating(auth_url);
        self.network = None;
        self.last_update = Some(clock_millis());
        self.refreshing = false;
    }

    /// The clock reading of the last transition, if any.
    pub fn last_update(&self) -> (r: Option<u64>)
        ensures
            r == self.spec_last_update(),
    {
        self.last_update
    }

    /// Whether a refresh is under way.
    pub fn is_refreshing(&self) -> (r: bool)
        ensures
            r == self.spec_refreshing(),
    {
        self.refreshing
    }

    /// Mark a refresh as under way; the next transition ends it.
    pub fn begin_refresh(&mut self)
        ensures
            final(self).spec_refreshing(),
            final(self).spec_network() == old(self).spec_network(),
            final(self).spec_status() == old(self).spec_status(),
            final(self).spec_last_update() == old(self).spec_last_update(),
    {
        self.refreshing = true;
    }

    /// Whether a refresh should start at clock reading `now`: none is under
    /// way and the data is stale.
    pub fn should_refresh_at(&self, now: u64, threshold_ms: u64) -> (r: bool)
        ensures
            r == (!self.spec_refreshing() && is_stale_at(self.spec_last_update(), now, threshold_ms)),
    {
        !self.refreshing && stale_at(self.last_update, now, threshold_ms)
    }

    /// Whether more than `threshold_ms` have passed since the last update,
    /// by the clock now; always so before the first update.
    pub fn is_stale(&self, threshold_ms: u64) -> (r: bool)
        ensures
            self.spec_last_update() is None ==> r,
    {
        stale_at(self.last_update, clock_millis(), threshold_ms)
    }

    /// Whether a refresh should start: none is running and the data is stale.
    pub fn should_refresh(&self, threshold_ms: u64) -> (r: bool)
        ensures
            self.spec_refreshing() ==> !r,
            !self.spec_refreshing() && self.spec_last_update() is None ==> r,
    {
        self.should_refresh_at(clock_millis(), threshold_ms)
    }
}

} // verus!
