//! Service state classification, screening of the resource listing, and the
//! retry engine that turns both into a network snapshot.
use crate::error::TwingateError;
use crate::models::Network;
use crate::text::{
    chars_of, contains, eq_ignore_ascii_case, eq_ascii_nocase, has_infix, lower_of, lowercase,
    string_of, trim, trimmed,
};
use vstd::prelude::*;

verus! {

pub const MAX_RETRIES: u32 = 8;

pub const BASE_DELAY_MS: u64 = 1000;

pub const MAX_DELAY_MS: u64 = 10000;

/// Pause between two readiness checks.
pub const READY_POLL_MS: u64 = 1000;

/// The state of the daemon, as its status output tells it.
#[derive(Debug, Clone, Copy, PartialEq, Eq, Structural)]
pub enum ServiceState {
    NotRunning,
    Starting,
    Connecting,
    Connected,
    AuthRequired,
}

/// Lower-case text that says authentication is required.
pub open spec fn says_auth_required(t: Seq<char>) -> bool {
    has_infix(t, "authentication is required"@) || has_infix(t, "auth required"@) || has_infix(
        t,
        "authentication required"@,
    ) || has_infix(t, "user authentication is required"@) || has_infix(
        t,
        "needs authentication"@,
    ) || has_infix(t, "not authenticated"@) || has_infix(t, "authentication needed"@)
        || has_infix(t, "please authenticate"@) || has_infix(t, "requires authentication"@) || (
    has_infix(t, "auth"@) && (has_infix(t, "required"@) || has_infix(t, "needed"@) || has_infix(
        t,
        "expired"@,
    )))
}

/// Lower-case text that says the service is not running.
pub open spec fn says_not_running(t: Seq<char>) -> bool {
    has_infix(t, "not-running"@) || has_infix(t, "offline"@) || has_infix(t, "stopped"@)
        || has_infix(t, "not running"@) || has_infix(t, "inactive"@) || has_infix(t, "dead"@)
}

/// Lower-case text that says the service is starting.
pub open spec fn says_starting(t: Seq<char>) -> bool {
    has_infix(t, "starting"@) || has_infix(t, "initializing"@) || has_infix(t, "booting"@)
        || has_infix(t, "loading"@) || has_infix(t, "launching"@)
}

/// Lower-case text that says the service is connecting.
pub open spec fn says_connecting(t: Seq<char>) -> bool {
    has_infix(t, "connecting"@) || has_infix(t, "authenticating"@) || has_infix(t, "handshake"@)
        || has_infix(t, "establishing"@) || has_infix(t, "negotiating"@)
}

/// Lower-case text that says the service is connected.
pub open spec fn says_connected(t: Seq<char>) -> bool {
    has_infix(t, "online"@) || has_infix(t, "connected"@) || has_infix(t, "ready"@) || has_infix(
        t,
        "active"@,
    ) || has_infix(t, "established"@)
}

/// The state that lower-case status text names; the first family that
/// matches wins, and text that names none is taken as connecting.
pub open spec fn state_of_text(t: Seq<char>) -> ServiceState {
    if says_auth_required(t) {
        ServiceState::AuthRequired
    } else if says_not_running(t) {
        ServiceState::NotRunning
    } else if says_starting(t) {
        ServiceState::Starting
    } else if says_connecting(t) {
        ServiceState::Connecting
    } else if says_connected(t) {
        ServiceState::Connected
    } else {
        ServiceState::Connecting
    }
}

/// The state that a status output names, read without regard to case or to
/// surrounding white space.
pub open spec fn classify(output: Seq<char>) -> ServiceState {
    state_of_text(lower_of(trimmed(output)))
}

/// An authentication-required phrase decides the state, whatever else the
/// status output says (a connected phrase included).
pub proof fn lemma_auth_required_dominates(output: Seq<char>)
    requires
        says_auth_required(lower_of(trimmed(output))),
    ensures
        classify(output) == ServiceState::AuthRequired,
{
}

/// Status output in which no family of phrases is found reads as connecting.
pub proof fn lemma_unrecognized_is_connecting(output: Seq<char>)
    requires
        !says_auth_required(lower_of(trimmed(output))),
        !says_not_running(lower_of(trimmed(output))),
        !says_starting(lower_of(trimmed(output))),
        !says_connecting(lower_of(trimmed(output))),
        !says_connected(lower_of(trimmed(output))),
    ensures
        classify(output) == ServiceState::Connecting,
{
}

impl ServiceState {
    /// The state that a status output names.
    pub fn from_status_output(output: &str) -> (r: ServiceState)
        ensures
            r == classify(output@),
    {
        let raw = chars_of(output);
        let trimmed_chars = trim(raw.as_slice());
        let t = lowercase(trimmed_chars.as_slice());
        Self::from_lowered(t.as_slice())
    }

    /// The state that lower-case status text names.
    pub fn from_lowered(t: &[char]) -> (r: ServiceState)
        ensures
            r == state_of_text(t@),
    {
        if contains(t, "authentication is required") || contains(t, "auth required") || contains(
            t,
            "authentication required",
        ) || contains(t, "user authentication is required") || contains(
            t,
            "needs authentication",
        ) || contains(t, "not authenticated") || contains(t, "authentication needed")
            || contains(t, "please authenticate") || contains(t, "requires authentication") || (
        contains(t, "auth") && (contains(t, "required") || contains(t, "needed") || contains(
            t,
            "expired",
        ))) {
            return ServiceState::AuthRequired;
        }
        if contains(t, "not-running") || contains(t, "offline") || contains(t, "stopped")
            || contains(t, "not running") || contains(t, "inactive") || contains(t, "dead") {
            ServiceState::NotRunning
        } else if contains(t, "starting") || contains(t, "initializing") || contains(t, "booting")
            || contains(t, "loading") || contains(t, "launching") {
            ServiceState::Starting
        } else if contains(t, "connecting") || contains(t, "authenticating") || contains(
            t,
            "handshake",
        ) || contains(t, "establishing") || contains(t, "negotiating") {
            ServiceState::Connecting
        } else if contains(t, "online") || contains(t, "connected") || contains(t, "ready")
            || contains(t, "active") || contains(t, "established") {
            ServiceState::Connected
        } else {
            ServiceState::Connecting
        }
    }
}

/// Lower-case resource-listing text that asks for authentication.
pub open spec fn listing_asks_auth(low: Seq<char>) -> bool {
    has_infix(low, "authentication"@) || has_infix(low, "auth required"@) || has_infix(
        low,
        "not authenticated"@,
    ) || has_infix(low, "please authenticate"@) || has_infix(low, "login required"@)
}

/// Listing text that is, as a whole, one of the known transitional messages.
pub open spec fn is_transitional_reply(t: Seq<char>) -> bool {
    eq_ascii_nocase(t, "not connected"@) || eq_ascii_nocase(t, "offline"@) || eq_ascii_nocase(
        t,
        "connecting"@,
    ) || eq_ascii_nocase(t, "authenticating"@) || eq_ascii_nocase(t, "starting"@)
        || eq_ascii_nocase(t, "initializing"@) || eq_ascii_nocase(t, "waiting"@) || eq_ascii_nocase(
        t,
        "loading"@,
    ) || eq_ascii_nocase(t, "establishing"@) || eq_ascii_nocase(t, "handshaking"@)
        || eq_ascii_nocase(t, "negotiating"@) || eq_ascii_nocase(t, "not ready"@) || eq_ascii_nocase(
        t,
        "unavailable"@,
    )
}

/// The outcome of screening a resource listing: the trimmed JSON body to
/// parse, or the transient error that the text amounts to.
pub open spec fn listing_outcome(output: Seq<char>) -> Result<Seq<char>, TwingateError> {
    listing_outcome_given(trimmed(output), lower_of(trimmed(output)))
}

/// The outcome of screening trimmed listing text `t`, given its lower-case
/// form `low`.
pub open spec fn listing_outcome_given(t: Seq<char>, low: Seq<char>) -> Result<
    Seq<char>,
    TwingateError,
> {
    if t.len() == 0 {
        Err(TwingateError::ServiceConnecting)
    } else if listing_asks_auth(low) {
        Err(TwingateError::AuthenticationRequired)
    } else if is_transitional_reply(t) {
        Err(TwingateError::ServiceConnecting)
    } else if t[0] != '{' && t[0] != '[' {
        if has_infix(low, "auth"@) {
            Err(TwingateError::AuthenticationRequired)
        } else {
            Err(TwingateError::ServiceConnecting)
        }
    } else {
        Ok(t)
    }
}

/// Screen the output of the resource listing: the JSON body to parse, or
/// `ServiceConnecting` / `AuthenticationRequired` when the text is a
/// transitional or authentication message rather than JSON.
pub fn resources_json_body(output: &str) -> (r: Result<String, TwingateError>)
    ensures
        match (r, listing_outcome(output@)) {
            (Ok(body), Ok(t)) => body@ == t,
            (Err(e), Err(f)) => e == f,
            _ => false,
        },
{
    let raw = chars_of(output);
    let t = trim(raw.as_slice());
    let low = lowercase(t.as_slice());
    screen_listing(t.as_slice(), low.as_slice())
}

/// Screen trimmed listing text `t`, given its lower-case form `low`.
pub fn screen_listing(t: &[char], low: &[char]) -> (r: Result<String, TwingateError>)
    ensures
        match (r, listing_outcome_given(t@, low@)) {
            (Ok(body), Ok(x)) => body@ == x,
            (Err(e), Err(f)) => e == f,
            _ => false,
        },
{
    if t.len() == 0 {
        return Err(TwingateError::ServiceConnecting);
    }
    if contains(low, "authentication") || contains(low, "auth required") || contains(
        low,
        "not authenticated",
    ) || contains(low, "please authenticate") || contains(low, "login required") {
        return Err(TwingateError::AuthenticationRequired);
    }
    if eq_ignore_ascii_case(t, "not connected") || eq_ignore_ascii_case(t, "offline")
        || eq_ignore_ascii_case(t, "connecting") || eq_ignore_ascii_case(t, "authenticating")
        || eq_ignore_ascii_case(t, "starting") || eq_ignore_ascii_case(t, "initializing")
        || eq_ignore_ascii_case(t, "waiting") || eq_ignore_ascii_case(t, "loading")
        || eq_ignore_ascii_case(t, "establishing") || eq_ignore_ascii_case(t, "handshaking")
        || eq_ignore_ascii_case(t, "negotiating") || eq_ignore_ascii_case(t, "not ready")
        || eq_ignore_ascii_case(t, "unavailable") {
        return Err(TwingateError::ServiceConnecting);
    }
    if t[0] != '{' && t[0] != '[' {
        if contains(low, "auth") {
            return Err(TwingateError::AuthenticationRequired);
        }
        return Err(TwingateError::ServiceConnecting);
    }
    Ok(string_of(t))
}

/// What the fetch engine asks its driver to do next.
#[derive(Debug)]
pub enum FetchStep {
    /// Run the status command and report the state it names.
    CheckStatus,
    /// Run the resource listing and report the snapshot parsed from it.
    FetchResources,
    /// Sleep this many milliseconds, then report.
    Wait(u64),
    /// The fetch is over, with this result.
    Finished(Result<Option<Network>, TwingateError>),
}

/// Which report the fetch engine waits for.
#[derive(Debug, Clone, Copy, PartialEq, Eq, Structural)]
pub enum FetchPhase {
    Status,
    Resources,
    Waiting,
    Done,
}

/// The retry engine of a network fetch: a status check, then the resource
/// listing where the service is connected (or where the status could not be
/// read), retried with exponential backoff while the service is in
/// transition. `status_error` keeps the status failure while the listing is
/// tried in its place.
#[derive(Debug)]
pub struct NetworkFetch {
    pub max_retries: u32,
    pub retry_count: u32,
    pub delay_ms: u64,
    pub status_error: Option<TwingateError>,
    pub phase: FetchPhase,
}

/// The delay before retry `k + 1`: the base delay, doubled for each retry,
/// capped at the maximum.
pub open spec fn backoff_delay(k: nat) -> u64
    decreases k,
{
    if k == 0 {
        BASE_DELAY_MS
    } else {
        next_delay(backoff_delay((k - 1) as nat))
    }
}

pub open spec fn next_delay(d: u64) -> u64 {
    if d * 2 > MAX_DELAY_MS {
        MAX_DELAY_MS
    } else {
        (d * 2) as u64
    }
}

/// The engine at the start of a fetch.
pub open spec fn fetch_start(max_retries: u32) -> NetworkFetch {
    NetworkFetch {
        max_retries,
        retry_count: 0,
        delay_ms: BASE_DELAY_MS,
        status_error: None,
        phase: FetchPhase::Status,
    }
}

/// The engine once the fetch is over.
pub open spec fn finished(f: NetworkFetch) -> NetworkFetch {
    NetworkFetch { status_error: None, phase: FetchPhase::Done, ..f }
}

/// After a transient outcome: wait and retry, or give up once the retries
/// are spent.
pub open spec fn after_transient(f: NetworkFetch) -> (NetworkFetch, FetchStep) {
    if f.retry_count >= f.max_retries {
        (
            finished(f),
            FetchStep::Finished(
                Err(TwingateError::RetryLimitExceeded { attempts: (f.max_retries + 1) as u32 }),
            ),
        )
    } else {
        (NetworkFetch { phase: FetchPhase::Waiting, ..f }, FetchStep::Wait(f.delay_ms))
    }
}

/// The step taken on the result of a status check.
pub open spec fn after_status(f: NetworkFetch, result: Result<ServiceState, TwingateError>) -> (
    NetworkFetch,
    FetchStep,
) {
    match result {
        Ok(ServiceState::NotRunning) => (finished(f), FetchStep::Finished(Ok(None))),
        Ok(ServiceState::AuthRequired) => (
            finished(f),
            FetchStep::Finished(Err(TwingateError::AuthenticationRequired)),
        ),
        Ok(ServiceState::Connected) => (
            NetworkFetch { status_error: None, phase: FetchPhase::Resources, ..f },
            FetchStep::FetchResources,
        ),
        Ok(_) => after_transient(f),
        Err(e) => (
            NetworkFetch { status_error: Some(e), phase: FetchPhase::Resources, ..f },
            FetchStep::FetchResources,
        ),
    }
}

/// The step taken on the result of the resource listing.
pub open spec fn after_resources(
    f: NetworkFetch,
    result: Result<Option<Network>, TwingateError>,
) -> (NetworkFetch, FetchStep) {
    match result {
        Ok(n) => (finished(f), FetchStep::Finished(Ok(n))),
        Err(TwingateError::AuthenticationRequired) => (
            finished(f),
            FetchStep::Finished(Err(TwingateError::AuthenticationRequired)),
        ),
        Err(e) => if is_retryable_listing_error(e) {
            after_transient(f)
        } else {
            (
            finished(f),
            FetchStep::Finished(
                Err(
                    match f.status_error {
                        Some(s) => s,
                        None => e,
                    },
                ),
            ),
        )
        },
    }
}

/// Listing failures that the fetch loop retries: a service still getting
/// ready, and output that could not be read as UTF-8 or parsed as JSON.
pub open spec fn is_retryable_listing_error(e: TwingateError) -> bool {
    e is ServiceConnecting || e is JsonError || e is InvalidUtf8
}

/// The step taken once a wait is over.
pub open spec fn after_wait(f: NetworkFetch) -> (NetworkFetch, FetchStep) {
    (
        NetworkFetch {
            retry_count: (f.retry_count + 1) as u32,
            delay_ms: next_delay(f.delay_ms),
            phase: FetchPhase::Status,
            ..f
        },
        FetchStep::CheckStatus,
    )
}

impl NetworkFetch {
    pub open spec fn wf(&self) -> bool {
        &&& self.max_retries < u32::MAX
        &&& self.retry_count <= self.max_retries
        &&& self.delay_ms <= MAX_DELAY_MS
        &&& self.phase == FetchPhase::Waiting ==> self.retry_count < self.max_retries
    }

    /// A fetch of at most `max_retries + 1` status checks. Its first step is
    /// always `CheckStatus`.
    pub fn new(max_retries: u32) -> (r: Self)
        requires
            max_retries < u32::MAX,
        ensures
            r == fetch_start(max_retries),
            r.wf(),
    {
        NetworkFetch {
            max_retries,
            retry_count: 0,
            delay_ms: BASE_DELAY_MS,
            status_error: None,
            phase: FetchPhase::Status,
        }
    }

    fn finish(&mut self, result: Result<Option<Network>, TwingateError>) -> (r: FetchStep)
        ensures
            *final(self) == finished(*old(self)),
            r == FetchStep::Finished(result),
    {
        self.status_error = None;
        self.phase = FetchPhase::Done;
        FetchStep::Finished(result)
    }

    fn retry_or_give_up(&mut self) -> (r: FetchStep)
        requires
            old(self).wf(),
        ensures
            (*final(self), r) == after_transient(*old(self)),
            final(self).wf(),
    {
        if self.retry_count >= self.max_retries {
            let attempts = self.max_retries + 1;
            self.finish(Err(TwingateError::RetryLimitExceeded { attempts }))
        } else {
            self.phase = FetchPhase::Waiting;
            FetchStep::Wait(self.delay_ms)
        }
    }

    /// Report the result of a status check.
    pub fn on_status(&mut self, result: Result<ServiceState, TwingateError>) -> (r: FetchStep)
        requires
            old(self).wf(),
            old(self).phase == FetchPhase::Status,
        ensures
            (*final(self), r) == after_status(*old(self), result),
            final(self).wf(),
    {
        match result {
            Ok(ServiceState::NotRunning) => self.finish(Ok(None)),
            Ok(ServiceState::AuthRequired) => self.finish(
                Err(TwingateError::AuthenticationRequired),
            ),
            Ok(ServiceState::Connected) => {
                self.status_error = None;
                self.phase = FetchPhase::Resources;
                FetchStep::FetchResources
            },
            Ok(_) => self.retry_or_give_up(),
            Err(e) => {
                self.status_error = Some(e);
                self.phase = FetchPhase::Resources;
                FetchStep::FetchResources
            },
        }
    }

    /// Report the result of the resource listing.
    pub fn on_resources(&mut self, result: Result<Option<Network>, TwingateError>) -> (r:
        FetchStep)
        requires
            old(self).wf(),
            old(self).phase == FetchPhase::Resources,
        ensures
            (*final(self), r) == after_resources(*old(self), result),
            final(self).wf(),
    {
        match result {
            Ok(n) => self.finish(Ok(n)),
            Err(TwingateError::AuthenticationRequired) => self.finish(
                Err(TwingateError::AuthenticationRequired),
            ),
            Err(TwingateError::ServiceConnecting) | Err(TwingateError::JsonError { .. }) | Err(
                TwingateError::InvalidUtf8,
            ) => self.retry_or_give_up(),
            Err(e) => {
                let kept = self.status_error.take();
                let err = match kept {
                    Some(s) => s,
                    None => e,
                };
                self.finish(Err(err))
            },
        }
    }

    /// Report that the wait is over.
    pub fn on_wait_over(&mut self) -> (r: FetchStep)
        requires
            old(self).wf(),
            old(self).phase == FetchPhase::Waiting,
        ensures
            (*final(self), r) == after_wait(*old(self)),
            final(self).wf(),
    {
        self.retry_count = self.retry_count + 1;
        self.delay_ms = if self.delay_ms * 2 > MAX_DELAY_MS {
            MAX_DELAY_MS
        } else {
            self.delay_ms * 2
        };
        self.phase = FetchPhase::Status;
        FetchStep::CheckStatus
    }
}

/// The engine after `k` rounds in which the status says the service is
/// starting and the wait that follows is over.
pub open spec fn starting_rounds(f: NetworkFetch, k: nat) -> NetworkFetch
    decreases k,
{
    if k == 0 {
        f
    } else {
        starting_rounds(after_wait(after_status(f, Ok(ServiceState::Starting)).0).0, (k - 1) as nat)
    }
}

/// The engine before status check `k + 1` of a fetch that has seen the
/// service starting ever since it began.
pub open spec fn retrying_at(max_retries: u32, k: nat) -> NetworkFetch {
    NetworkFetch {
        max_retries,
        retry_count: k as u32,
        delay_ms: backoff_delay(k),
        status_error: None,
        phase: FetchPhase::Status,
    }
}

proof fn lemma_backoff_bounded(k: nat)
    ensures
        backoff_delay(k) <= MAX_DELAY_MS,
    decreases k,
{
    if k > 0 {
        lemma_backoff_bounded((k - 1) as nat);
    }
}

proof fn lemma_starting_rounds(max_retries: u32, j: nat, k: nat)
    requires
        j + k <= max_retries,
    ensures
        starting_rounds(retrying_at(max_retries, j), k) == retrying_at(max_retries, j + k),
    decreases k,
{
    if k > 0 {
        assert(after_wait(after_status(retrying_at(max_retries, j), Ok(ServiceState::Starting)).0).0
            == retrying_at(max_retries, j + 1));
        lemma_starting_rounds(max_retries, j + 1, (k - 1) as nat);
    }
}

/// A status that keeps saying "starting" is checked exactly
/// `max_retries + 1` times: each of the first `max_retries` checks is
/// followed by a backoff wait, and the last one ends the fetch with
/// `RetryLimitExceeded { attempts: max_retries + 1 }`.
pub proof fn lemma_retry_exhaustion(max_retries: u32)
    requires
        max_retries < u32::MAX,
    ensures
        forall|k: nat|
            k < max_retries ==> #[trigger] after_status(
                starting_rounds(fetch_start(max_retries), k),
                Ok(ServiceState::Starting),
            ).1 == FetchStep::Wait(backoff_delay(k)),
        after_status(
            starting_rounds(fetch_start(max_retries), max_retries as nat),
            Ok(ServiceState::Starting),
        ).1 == FetchStep::Finished(
            Err(TwingateError::RetryLimitExceeded { attempts: (max_retries + 1) as u32 }),
        ),
        after_status(
            starting_rounds(fetch_start(max_retries), max_retries as nat),
            Ok(ServiceState::Starting),
        ).0.phase == FetchPhase::Done,
{
    assert(fetch_start(max_retries) == retrying_at(max_retries, 0));
    assert forall|k: nat| k < max_retries implies #[trigger] after_status(
        starting_rounds(fetch_start(max_retries), k),
        Ok(ServiceState::Starting),
    ).1 == FetchStep::Wait(backoff_delay(k)) by {
        lemma_starting_rounds(max_retries, 0, k);
    }
    lemma_starting_rounds(max_retries, 0, max_retries as nat);
}

/// A first status check that finds the service not running ends the fetch
/// at once with no snapshot and no retry spent.
pub proof fn lemma_not_running_short_circuit(max_retries: u32)
    ensures
        after_status(fetch_start(max_retries), Ok(ServiceState::NotRunning)).1
            == FetchStep::Finished(Ok(None)),
        after_status(fetch_start(max_retries), Ok(ServiceState::NotRunning)).0.retry_count == 0,
        after_status(fetch_start(max_retries), Ok(ServiceState::NotRunning)).0.phase
            == FetchPhase::Done,
{
}

/// What a wait for the service to be ready does next.
#[derive(Debug)]
pub enum ReadyStep {
    /// Check the status.
    CheckStatus,
    /// The service is connected.
    Ready,
    /// Sleep this many milliseconds before the next check.
    Sleep(u64),
    /// The time allowed is over.
    TimedOut(TwingateError),
}

/// Before a check: check while less than `timeout_seconds` have passed,
/// else time out with `AuthenticationTimeout`.
pub fn ready_before_check(elapsed_ms: u64, timeout_seconds: u64) -> (r: ReadyStep)
    ensures
        elapsed_ms < timeout_seconds * 1000 ==> r is CheckStatus,
        elapsed_ms >= timeout_seconds * 1000 ==> (r matches ReadyStep::TimedOut(
            TwingateError::AuthenticationTimeout { seconds },
        ) && seconds == timeout_seconds),
{
    if elapsed_ms / 1000 < timeout_seconds {
        ReadyStep::CheckStatus
    } else {
        ReadyStep::TimedOut(TwingateError::AuthenticationTimeout { seconds: timeout_seconds })
    }
}

/// After a check: ready once connected; any other state, or a failed check,
/// means another check after a pause.
pub fn ready_after_check(observed: &Result<ServiceState, TwingateError>) -> (r: ReadyStep)
    ensures
        *observed == Ok::<ServiceState, TwingateError>(ServiceState::Connected) ==> r is Ready,
        *observed != Ok::<ServiceState, TwingateError>(ServiceState::Connected) ==> (r matches ReadyStep::Sleep(ms) && ms == READY_POLL_MS),
{
    match observed {
        Ok(ServiceState::Connected) => ReadyStep::Ready,
        _ => ReadyStep::Sleep(READY_POLL_MS),
    }
}

} // verus!
