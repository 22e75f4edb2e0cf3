//! The service authentication flow, as a state machine: its driver performs
//! each action it returns (runs a daemon command, opens a browser, sleeps,
//! updates the shared state) and reports back what came of it.
//!
//! Detecting: the status is read; when it shows authentication is needed,
//! the URL is looked for in the status, the resource listing and a few other
//! daemon commands, over several attempts. Authenticating: the shared state
//! is marked, the URL is opened. Verifying: after a settle delay the driver
//! waits for the service to be connected, and the mark is cleared.
use crate::error::TwingateError;
use crate::managers::{
    auth_url_pattern_list, auth_url_patterns, command_url_pattern_list, command_url_patterns,
    says_auth_needed, AuthStateManager,
};
use crate::models::Network;
use crate::text::{chars_of, contains, has_infix, last_segment, last_segment_of, lower_of, lowercase, string_of};
use crate::tray::{resolve_resource, resource_index};
use crate::utils::{opt_chars, pattern_views, url_in, url_in_chars, url_near, url_near_chars};
use vstd::prelude::*;

verus! {

pub const AUTH_RETRY_ATTEMPTS: u32 = 10;

pub const AUTH_STATUS_CHECK_DELAY_MS: u64 = 500;

pub const AUTH_TIMEOUT_SECONDS: u64 = 120;

/// Attempts made to find the authentication URL.
pub const URL_DETECTION_ATTEMPTS: u32 = 8;

/// Pause between two attempts to find the authentication URL.
pub const URL_DETECTION_PAUSE_MS: u64 = 1500;

/// Pause after opening the URL, before waiting for the service.
pub const BROWSER_SETTLE_MS: u64 = 3000;

/// The daemon commands that the flow runs.
#[derive(Debug, Clone, Copy, PartialEq, Eq, Structural)]
pub enum DaemonCommand {
    Status,
    ResourcesList,
    StatusJson,
    Auth,
    AuthHelp,
}

/// The arguments of a daemon command.
pub open spec fn command_args(c: DaemonCommand) -> Seq<Seq<char>> {
    match c {
        DaemonCommand::Status => seq!["status"@],
        DaemonCommand::ResourcesList => seq!["resources"@, "list"@],
        DaemonCommand::StatusJson => seq!["status"@, "--json"@],
        DaemonCommand::Auth => seq!["auth"@],
        DaemonCommand::AuthHelp => seq!["auth"@, "--help"@],
    }
}

impl DaemonCommand {
    /// The command's arguments, after the daemon's program name.
    pub fn args(&self) -> (r: Vec<&'static str>)
        ensures
            pattern_views(r@) == command_args(*self),
    {
        let mut v: Vec<&'static str> = Vec::new();
        match self {
            DaemonCommand::Status => {
                v.push("status");
            },
            DaemonCommand::ResourcesList => {
                v.push("resources");
                v.push("list");
            },
            DaemonCommand::StatusJson => {
                v.push("status");
                v.push("--json");
            },
            DaemonCommand::Auth => {
                v.push("auth");
            },
            DaemonCommand::AuthHelp => {
                v.push("auth");
                v.push("--help");
            },
        }
        assert(pattern_views(v@) =~= command_args(*self));
        v
    }
}

/// The `k`-th of the commands probed for a URL after the resource listing.
pub open spec fn probe_command(k: int) -> DaemonCommand {
    if k == 0 {
        DaemonCommand::Status
    } else if k == 1 {
        DaemonCommand::StatusJson
    } else if k == 2 {
        DaemonCommand::Auth
    } else {
        DaemonCommand::AuthHelp
    }
}

/// The index of the last probed command.
pub const LAST_PROBE: u32 = 3;

/// What the flow asks its driver to do next.
#[derive(Debug)]
pub enum AuthAction {
    /// Run the daemon command; report `Output` or `CommandError`.
    RunDaemon(DaemonCommand),
    /// Fetch the network with this many retries; report `NetworkFetched` or
    /// `NetworkFetchFailed` with the error's text.
    FetchNetwork(u32),
    /// Mark the shared state as authenticating with this URL and rebuild the
    /// tray at once; report `Completed`.
    EnterAuthenticating(String),
    /// Open the URL in the default browser; report `Opened` or `OpenFailed`.
    OpenBrowser(String),
    /// Open the URL with the platform's opener command; report `Completed`
    /// whatever came of it.
    OpenWithSystem(String),
    /// Sleep this many milliseconds; report `Completed`.
    Sleep(u64),
    /// Wait up to this many seconds for the service to be connected; report
    /// `Ready` or `NotReady`.
    WaitReady(u64),
    /// Clear the authenticating mark and schedule a tray rebuild; report
    /// `Completed`.
    LeaveAuthenticating,
    /// The flow is over.
    Finish(Result<(), TwingateError>),
}

/// What the driver reports.
#[derive(Debug)]
pub enum AuthEvent {
    Output { stdout: String, stderr: String },
    CommandError(TwingateError),
    NetworkFetched,
    NetworkFetchFailed(String),
    Opened,
    OpenFailed,
    Ready,
    NotReady,
    Completed,
}

/// Where the flow stands.
#[derive(Debug, Clone, Copy, PartialEq, Eq, Structural)]
pub enum AuthPhase {
    Idle,
    /// Waiting for the first status output.
    InitialStatus,
    /// Waiting for the status output of the current attempt.
    PollStatus,
    /// Waiting for the network fetch of the first attempt.
    TriggerFetch,
    /// Waiting for the resource listing.
    ListResources,
    /// Waiting for the output of the probed command with this index.
    Probe(u32),
    /// Waiting for the pause between attempts.
    Pause,
    /// Waiting for the network fetch made when no attempt found a URL.
    LastFetch,
    /// Waiting for the shared state to be marked.
    Entering,
    /// Waiting for the browser.
    Opening,
    /// Waiting for the platform opener.
    FallbackOpening,
    /// Waiting for the settle delay.
    Settling,
    /// Waiting for the service to be connected.
    Verifying,
    /// Waiting for the mark to be cleared.
    Leaving,
    Done,
}

/// The authentication flow. `attempt` counts the URL detection attempts;
/// `url` is the URL found, once found.
#[derive(Debug)]
pub struct AuthFlow {
    pub phase: AuthPhase,
    pub attempt: u32,
    pub url: String,
}

pub ghost struct AuthFlowView {
    pub phase: AuthPhase,
    pub attempt: u32,
    pub url: Seq<char>,
}

pub ghost enum AuthActionView {
    RunDaemon(DaemonCommand),
    FetchNetwork(u32),
    EnterAuthenticating(Seq<char>),
    OpenBrowser(Seq<char>),
    OpenWithSystem(Seq<char>),
    Sleep(u64),
    WaitReady(u64),
    LeaveAuthenticating,
    Finish(Result<(), TwingateError>),
}

pub ghost enum AuthEventView {
    Output(Seq<char>, Seq<char>),
    CommandError(TwingateError),
    NetworkFetched,
    NetworkFetchFailed(Seq<char>),
    Opened,
    OpenFailed,
    Ready,
    NotReady,
    Completed,
}

impl View for AuthFlow {
    type V = AuthFlowView;

    open spec fn view(&self) -> AuthFlowView {
        AuthFlowView { phase: self.phase, attempt: self.attempt, url: self.url@ }
    }
}

impl View for AuthAction {
    type V = AuthActionView;

    open spec fn view(&self) -> AuthActionView {
        match self {
            AuthAction::RunDaemon(c) => AuthActionView::RunDaemon(*c),
            AuthAction::FetchNetwork(n) => AuthActionView::FetchNetwork(*n),
            AuthAction::EnterAuthenticating(u) => AuthActionView::EnterAuthenticating(u@),
            AuthAction::OpenBrowser(u) => AuthActionView::OpenBrowser(u@),
            AuthAction::OpenWithSystem(u) => AuthActionView::OpenWithSystem(u@),
            AuthAction::Sleep(ms) => AuthActionView::Sleep(*ms),
            AuthAction::WaitReady(s) => AuthActionView::WaitReady(*s),
            AuthAction::LeaveAuthenticating => AuthActionView::LeaveAuthenticating,
            AuthAction::Finish(r) => AuthActionView::Finish(*r),
        }
    }
}

impl View for AuthEvent {
    type V = AuthEventView;

    open spec fn view(&self) -> AuthEventView {
        match self {
            AuthEvent::Output { stdout, stderr } => AuthEventView::Output(stdout@, stderr@),
            AuthEvent::CommandError(e) => AuthEventView::CommandError(*e),
            AuthEvent::NetworkFetched => AuthEventView::NetworkFetched,
            AuthEvent::NetworkFetchFailed(t) => AuthEventView::NetworkFetchFailed(t@),
            AuthEvent::Opened => AuthEventView::Opened,
            AuthEvent::OpenFailed => AuthEventView::OpenFailed,
            AuthEvent::Ready => AuthEventView::Ready,
            AuthEvent::NotReady => AuthEventView::NotReady,
            AuthEvent::Completed => AuthEventView::Completed,
        }
    }
}

/// The events that the flow accepts in each phase.
pub open spec fn accepts(phase: AuthPhase, e: AuthEventView) -> bool {
    match phase {
        AuthPhase::InitialStatus | AuthPhase::PollStatus | AuthPhase::ListResources
        | AuthPhase::Probe(_) => e is Output || e is CommandError,
        AuthPhase::TriggerFetch | AuthPhase::LastFetch => e is NetworkFetched
            || e is NetworkFetchFailed,
        AuthPhase::Opening => e is Opened || e is OpenFailed,
        AuthPhase::Verifying => e is Ready || e is NotReady,
        AuthPhase::Pause | AuthPhase::Entering | AuthPhase::FallbackOpening | AuthPhase::Settling
        | AuthPhase::Leaving => e is Completed,
        AuthPhase::Idle | AuthPhase::Done => false,
    }
}

/// The URL that a status output shows while authenticating: its first URL,
/// when longer than twenty characters.
pub open spec fn status_auth_url(out: Seq<char>) -> Option<Seq<char>> {
    status_url_given(out, lower_of(out))
}

/// `status_auth_url`, given the lower-case form `low` of the output.
pub open spec fn status_url_given(out: Seq<char>, low: Seq<char>) -> Option<Seq<char>> {
    if has_infix(low, "authenticating"@) {
        match url_in(out) {
            Some(u) => if u.len() > 20 {
                Some(u)
            } else {
                None
            },
            None => None,
        }
    } else {
        None
    }
}

/// The output of a probed command: its stdout and stderr, a line apart.
pub open spec fn joined_output(stdout: Seq<char>, stderr: Seq<char>) -> Seq<char> {
    stdout + seq!['\n'] + stderr
}

/// A URL that counts as the authentication URL: one longer than twenty
/// characters.
pub open spec fn qualifying(u: Option<Seq<char>>) -> Option<Seq<char>> {
    match u {
        Some(x) => if x.len() > 20 {
            Some(x)
        } else {
            None
        },
        None => None,
    }
}

pub open spec fn finish_with(f: AuthFlowView, r: Result<(), TwingateError>) -> (
    AuthFlowView,
    AuthActionView,
) {
    (AuthFlowView { phase: AuthPhase::Done, ..f }, AuthActionView::Finish(r))
}

pub open spec fn url_found(f: AuthFlowView, u: Seq<char>) -> (AuthFlowView, AuthActionView) {
    (
        AuthFlowView { phase: AuthPhase::Entering, url: u, ..f },
        AuthActionView::EnterAuthenticating(u),
    )
}

pub open spec fn begin_attempt(f: AuthFlowView, attempt: u32) -> (AuthFlowView, AuthActionView) {
    (
        AuthFlowView { phase: AuthPhase::PollStatus, attempt, ..f },
        AuthActionView::RunDaemon(DaemonCommand::Status),
    )
}

/// After an attempt that found no URL: pause before the next one, or make a
/// last network fetch once all attempts are spent.
pub open spec fn end_attempt(f: AuthFlowView) -> (AuthFlowView, AuthActionView) {
    if f.attempt < URL_DETECTION_ATTEMPTS {
        (
            AuthFlowView { phase: AuthPhase::Pause, ..f },
            AuthActionView::Sleep(URL_DETECTION_PAUSE_MS),
        )
    } else {
        (AuthFlowView { phase: AuthPhase::LastFetch, ..f }, AuthActionView::FetchNetwork(1))
    }
}

pub open spec fn goto(f: AuthFlowView, phase: AuthPhase, a: AuthActionView) -> (
    AuthFlowView,
    AuthActionView,
) {
    (AuthFlowView { phase, ..f }, a)
}

/// The flow's transition on an event it accepts.
pub open spec fn auth_next(f: AuthFlowView, e: AuthEventView) -> (AuthFlowView, AuthActionView) {
    match (f.phase, e) {
        (_, AuthEventView::CommandError(err)) => finish_with(f, Err(err)),
        (AuthPhase::InitialStatus, AuthEventView::Output(out, _)) => if !says_auth_needed(
            lower_of(out),
        ) {
            finish_with(f, Ok(()))
        } else {
            match status_auth_url(out) {
                Some(u) => url_found(f, u),
                None => begin_attempt(f, 1),
            }
        },
        (AuthPhase::PollStatus, AuthEventView::Output(out, _)) => match status_auth_url(out) {
            Some(u) => url_found(f, u),
            None => if f.attempt == 1 {
                goto(f, AuthPhase::TriggerFetch, AuthActionView::FetchNetwork(1))
            } else {
                goto(
                    f,
                    AuthPhase::ListResources,
                    AuthActionView::RunDaemon(DaemonCommand::ResourcesList),
                )
            },
        },
        (AuthPhase::TriggerFetch, AuthEventView::NetworkFetched) => finish_with(f, Ok(())),
        (AuthPhase::TriggerFetch, _) => goto(
            f,
            AuthPhase::ListResources,
            AuthActionView::RunDaemon(DaemonCommand::ResourcesList),
        ),
        (AuthPhase::ListResources, AuthEventView::Output(out, err)) => {
            let c = joined_output(out, err);
            match qualifying(url_near(c, auth_url_patterns())) {
                Some(u) => url_found(f, u),
                None => goto(f, AuthPhase::Probe(0), AuthActionView::RunDaemon(probe_command(0))),
            }
        },
        (AuthPhase::Probe(k), AuthEventView::Output(out, err)) => {
            let c = joined_output(out, err);
            match qualifying(url_near(c, command_url_patterns())) {
                Some(u) => url_found(f, u),
                None => if k < LAST_PROBE {
                    goto(
                        f,
                        AuthPhase::Probe((k + 1) as u32),
                        AuthActionView::RunDaemon(probe_command(k + 1)),
                    )
                } else {
                    end_attempt(f)
                },
            }
        },
        (AuthPhase::Pause, _) => begin_attempt(f, (f.attempt + 1) as u32),
        (AuthPhase::LastFetch, AuthEventView::NetworkFetchFailed(text)) => match qualifying(
            url_in(text),
        ) {
            Some(u) => url_found(f, u),
            None => finish_with(f, Ok(())),
        },
        (AuthPhase::LastFetch, _) => finish_with(f, Ok(())),
        (AuthPhase::Entering, _) => goto(f, AuthPhase::Opening, AuthActionView::OpenBrowser(f.url)),
        (AuthPhase::Opening, AuthEventView::Opened) => goto(
            f,
            AuthPhase::Settling,
            AuthActionView::Sleep(BROWSER_SETTLE_MS),
        ),
        (AuthPhase::Opening, _) => goto(
            f,
            AuthPhase::FallbackOpening,
            AuthActionView::OpenWithSystem(f.url),
        ),
        (AuthPhase::FallbackOpening, _) => goto(
            f,
            AuthPhase::Settling,
            AuthActionView::Sleep(BROWSER_SETTLE_MS),
        ),
        (AuthPhase::Settling, _) => goto(
            f,
            AuthPhase::Verifying,
            AuthActionView::WaitReady(AUTH_TIMEOUT_SECONDS),
        ),
        (AuthPhase::Verifying, AuthEventView::Ready) => goto(
            f,
            AuthPhase::Leaving,
            AuthActionView::LeaveAuthenticating,
        ),
        (AuthPhase::Verifying, _) => finish_with(f, Ok(())),
        (AuthPhase::Leaving, _) => finish_with(f, Ok(())),
        _ => (f, AuthActionView::Finish(Ok(()))),
    }
}

/// The stage of a phase: 0 idle, 1 detecting, 2 authenticating,
/// 3 verifying, 4 done.
pub open spec fn stage(p: AuthPhase) -> int {
    match p {
        AuthPhase::Idle => 0,
        AuthPhase::InitialStatus | AuthPhase::PollStatus | AuthPhase::TriggerFetch
        | AuthPhase::ListResources | AuthPhase::Probe(_) | AuthPhase::Pause
        | AuthPhase::LastFetch => 1,
        AuthPhase::Entering | AuthPhase::Opening | AuthPhase::FallbackOpening
        | AuthPhase::Settling => 2,
        AuthPhase::Verifying | AuthPhase::Leaving => 3,
        AuthPhase::Done => 4,
    }
}

/// The flow never returns to an earlier stage. It enters the
/// authenticating stage only by marking the shared state with the URL it
/// keeps, and it clears the mark only once the service is ready.
pub proof fn lemma_stages_move_forward(f: AuthFlowView, e: AuthEventView)
    requires
        accepts(f.phase, e),
    ensures
        stage(auth_next(f, e).0.phase) >= stage(f.phase),
        stage(f.phase) < 2 && stage(auth_next(f, e).0.phase) == 2 ==> auth_next(f, e).1
            == AuthActionView::EnterAuthenticating(auth_next(f, e).0.url),
        auth_next(f, e).1 == AuthActionView::LeaveAuthenticating ==> f.phase == AuthPhase::Verifying
            && e == AuthEventView::Ready,
{
}

/// Detection only ever enters authentication with a URL longer than twenty
/// characters; it ends in failure only when a command fails, and otherwise
/// ends with `Ok(())` (a URL not found is not an error); and it pauses for
/// another attempt only while fewer than `URL_DETECTION_ATTEMPTS` were made.
pub proof fn lemma_detection_outcomes(f: AuthFlowView, e: AuthEventView)
    requires
        accepts(f.phase, e),
        stage(f.phase) == 1,
    ensures
        auth_next(f, e).1 matches AuthActionView::EnterAuthenticating(u) ==> u.len() > 20,
        auth_next(f, e).1 matches AuthActionView::EnterAuthenticating(u) ==> auth_next(f, e).0.url
            == u,
        !(e is CommandError) && auth_next(f, e).1 is Finish ==> auth_next(f, e).1
            == AuthActionView::Finish(Ok(())),
        auth_next(f, e).0.phase == AuthPhase::Pause ==> f.attempt < URL_DETECTION_ATTEMPTS
            && auth_next(f, e).0.attempt == f.attempt,
{
}

/// The status URL of a status output.
fn status_url(out: &[char]) -> (r: Option<Vec<char>>)
    ensures
        opt_chars(r) == status_auth_url(out@),
{
    let low = lowercase(out);
    status_url_in(out, low.as_slice())
}

/// The URL that a status output shows while authenticating, given the
/// output and its lower-case form.
pub fn status_url_in(out: &[char], low: &[char]) -> (r: Option<Vec<char>>)
    ensures
        opt_chars(r) == status_url_given(out@, low@),
{
    if contains(low, "authenticating") {
        match url_in_chars(out) {
            Some(u) => {
                if u.len() > 20 {
                    Some(u)
                } else {
                    None
                }
            },
            None => None,
        }
    } else {
        None
    }
}

/// The URL, when it counts as the authentication URL.
fn qualify(u: Option<Vec<char>>) -> (r: Option<Vec<char>>)
    ensures
        opt_chars(r) == qualifying(opt_chars(u)),
{
    match u {
        Some(x) => {
            if x.len() > 20 {
                Some(x)
            } else {
                None
            }
        },
        None => None,
    }
}

/// The stdout and stderr of a command, a line apart.
fn join_output(stdout: &str, stderr: &str) -> (r: Vec<char>)
    ensures
        r@ == joined_output(stdout@, stderr@),
{
    let mut r = chars_of(stdout);
    r.push('\n');
    let e = chars_of(stderr);
    let mut i: usize = 0;
    while i < e.len()
        invariant
            e@ == stderr@,
            i <= e@.len(),
            r@ == stdout@ + seq!['\n'] + e@.subrange(0, i as int),
        decreases e.len() - i,
    {
        r.push(e[i]);
        i += 1;
        assert(r@ =~= stdout@ + seq!['\n'] + e@.subrange(0, i as int));
    }
    assert(e@.subrange(0, e@.len() as int) =~= e@);
    r
}

fn probe_command_at(k: u32) -> (r: DaemonCommand)
    ensures
        r == probe_command(k as int),
{
    if k == 0 {
        DaemonCommand::Status
    } else if k == 1 {
        DaemonCommand::StatusJson
    } else if k == 2 {
        DaemonCommand::Auth
    } else {
        DaemonCommand::AuthHelp
    }
}

impl AuthFlow {
    pub open spec fn wf(&self) -> bool {
        &&& self.attempt <= URL_DETECTION_ATTEMPTS
        &&& self.phase == AuthPhase::Pause ==> self.attempt < URL_DETECTION_ATTEMPTS
        &&& self.phase matches AuthPhase::Probe(k) ==> k <= LAST_PROBE
    }

    /// A flow that has not started.
    pub fn new() -> (r: Self)
        ensures
            r.phase == AuthPhase::Idle,
            r.attempt == 0,
            r.url@ == Seq::<char>::empty(),
            r.wf(),
    {
        AuthFlow { phase: AuthPhase::Idle, attempt: 0, url: String::new() }
    }

    /// Start the flow: its first step reads the status.
    pub fn start(&mut self) -> (r: AuthAction)
        requires
            old(self).phase == AuthPhase::Idle,
            old(self).wf(),
        ensures
            final(self)@ == (AuthFlowView { phase: AuthPhase::InitialStatus, ..old(self)@ }),
            r@ == AuthActionView::RunDaemon(DaemonCommand::Status),
            final(self).wf(),
    {
        self.phase = AuthPhase::InitialStatus;
        AuthAction::RunDaemon(DaemonCommand::Status)
    }

    fn go(&mut self, phase: AuthPhase, a: AuthAction) -> (r: AuthAction)
        ensures
            final(self)@ == (AuthFlowView { phase, ..old(self)@ }),
            r == a,
    {
        self.phase = phase;
        a
    }

    fn found(&mut self, u: Vec<char>) -> (r: AuthAction)
        ensures
            (final(self)@, r@) == url_found(old(self)@, u@),
    {
        self.phase = AuthPhase::Entering;
        self.url = string_of(u.as_slice());
        AuthAction::EnterAuthenticating(string_of(u.as_slice()))
    }

    fn finish(&mut self, res: Result<(), TwingateError>) -> (r: AuthAction)
        ensures
            (final(self)@, r@) == finish_with(old(self)@, res),
    {
        self.phase = AuthPhase::Done;
        AuthAction::Finish(res)
    }

    /// Report what came of the last action.
    pub fn on_event(&mut self, event: AuthEvent) -> (r: AuthAction)
        requires
            old(self).wf(),
            accepts(old(self).phase, event@),
        ensures
            (final(self)@, r@) == auth_next(old(self)@, event@),
            final(self).wf(),
    {
        let phase = self.phase;
        match event {
            AuthEvent::CommandError(err) => self.finish(Err(err)),
            AuthEvent::Output { stdout, stderr } => {
                match phase {
                    AuthPhase::InitialStatus => {
                        if !AuthStateManager::is_auth_required(stdout.as_str()) {
                            return self.finish(Ok(()));
                        }
                        let out = chars_of(stdout.as_str());
                        match status_url(out.as_slice()) {
                            Some(u) => self.found(u),
                            None => {
                                self.attempt = 1;
                                self.go(
                                    AuthPhase::PollStatus,
                                    AuthAction::RunDaemon(DaemonCommand::Status),
                                )
                            },
                        }
                    },
                    AuthPhase::PollStatus => {
                        let out = chars_of(stdout.as_str());
                        match status_url(out.as_slice()) {
                            Some(u) => self.found(u),
                            None => {
                                if self.attempt == 1 {
                                    self.go(AuthPhase::TriggerFetch, AuthAction::FetchNetwork(1))
                                } else {
                                    self.go(
                                        AuthPhase::ListResources,
                                        AuthAction::RunDaemon(DaemonCommand::ResourcesList),
                                    )
                                }
                            },
                        }
                    },
                    AuthPhase::ListResources => {
                        let c = join_output(stdout.as_str(), stderr.as_str());
                        let patterns = auth_url_pattern_list();
                        match qualify(url_near_chars(c.as_slice(), patterns.as_slice())) {
                            Some(u) => self.found(u),
                            None => self.go(
                                AuthPhase::Probe(0),
                                AuthAction::RunDaemon(probe_command_at(0)),
                            ),
                        }
                    },
                    _ => {
                        let k = match phase {
                            AuthPhase::Probe(k) => k,
                            _ => 0,
                        };
                        let c = join_output(stdout.as_str(), stderr.as_str());
                        let patterns = command_url_pattern_list();
                        match qualify(url_near_chars(c.as_slice(), patterns.as_slice())) {
                            Some(u) => self.found(u),
                            None => {
                                if k < LAST_PROBE {
                                    self.go(
                                        AuthPhase::Probe(k + 1),
                                        AuthAction::RunDaemon(probe_command_at(k + 1)),
                                    )
                                } else if self.attempt < URL_DETECTION_ATTEMPTS {
                                    self.go(
                                        AuthPhase::Pause,
                                        AuthAction::Sleep(URL_DETECTION_PAUSE_MS),
                                    )
                                } else {
                                    self.go(AuthPhase::LastFetch, AuthAction::FetchNetwork(1))
                                }
                            },
                        }
                    },
                }
            },
            AuthEvent::NetworkFetched => {
                match phase {
                    AuthPhase::TriggerFetch => self.finish(Ok(())),
                    _ => self.finish(Ok(())),
                }
            },
            AuthEvent::NetworkFetchFailed(text) => {
                match phase {
                    AuthPhase::TriggerFetch => self.go(
                        AuthPhase::ListResources,
                        AuthAction::RunDaemon(DaemonCommand::ResourcesList),
                    ),
                    _ => {
                        let t = chars_of(text.as_str());
                        match qualify(url_in_chars(t.as_slice())) {
                            Some(u) => self.found(u),
                            None => self.finish(Ok(())),
                        }
                    },
                }
            },
            AuthEvent::Opened => self.go(AuthPhase::Settling, AuthAction::Sleep(BROWSER_SETTLE_MS)),
            AuthEvent::OpenFailed => {
                let u = self.url.clone();
                self.go(AuthPhase::FallbackOpening, AuthAction::OpenWithSystem(u))
            },
            AuthEvent::Ready => self.go(AuthPhase::Leaving, AuthAction::LeaveAuthenticating),
            AuthEvent::NotReady => self.finish(Ok(())),
            AuthEvent::Completed => {
                match phase {
                    AuthPhase::Pause => {
                        self.attempt = self.attempt + 1;
                        self.go(AuthPhase::PollStatus, AuthAction::RunDaemon(DaemonCommand::Status))
                    },
                    AuthPhase::Entering => {
                        let u = self.url.clone();
                        self.go(AuthPhase::Opening, AuthAction::OpenBrowser(u))
                    },
                    AuthPhase::FallbackOpening => self.go(
                        AuthPhase::Settling,
                        AuthAction::Sleep(BROWSER_SETTLE_MS),
                    ),
                    AuthPhase::Settling => self.go(
                        AuthPhase::Verifying,
                        AuthAction::WaitReady(AUTH_TIMEOUT_SECONDS),
                    ),
                    _ => self.finish(Ok(())),
                }
            },
        }
    }
}

/// The name of the resource to authenticate for a resource-authentication
/// item: the resource is the one named after the last `-` of `auth_id`.
pub fn resource_auth_target(auth_id: &str, network: Option<&Network>) -> (r: Result<
    String,
    TwingateError,
>)
    ensures
        network is None ==> r == Err::<String, TwingateError>(TwingateError::ServiceNotRunning),
        network matches Some(n) ==> match resource_index(n.resources@, last_segment(auth_id@), 0) {
            Some(i) => r matches Ok(name) && name@ == n.resources@[i].name@,
            None => r matches Err(TwingateError::ResourceNotFound { id: e }) && e@ == last_segment(
                auth_id@,
            ),
        },
{
    let id = last_segment_of(auth_id);
    match resolve_resource(network, id.as_str()) {
        Ok(res) => Ok(res.name.clone()),
        Err(e) => Err(e),
    }
}

/// The outcome of a resource authentication once the service is ready,
/// given the confirming fetch: a snapshot confirms it; a fetch that finds
/// the service not running fails it; a failed fetch does not count against
/// it.
pub fn confirm_after_auth(fetched: Result<Option<Network>, TwingateError>) -> (r: Result<
    (),
    TwingateError,
>)
    ensures
        fetched matches Ok(Some(_)) ==> r is Ok,
        fetched matches Ok(None) ==> r == Err::<(), TwingateError>(TwingateError::ServiceNotRunning),
        fetched is Err ==> r is Ok,
{
    match fetched {
        Ok(Some(_)) => Ok(()),
        Ok(None) => Err(TwingateError::ServiceNotRunning),
        Err(_) => Ok(()),
    }
}

} // verus!
