//! Detection of the authentication requirement and of the authentication URL
//! in the daemon's status output, and the tray rebuild policy.
use crate::error::TwingateError;
use crate::models::Network;
use crate::text::{append_chars, chars_of, contains, has_infix, lower_of, lowercase, string_of};
use crate::utils::{opt_view, pattern_views, url_in, url_in_chars, url_near, url_near_chars};
use vstd::prelude::*;

verus! {

/// The phrases after which an authentication URL is looked for first.
pub open spec fn auth_url_patterns() -> Seq<Seq<char>> {
    seq![
        "visit:"@,
        "go to:"@,
        "open:"@,
        "navigate to:"@,
        "visit "@,
        "go to "@,
        "browse to:"@,
        "authenticate at:"@,
        "login at:"@,
    ]
}

/// The phrases after which a URL is looked for in the output of the daemon's
/// other commands: the first seven of `auth_url_patterns`.
pub open spec fn command_url_patterns() -> Seq<Seq<char>> {
    auth_url_patterns().take(7)
}

/// The patterns of `auth_url_patterns`, as text.
pub fn auth_url_pattern_list() -> (r: Vec<&'static str>)
    ensures
        pattern_views(r@) == auth_url_patterns(),
{
    let mut v: Vec<&'static str> = Vec::new();
    v.push("visit:");
    v.push("go to:");
    v.push("open:");
    v.push("navigate to:");
    v.push("visit ");
    v.push("go to ");
    v.push("browse to:");
    v.push("authenticate at:");
    v.push("login at:");
    assert(pattern_views(v@) =~= auth_url_patterns());
    v
}

/// The patterns of `command_url_patterns`, as text.
pub fn command_url_pattern_list() -> (r: Vec<&'static str>)
    ensures
        pattern_views(r@) == command_url_patterns(),
{
    let mut v: Vec<&'static str> = Vec::new();
    v.push("visit:");
    v.push("go to:");
    v.push("open:");
    v.push("navigate to:");
    v.push("visit ");
    v.push("go to ");
    v.push("browse to:");
    assert(pattern_views(v@) =~= command_url_patterns());
    v
}

/// Lower-case status text that shows authentication is required or under way.
pub open spec fn says_auth_needed(low: Seq<char>) -> bool {
    has_infix(low, "authentication is required"@) || has_infix(low, "auth required"@) || has_infix(
        low,
        "not authenticated"@,
    ) || has_infix(low, "user authentication is required"@) || has_infix(low, "authenticating"@)
}

/// The authentication URL of a text: the one near a known phrase when longer
/// than twenty characters, else the first URL anywhere.
pub open spec fn auth_url_in(t: Seq<char>) -> Option<Seq<char>> {
    match url_near(t, auth_url_patterns()) {
        Some(u) => if u.len() > 20 {
            Some(u)
        } else {
            url_in(t)
        },
        None => url_in(t),
    }
}

/// Authentication state detection and URL extraction.
pub struct AuthStateManager;

impl AuthStateManager {
    /// Whether a status output shows that authentication is required.
    pub fn is_auth_required(status_output: &str) -> (r: bool)
        ensures
            r == says_auth_needed(lower_of(status_output@)),
    {
        let raw = chars_of(status_output);
        let low = lowercase(raw.as_slice());
        Self::is_auth_required_lowered(low.as_slice())
    }

    /// Whether lower-case status text shows that authentication is required.
    pub fn is_auth_required_lowered(low: &[char]) -> (r: bool)
        ensures
            r == says_auth_needed(low@),
    {
        contains(low, "authentication is required") || contains(low, "auth required") || contains(
            low,
            "not authenticated",
        ) || contains(low, "user authentication is required") || contains(low, "authenticating")
    }

    /// The authentication URL that a status output offers, when it shows that
    /// authentication is required.
    pub fn auth_url_from_status(status_output: &str) -> (r: Option<String>)
        ensures
            !says_auth_needed(lower_of(status_output@)) ==> r is None,
            says_auth_needed(lower_of(status_output@)) ==> opt_view(r) == auth_url_in(
                status_output@,
            ),
    {
        if Self::is_auth_required(status_output) {
            Self::extract_auth_url(status_output)
        } else {
            None
        }
    }

    /// The authentication URL of a command output.
    pub fn extract_auth_url(output: &str) -> (r: Option<String>)
        ensures
            opt_view(r) == auth_url_in(output@),
    {
        let t = chars_of(output);
        let patterns = auth_url_pattern_list();
        match url_near_chars(t.as_slice(), patterns.as_slice()) {
            Some(u) => {
                if u.len() > 20 {
                    return Some(string_of(u.as_slice()));
                }
            },
            None => {},
        }
        match url_in_chars(t.as_slice()) {
            Some(u) => Some(string_of(u.as_slice())),
            None => None,
        }
    }
}

/// The arguments of a command, a space apart.
pub open spec fn joined_args(args: Seq<Seq<char>>) -> Seq<char>
    decreases args.len(),
{
    if args.len() == 0 {
        Seq::empty()
    } else if args.len() == 1 {
        args[0]
    } else {
        joined_args(args.drop_last()) + seq![' '] + args.last()
    }
}

/// A command line as shown in errors: the program, a space, then its
/// arguments a space apart.
pub open spec fn command_line_text(command: Seq<char>, args: Seq<Seq<char>>) -> Seq<char> {
    command + seq![' '] + joined_args(args)
}

/// The command line of a command, as shown in errors.
pub fn command_line(command: &str, args: &[&str]) -> (r: String)
    ensures
        r@ == command_line_text(command@, pattern_views(args@)),
{
    let mut out: Vec<char> = Vec::new();
    append_chars(&mut out, command);
    out.push(' ');
    let ghost head = command@ + seq![' '];
    assert(out@ =~= head);
    let mut k: usize = 0;
    while k < args.len()
        invariant
            k <= args@.len(),
            out@ == head + joined_args(pattern_views(args@.take(k as int))),
        decreases args.len() - k,
    {
        if k > 0 {
            out.push(' ');
        }
        append_chars(&mut out, args[k]);
        proof {
            let prev = pattern_views(args@.take(k as int));
            let next = pattern_views(args@.take(k + 1));
            assert(next.drop_last() =~= prev);
            assert(next.last() == args@[k as int]@);
            if k == 0 {
                assert(joined_args(next) == args@[0]@);
            }
            assert(out@ =~= head + joined_args(next));
        }
        k += 1;
    }
    assert(args@.take(args@.len() as int) =~= args@);
    string_of(out.as_slice())
}

/// The outcome of a command that must succeed: `CommandFailed` with its
/// exit code (-1 when it has none) and error text when it did not.
pub fn command_outcome(command: &str, success: bool, exit_code: Option<i32>, stderr: &str) -> (r:
    Result<(), TwingateError>)
    ensures
        success ==> r is Ok,
        !success ==> (r matches Err(TwingateError::CommandFailed { command: c, code, stderr: e })
            && c@ == command@ && e@ == stderr@ && code == (match exit_code {
            Some(k) => k,
            None => -1i32,
        })),
{
    if success {
        Ok(())
    } else {
        let code = match exit_code {
            Some(k) => k,
            None => -1,
        };
        Err(TwingateError::command_failed(command, code, stderr))
    }
}

pub const MAX_REBUILD_RETRIES: u32 = 3;

pub const REBUILD_RETRY_DELAY_MS: u64 = 3000;

/// Delay before a scheduled tray rebuild first fetches the network.
pub const REBUILD_INITIAL_DELAY_MS: u64 = 2000;

/// What a scheduled tray rebuild does with the result of its fetch.
#[derive(Debug)]
pub enum TrayRefresh {
    /// Store this snapshot in the shared state, then rebuild the tray.
    Store(Option<Network>),
    /// Rebuild the tray from the shared state as it is.
    Rebuild,
    /// Fetch again after this many milliseconds.
    RetryAfter(u64),
}

/// The step a scheduled tray rebuild takes after `retries_done` retries.
pub open spec fn tray_refresh(result: Result<Option<Network>, TwingateError>, retries_done: u32) -> TrayRefresh {
    match result {
        Ok(data) => TrayRefresh::Store(data),
        Err(TwingateError::ServiceConnecting) | Err(TwingateError::AuthenticationRequired) => if retries_done
            >= MAX_REBUILD_RETRIES {
            TrayRefresh::Rebuild
        } else {
            TrayRefresh::RetryAfter(REBUILD_RETRY_DELAY_MS)
        },
        Err(_) => TrayRefresh::Rebuild,
    }
}

/// Tray rebuild policy.
pub struct TrayManager;

impl TrayManager {
    /// The step a scheduled tray rebuild takes: a fetched snapshot is stored;
    /// a transitional failure is retried a few times; anything else leaves
    /// the state as it is and rebuilds.
    pub fn after_refresh(result: Result<Option<Network>, TwingateError>, retries_done: u32) -> (r:
        TrayRefresh)
        ensures
            r == tray_refresh(result, retries_done),
    {
        match result {
            Ok(data) => TrayRefresh::Store(data),
            Err(TwingateError::ServiceConnecting) | Err(TwingateError::AuthenticationRequired) => {
                if retries_done >= MAX_REBUILD_RETRIES {
                    TrayRefresh::Rebuild
                } else {
                    TrayRefresh::RetryAfter(REBUILD_RETRY_DELAY_MS)
                }
            },
            Err(_) => TrayRefresh::Rebuild,
        }
    }
}

} // verus!
