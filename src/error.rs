//! The library's error kinds.
use crate::text::{append_chars, string_of};
use vstd::prelude::*;

verus! {

/// Errors of the daemon client. Process and parse failures carry the outside
/// error's text.
#[derive(Debug, Clone, PartialEq, Eq)]
pub enum TwingateError {
    ServiceNotRunning,
    ServiceConnecting,
    AuthenticationRequired,
    AuthenticationTimeout { seconds: u64 },
    CommandFailed { command: String, code: i32, stderr: String },
    CommandExecutionError { details: String },
    JsonError { details: String },
    InvalidUtf8,
    ResourceNotFound { id: String },
    InvalidResourceId { id: String },
    ClipboardError { details: String },
    TrayError { details: String },
    RetryLimitExceeded { attempts: u32 },
}

pub type Result<T> = core::result::Result<T, TwingateError>;

pub open spec fn digit_chars() -> Seq<char> {
    seq!['0', '1', '2', '3', '4', '5', '6', '7', '8', '9']
}

/// The decimal digits of `n`.
pub open spec fn decimal(n: nat) -> Seq<char>
    decreases n,
{
    if n < 10 {
        seq![digit_chars()[n as int]]
    } else {
        decimal(n / 10).push(digit_chars()[(n % 10) as int])
    }
}

/// The decimal text of a signed number.
pub open spec fn signed_decimal(n: int) -> Seq<char> {
    if n < 0 {
        seq!['-'] + decimal((-n) as nat)
    } else {
        decimal(n as nat)
    }
}

/// The message shown for an error.
pub open spec fn error_message(e: TwingateError) -> Seq<char> {
    match e {
        TwingateError::ServiceNotRunning => "Twingate service is not running"@,
        TwingateError::ServiceConnecting => "Service is connecting to Twingate network"@,
        TwingateError::AuthenticationRequired => "Service requires authentication"@,
        TwingateError::AuthenticationTimeout { seconds } => "Authentication flow timed out after "@
            + decimal(seconds as nat) + " seconds"@,
        TwingateError::CommandFailed { command, code, stderr } => "Shell command '"@ + command@
            + "' failed with exit code "@ + signed_decimal(code as int) + ": "@ + stderr@,
        TwingateError::CommandExecutionError { details } => "Command execution error: "@ + details@,
        TwingateError::JsonError { details } => "JSON deserialization failed: "@ + details@,
        TwingateError::InvalidUtf8 => "Invalid UTF-8 in command output"@,
        TwingateError::ResourceNotFound { id } => "Resource '"@ + id@ + "' not found"@,
        TwingateError::InvalidResourceId { id } => "Invalid resource ID format: "@ + id@,
        TwingateError::ClipboardError { details } => "Clipboard operation failed: "@ + details@,
        TwingateError::TrayError { details } => "System tray operation failed: "@ + details@,
        TwingateError::RetryLimitExceeded { attempts } => "Operation timed out after "@ + decimal(
            attempts as nat,
        ) + " attempts"@,
    }
}

fn digit_char(d: u64) -> (r: char)
    requires
        d < 10,
    ensures
        r == digit_chars()[d as int],
{
    if d == 0 {
        '0'
    } else if d == 1 {
        '1'
    } else if d == 2 {
        '2'
    } else if d == 3 {
        '3'
    } else if d == 4 {
        '4'
    } else if d == 5 {
        '5'
    } else if d == 6 {
        '6'
    } else if d == 7 {
        '7'
    } else if d == 8 {
        '8'
    } else {
        '9'
    }
}

/// Append the decimal digits of `n`.
fn push_decimal(out: &mut Vec<char>, n: u64)
    ensures
        final(out)@ == old(out)@ + decimal(n as nat),
    decreases n,
{
    if n < 10 {
        out.push(digit_char(n));
        assert(final(out)@ =~= old(out)@ + decimal(n as nat));
    } else {
        push_decimal(out, n / 10);
        out.push(digit_char(n % 10));
        assert(final(out)@ =~= old(out)@ + decimal(n as nat));
    }
}

/// Append the decimal text of a signed number.
fn push_signed_decimal(out: &mut Vec<char>, n: i32)
    ensures
        final(out)@ == old(out)@ + signed_decimal(n as int),
{
    if n < 0 {
        out.push('-');
        let m: i64 = -(n as i64);
        push_decimal(out, m as u64);
        assert(final(out)@ =~= old(out)@ + signed_decimal(n as int));
    } else {
        push_decimal(out, n as u64);
    }
}

impl TwingateError {
    /// The message shown for this error.
    pub fn message(&self) -> (r: String)
        ensures
            r@ == error_message(*self),
    {
        let mut out: Vec<char> = Vec::new();
        match self {
            TwingateError::ServiceNotRunning => append_chars(&mut out, "Twingate service is not running"),
            TwingateError::ServiceConnecting => append_chars(
                &mut out,
                "Service is connecting to Twingate network",
            ),
            TwingateError::AuthenticationRequired => append_chars(
                &mut out,
                "Service requires authentication",
            ),
            TwingateError::AuthenticationTimeout { seconds } => {
                append_chars(&mut out, "Authentication flow timed out after ");
                push_decimal(&mut out, *seconds);
                append_chars(&mut out, " seconds");
            },
            TwingateError::CommandFailed { command, code, stderr } => {
                append_chars(&mut out, "Shell command '");
                append_chars(&mut out, command.as_str());
                append_chars(&mut out, "' failed with exit code ");
                push_signed_decimal(&mut out, *code);
                append_chars(&mut out, ": ");
                append_chars(&mut out, stderr.as_str());
            },
            TwingateError::CommandExecutionError { details } => {
                append_chars(&mut out, "Command execution error: ");
                append_chars(&mut out, details.as_str());
            },
            TwingateError::JsonError { details } => {
                append_chars(&mut out, "JSON deserialization failed: ");
                append_chars(&mut out, details.as_str());
            },
            TwingateError::InvalidUtf8 => append_chars(&mut out, "Invalid UTF-8 in command output"),
            TwingateError::ResourceNotFound { id } => {
                append_chars(&mut out, "Resource '");
                append_chars(&mut out, id.as_str());
                append_chars(&mut out, "' not found");
            },
            TwingateError::InvalidResourceId { id } => {
                append_chars(&mut out, "Invalid resource ID format: ");
                append_chars(&mut out, id.as_str());
            },
            TwingateError::ClipboardError { details } => {
                append_chars(&mut out, "Clipboard operation failed: ");
                append_chars(&mut out, details.as_str());
            },
            TwingateError::TrayError { details } => {
                append_chars(&mut out, "System tray operation failed: ");
                append_chars(&mut out, details.as_str());
            },
            TwingateError::RetryLimitExceeded { attempts } => {
                append_chars(&mut out, "Operation timed out after ");
                push_decimal(&mut out, *attempts as u64);
                append_chars(&mut out, " attempts");
            },
        }
        assert(out@ =~= error_message(*self));
        string_of(out.as_slice())
    }

    pub fn command_failed(command: &str, code: i32, stderr: &str) -> (r: Self)
        ensures
            r matches TwingateError::CommandFailed { command: c, code: k, stderr: e } && c@ == command@
                && k == code && e@ == stderr@,
    {
        TwingateError::CommandFailed { command: command.to_owned(), code, stderr: stderr.to_owned() }
    }

    pub fn resource_not_found(id: &str) -> (r: Self)
        ensures
            r matches TwingateError::ResourceNotFound { id: i } && i@ == id@,
    {
        TwingateError::ResourceNotFound { id: id.to_owned() }
    }

    pub fn invalid_resource_id(id: &str) -> (r: Self)
        ensures
            r matches TwingateError::InvalidResourceId { id: i } && i@ == id@,
    {
        TwingateError::InvalidResourceId { id: id.to_owned() }
    }
}

} // verus!
