//! What can go wrong while a page is fetched and streamed, and how each
//! failure is reported.

use vstd::prelude::*;
use vstd::string::*;
use crate::status::{status_line, status_text};

verus! {

/// A failure of a lookup.
#[derive(Clone, Debug, PartialEq, Eq)]
pub enum Error {
    /// The request for the page of `command` could not be completed: no
    /// connection, no name resolution, a broken exchange.
    HttpRequest {
        /// The command whose page was asked for.
        command: String,
        /// The transport's description of what went wrong.
        cause: String,
    },
    /// The request for the page of `command` was answered, but not with a
    /// success status.
    HttpResponse {
        /// The command whose page was asked for.
        command: String,
        /// The status code of the answer.
        status: u16,
    },
    /// A read or a write failed while the page was copied.
    Io {
        /// The description of the failed operation.
        cause: String,
    },
}

/// An [`Error`] as a mathematical value.
pub enum ErrorView {
    HttpRequest { command: Seq<char>, cause: Seq<char> },
    HttpResponse { command: Seq<char>, status: u16 },
    Io { cause: Seq<char> },
}

impl View for Error {
    type V = ErrorView;

    open spec fn view(&self) -> ErrorView {
        match self {
            Error::HttpRequest { command, cause } => ErrorView::HttpRequest {
                command: command@,
                cause: cause@,
            },
            Error::HttpResponse { command, status } => ErrorView::HttpResponse {
                command: command@,
                status: *status,
            },
            Error::Io { cause } => ErrorView::Io { cause: cause@ },
        }
    }
}

/// The line that reports a request for the page of `command` that failed
/// with `cause`.
pub open spec fn request_failure_line(command: Seq<char>, cause: Seq<char>) -> Seq<char> {
    "Error fetching description for `"@ + command + "`: "@ + cause
}

/// The line that reports an answer for the page of `command` whose status
/// prints as `status`.
pub open spec fn response_failure_line(command: Seq<char>, status: Seq<char>) -> Seq<char> {
    "Could not fetch description for command `"@ + command + "`: "@ + status
}

/// The line that reports a failed copy, whatever its cause.
pub open spec fn stream_failure_line() -> Seq<char> {
    "Couldn't read stream"@
}

impl ErrorView {
    /// The single line that reports this failure to the user.
    pub open spec fn message(self) -> Seq<char> {
        match self {
            ErrorView::HttpRequest { command, cause } => request_failure_line(command, cause),
            ErrorView::HttpResponse { command, status } => response_failure_line(
                command,
                status_line(status),
            ),
            ErrorView::Io { .. } => stream_failure_line(),
        }
    }
}

/// Puts `detail` behind `prefix`, the command in backquotes, and a colon.
fn failure_line(prefix: &str, command: &str, detail: &str) -> (line: String)
    ensures
        line@ == prefix@ + command@ + "`: "@ + detail@,
{
    let mut line = String::from_str(prefix);
    line.append(command);
    line.append("`: ");
    line.append(detail);
    line
}

/// Writes the line that reports a request for the page of `command` that
/// failed with `cause`.
pub fn describe_request_failure(command: &str, cause: &str) -> (line: String)
    ensures
        line@ == request_failure_line(command@, cause@),
{
    failure_line("Error fetching description for `", command, cause)
}

/// Writes the line that reports an answer for the page of `command` whose
/// status prints as `status`.
pub fn describe_response_failure(command: &str, status: &str) -> (line: String)
    ensures
        line@ == response_failure_line(command@, status@),
{
    failure_line("Could not fetch description for command `", command, status)
}

impl Error {
    /// The single line that reports this failure to the user.
    ///
    /// A status code is printed as hyper prints it.
    pub fn message(&self) -> (line: String)
        ensures
            line@ == self@.message(),
    {
        match self {
            Error::HttpRequest { command, cause } => describe_request_failure(
                command.as_str(),
                cause.as_str(),
            ),
            Error::HttpResponse { command, status } => {
                let printed = status_text(*status);
                describe_response_failure(command.as_str(), printed.as_str())
            },
            Error::Io { .. } => String::from_str("Couldn't read stream"),
        }
    }
}

/// The exit status of a run: 1 if it failed, 0 if it did not.
pub open spec fn exit_status_spec(failed: bool) -> i32 {
    if failed {
        1
    } else {
        0
    }
}

/// The exit status of a run that ended in `outcome`: 0 after a full copy, 1
/// after any failure.
pub fn exit_status(outcome: &Result<(), Error>) -> (code: i32)
    ensures
        code == exit_status_spec(outcome is Err),
{
    match outcome {
        Ok(_) => 0,
        Err(_) => 1,
    }
}

} // verus!
