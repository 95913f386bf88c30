//! The top-level failure handler for everything that goes wrong before
//! response headers are produced.
//!
//! It formats the failure, waits for (or kills) the worker process when a
//! handle is still owned, builds the readable body of a 500 response from
//! the message and the captured exit status, and records the diagnostic
//! issue that the caller reports to its sink.  Nothing on this path ever
//! escapes as an error: every failure becomes a valid response body.

use vstd::prelude::*;
use vstd::string::StringExecFns;

use crate::channel::{ExitStatus, OperationHandle, TransportError};
use crate::driver::ExchangeError;
use crate::text::exit_text;

verus! {

/// A diagnostic record for one failed exchange: where it happened, the
/// user-visible message, and the worker's exit code when one was captured.
/// It is handed back to the caller, which reports it to the diagnostics
/// sink, exactly once per failed exchange.
#[derive(Debug, PartialEq, Eq)]
pub struct RenderingIssue {
    /// The source path whose render failed.
    pub context: String,
    /// The formatted failure message.
    pub message: String,
    /// The exit code of the worker, when it was waited for and had one.
    pub status: Option<i32>,
}

/// The user-visible text of a transport-level failure.
pub open spec fn transport_text(e: TransportError) -> Seq<char> {
    match e {
        TransportError::ChannelClosed => "the channel to the process was closed"@,
        TransportError::Decode => "a message from the process could not be decoded"@,
        TransportError::Timeout => "the process took too long to answer"@,
    }
}

/// The user-visible text of an exchange failure.  A protocol violation is
/// worded distinctly from a worker-reported error, whose text is its
/// translated trace alone.
pub open spec fn error_text(e: ExchangeError) -> Seq<char> {
    match e {
        ExchangeError::BodySource { message } => "could not read the request body: "@ + message@,
        ExchangeError::Worker { trace } => trace@,
        ExchangeError::UnexpectedResponse => "unexpected response from the process"@,
        ExchangeError::Transport { error } => transport_text(error),
    }
}

impl ExchangeError {
    /// The user-visible message for this failure.
    pub fn describe(&self) -> (r: String)
        ensures
            r@ == error_text(*self),
    {
        match self {
            ExchangeError::BodySource { message } => {
                let mut out = String::from_str("could not read the request body: ");
                out.append(message.as_str());
                out
            }
            ExchangeError::Worker { trace } => trace.clone(),
            ExchangeError::UnexpectedResponse => String::from_str(
                "unexpected response from the process",
            ),
            ExchangeError::Transport { error } => match error {
                TransportError::ChannelClosed => String::from_str(
                    "the channel to the process was closed",
                ),
                TransportError::Decode => String::from_str(
                    "a message from the process could not be decoded",
                ),
                TransportError::Timeout => String::from_str("the process took too long to answer"),
            },
        }
    }
}

/// The exit status the failure handler captures from a still-owned handle:
/// none when no handle was ever acquired or waiting for the process failed.
pub open spec fn op_kill_status(h: OperationHandle) -> Option<ExitStatus> {
    if h.wait_fails {
        None
    } else {
        Some(h.exit)
    }
}

/// As `op_kill_status`, over an optional handle.
pub open spec fn kill_status(op: Option<OperationHandle>) -> Option<ExitStatus> {
    match op {
        Some(h) => op_kill_status(h),
        None => None,
    }
}

/// The exit code inside a captured status, for the issue record.
pub open spec fn status_code(s: Option<ExitStatus>) -> Option<i32> {
    match s {
        Some(es) => es.code,
        None => None,
    }
}

/// The whole body of a failed render's response: a fixed preamble, the
/// message, and the captured exit status when there is one.
pub open spec fn error_page_text(message: Seq<char>, status: Option<ExitStatus>) -> Seq<char> {
    "An error occurred while proxying a request to Node.js:\n"@ + message + seq!['\n'] + (match status {
        Some(es) => "status: "@ + exit_text(es),
        None => Seq::<char>::empty(),
    })
}

/// Handles one failed exchange: waits for (or kills) the worker when a
/// handle is still owned, and produces the body of the 500 response
/// together with the diagnostic issue to report.
pub fn proxy_error(path: &str, message: String, operation: Option<OperationHandle>) -> (r: (
    String,
    RenderingIssue,
))
    ensures
        r.0@ == error_page_text(message@, kill_status(operation)),
        r.1.context@ == path@,
        r.1.message@ == message@,
        r.1.status == status_code(kill_status(operation)),
{
    let status: Option<ExitStatus> = match operation {
        Some(op) => match op.wait_or_kill() {
            Ok(es) => Some(es),
            Err(_) => None,
        },
        None => None,
    };

    let mut body = String::from_str("An error occurred while proxying a request to Node.js:\n");
    body.append(message.as_str());
    body.append("\n");
    proof {
        reveal_strlit("\n");
        assert("\n"@ =~= seq!['\n']);
    }
    let code: Option<i32> = match status {
        Some(es) => {
            body.append("status: ");
            let rendered = es.describe();
            body.append(rendered.as_str());
            es.code
        }
        None => None,
    };

    let issue = RenderingIssue { context: path.to_owned(), message, status: code };
    (body, issue)
}

} // verus!
