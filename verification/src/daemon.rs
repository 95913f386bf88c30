//! Decision logic of the build daemon's RPC client.
//!
//! The daemon is spoken to over generated gRPC stubs, which are transport
//! and stay with the host.  What is decided about a call's outcome lives
//! here on plain values: how a failed call's status code classifies into a
//! client error, and that a reply owes its payload.

use vstd::prelude::*;

verus! {

/// The canonical gRPC status codes a remote call can end with.
#[derive(Clone, Copy, Debug, PartialEq, Eq)]
pub enum GrpcCode {
    /// The call succeeded (the canonical code named `Ok`).
    Okay,
    Cancelled,
    Unknown,
    InvalidArgument,
    DeadlineExceeded,
    NotFound,
    AlreadyExists,
    PermissionDenied,
    ResourceExhausted,
    FailedPrecondition,
    Aborted,
    OutOfRange,
    Unimplemented,
    Internal,
    Unavailable,
    DataLoss,
    Unauthenticated,
}

/// Why talking to the daemon failed.
#[derive(Debug, PartialEq, Eq)]
pub enum DaemonError {
    /// The daemon could not be reached.
    Connection,
    /// The daemon speaks another version of the protocol.
    VersionMismatch,
    /// The transport under the RPC channel failed.
    GrpcTransport { message: String },
    /// The daemon process could not be started.
    Fork,
    /// A call failed with a status code classified no further.
    GrpcFailure { code: GrpcCode },
    /// A reply arrived without its payload.
    MissingResponse,
    /// The daemon's pid file could not be read.
    PidFile,
    /// A call ran out of time.
    Timeout { message: String },
    /// The daemon is not running and starting it was not asked for.
    NotRunning,
}

/// How a failed call's status code classifies: a precondition failure is a
/// version mismatch, an unavailable daemon a connection failure, everything
/// else keeps its code.
pub open spec fn daemon_error_of(code: GrpcCode) -> DaemonError {
    match code {
        GrpcCode::FailedPrecondition => DaemonError::VersionMismatch,
        GrpcCode::Unavailable => DaemonError::Connection,
        c => DaemonError::GrpcFailure { code: c },
    }
}

impl DaemonError {
    /// Classifies the status code of a failed call.
    pub fn from_code(code: GrpcCode) -> (e: DaemonError)
        ensures
            e == daemon_error_of(code),
    {
        match code {
            GrpcCode::FailedPrecondition => DaemonError::VersionMismatch,
            GrpcCode::Unavailable => DaemonError::Connection,
            c => DaemonError::GrpcFailure { code: c },
        }
    }
}

/// The daemon's status payload.
#[derive(Debug, PartialEq, Eq)]
pub struct DaemonStatus {
    /// How long the daemon has been up, in milliseconds.
    pub uptime_ms: u64,
    /// Where the daemon writes its log.
    pub log_file: String,
}

/// The daemon's reply to a changed-outputs query.
#[derive(Debug, PartialEq, Eq)]
pub struct ChangedOutputs {
    /// The output globs that changed since the queried hash.
    pub changed_output_globs: Vec<String>,
}

/// A connected daemon client: the connection settings it was opened with.
/// The RPC channel itself is transport and stays with the host, which hands
/// each reply to the decision methods here.
#[derive(Debug)]
pub struct DaemonClient<T> {
    pub connect_settings: T,
}

impl<T> DaemonClient<T> {
    /// Accepts the reply of a status call: the payload must be present, an
    /// empty reply is itself a protocol fault.
    pub fn status(reply: Option<DaemonStatus>) -> (r: Result<DaemonStatus, DaemonError>)
        ensures
            (match reply {
                Some(s) => r == Ok::<DaemonStatus, DaemonError>(s),
                None => r == Err::<DaemonStatus, DaemonError>(DaemonError::MissingResponse),
            }),
    {
        match reply {
            Some(s) => Ok(s),
            None => Err(DaemonError::MissingResponse),
        }
    }

    /// Accepts the reply of a changed-outputs query: the globs it carries.
    pub fn get_changed_outputs(reply: ChangedOutputs) -> (r: Vec<String>)
        ensures
            r == reply.changed_output_globs,
    {
        reply.changed_output_globs
    }

    /// Gives up the client once the daemon was told to shut down, handing
    /// back the settings it was connected with.
    pub fn stop(self) -> (r: T)
        ensures
            r == self.connect_settings,
    {
        self.connect_settings
    }
}

impl DaemonClient<()> {
    /// Augments a bare client with the settings to reconnect with.
    pub fn with_connect_settings<S>(self, connect_settings: S) -> (r: DaemonClient<S>)
        ensures
            r.connect_settings == connect_settings,
    {
        DaemonClient { connect_settings }
    }
}

} // verus!
