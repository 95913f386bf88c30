//! A render proxy: drives one HTTP-like request/response exchange with a
//! pooled worker process over a strict framed message protocol, exposes the
//! response body as a lazy chunk stream, and maps every failure before the
//! response headers into a diagnosable 500 result.
//!
//! The byte transport, the process pool and the diagnostics sink are external
//! collaborators.  The channel to one worker is therefore modelled here as a
//! script of incoming events and a log of outgoing messages, so that the
//! protocol logic is checked for every schedule the collaborators could
//! produce; a host wires the model to the real transport.
//!
//! A small companion module carries the decision logic of the build
//! daemon's RPC client, whose generated gRPC transport likewise stays with
//! the host.

pub mod channel;
pub mod daemon;
pub mod driver;
pub mod failure;
pub mod messages;
pub mod proxy;
pub mod stream;
pub mod text;
pub mod translate;
