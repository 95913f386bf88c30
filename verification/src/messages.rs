//! The closed message sets exchanged with a worker process, one per
//! direction, and their mathematical images.
//!
//! Exactly one `Headers` message flows in each direction per exchange, always
//! first in that direction; body chunks follow, terminated by `BodyEnd` or,
//! on the incoming side, by `Error`.

use vstd::prelude::*;

verus! {

/// Request metadata delivered to the worker ahead of the request body.
#[derive(Debug, PartialEq, Eq)]
pub struct RequestDescriptor {
    pub method: String,
    pub url: String,
    /// Ordered header pairs; order is part of the request.
    pub headers: Vec<(String, String)>,
}

/// Status line and response headers reported by the worker.
#[derive(Debug, PartialEq, Eq)]
pub struct ResponseHeaders {
    /// HTTP status code, 100 to 599.
    pub status: u16,
    /// Ordered header pairs; order is part of the response.
    pub headers: Vec<(String, String)>,
}

/// Structured error data reported by the worker: a message and the raw stack
/// frames of the failure, still pointing into the emitted bundle.
#[derive(Debug, PartialEq, Eq)]
pub struct ErrorPayload {
    pub message: String,
    pub frames: Vec<String>,
}

/// A message sent to the worker process.
#[derive(Debug, PartialEq, Eq)]
pub enum OutgoingMessage {
    Headers { data: RequestDescriptor },
    BodyChunk { data: Vec<u8> },
    BodyEnd,
}

/// A message received from the worker process.
#[derive(Debug, PartialEq, Eq)]
pub enum IncomingMessage {
    Headers { data: ResponseHeaders },
    BodyChunk { data: Vec<u8> },
    BodyEnd,
    Error { payload: ErrorPayload },
}

/// Mathematical image of one outgoing message: every text as a sequence of
/// characters, every chunk as a sequence of bytes.  Contracts about the
/// outbound side of an exchange are stated over these values, so that they
/// are insensitive to which allocation carries the data.
pub enum OutMsg {
    Headers { method: Seq<char>, url: Seq<char>, headers: Seq<(Seq<char>, Seq<char>)> },
    BodyChunk { data: Seq<u8> },
    BodyEnd,
}

/// The images of a sequence of header pairs.
pub open spec fn header_views(hs: Seq<(String, String)>) -> Seq<(Seq<char>, Seq<char>)> {
    hs.map(|i: int, p: (String, String)| (p.0@, p.1@))
}

/// The image of the `Headers` message built from a request descriptor.
pub open spec fn headers_view(desc: RequestDescriptor) -> OutMsg {
    OutMsg::Headers { method: desc.method@, url: desc.url@, headers: header_views(desc.headers@) }
}

impl View for OutgoingMessage {
    type V = OutMsg;

    open spec fn view(&self) -> OutMsg {
        match self {
            OutgoingMessage::Headers { data } => headers_view(*data),
            OutgoingMessage::BodyChunk { data } => OutMsg::BodyChunk { data: data@ },
            OutgoingMessage::BodyEnd => OutMsg::BodyEnd,
        }
    }
}

/// The images of a log of outgoing messages.
pub open spec fn out_views(s: Seq<OutgoingMessage>) -> Seq<OutMsg> {
    s.map(|i: int, m: OutgoingMessage| m@)
}

} // verus!
