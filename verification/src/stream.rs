//! The response body as a lazy, consume-once stream of byte chunks.
//!
//! Once response headers have been returned to the caller, the operation
//! handle moves into a `BodyStream`.  Each pull takes the next incoming
//! message: a chunk is yielded, `BodyEnd` ends the stream cleanly, an
//! `Error` or an unexpected message kind or a transport failure ends it with
//! a terminal error.  Headers, once returned, are never retracted: failures
//! here surface only through the stream.  Dropping the stream early drops
//! the handle with it, so the process slot is never leaked.
//!
//! Reuse policy: a worker-reported error mid-body is an application-level
//! failure, not proof that the process is corrupted, so it does not mark
//! the handle unreusable; only an unexpected message kind does, because the
//! channel state is then unknown.

use vstd::prelude::*;

use crate::channel::{OperationHandle, RecvEvent, TransportError};
use crate::messages::{ErrorPayload, IncomingMessage};
use crate::translate::{payload_trace, trace_stack, ModuleContext};

verus! {

/// A terminal failure of the response body stream.
#[derive(Debug, PartialEq, Eq)]
pub enum StreamError {
    /// The worker reported an application-level error mid-body; `trace` is
    /// its payload translated to a readable source trace.
    Worker { trace: String },
    /// A message kind arrived that the protocol does not allow here: the
    /// handle was marked unreusable.
    UnexpectedResponse,
    /// The channel itself failed.
    Transport { error: TransportError },
}

/// Holds when an incoming event carries a body chunk.
pub open spec fn is_chunk(e: RecvEvent) -> bool {
    e matches RecvEvent::Message(IncomingMessage::BodyChunk { .. })
}

/// The bytes an incoming chunk event carries (empty for any other event).
pub open spec fn event_chunk_data(e: RecvEvent) -> Seq<u8> {
    match e {
        RecvEvent::Message(IncomingMessage::BodyChunk { data }) => data@,
        _ => Seq::<u8>::empty(),
    }
}

/// How many chunk events the script yields before the first other event.
pub open spec fn chunk_run(events: Seq<RecvEvent>) -> nat
    decreases events.len(),
{
    if events.len() == 0 {
        0
    } else if is_chunk(events[0]) {
        chunk_run(events.drop_first()) + 1
    } else {
        0
    }
}

/// The chunk payloads a full drain of the stream yields, in order.
pub open spec fn chunk_datas(events: Seq<RecvEvent>) -> Seq<Seq<u8>> {
    Seq::new(chunk_run(events), |i: int| event_chunk_data(events[i]))
}

/// How a full drain of the stream ends, as a function of the script.
pub enum DrainEnd {
    /// `BodyEnd` arrived after the chunks: the stream ends with no error.
    Clean,
    /// The worker reported an application-level error after the chunks.
    WorkerFailure { payload: ErrorPayload },
    /// A message kind arrived that the protocol does not allow here.
    Violation,
    /// The channel failed, or its script ran out before `BodyEnd`.
    ChannelFault { error: TransportError },
}

/// The terminal event a full drain is bound to reach on a given script.
pub open spec fn drain_end(events: Seq<RecvEvent>) -> DrainEnd {
    if chunk_run(events) == events.len() {
        DrainEnd::ChannelFault { error: TransportError::ChannelClosed }
    } else {
        match events[chunk_run(events) as int] {
            RecvEvent::Message(IncomingMessage::BodyEnd) => DrainEnd::Clean,
            RecvEvent::Message(IncomingMessage::Error { payload }) => DrainEnd::WorkerFailure { payload },
            RecvEvent::Message(IncomingMessage::Headers { .. }) => DrainEnd::Violation,
            RecvEvent::Message(IncomingMessage::BodyChunk { .. }) => arbitrary(),
            RecvEvent::Fault(e) => DrainEnd::ChannelFault { error: e },
        }
    }
}

/// How many scripted events a full drain consumes: every chunk, and the one
/// terminal event after them when the script gets that far.
pub open spec fn drain_consumed(events: Seq<RecvEvent>) -> int {
    if chunk_run(events) < events.len() {
        chunk_run(events) as int + 1
    } else {
        chunk_run(events) as int
    }
}

/// The images of a list of chunks.
pub open spec fn vec_views(s: Seq<Vec<u8>>) -> Seq<Seq<u8>> {
    s.map(|i: int, v: Vec<u8>| v@)
}

/// The chunk run never outruns the script.
pub proof fn lemma_chunk_run_le(events: Seq<RecvEvent>)
    ensures
        chunk_run(events) <= events.len(),
    decreases events.len(),
{
    if events.len() > 0 && is_chunk(events[0]) {
        lemma_chunk_run_le(events.drop_first());
    }
}

/// The chunks before the first non-chunk event number the longest all-chunk
/// prefix: past `i` chunk events the run is `i` plus the rest's run.
pub proof fn lemma_chunk_run_skip(events: Seq<RecvEvent>, i: int)
    requires
        0 <= i <= events.len(),
        forall|j: int| 0 <= j < i ==> #[trigger] is_chunk(events[j]),
    ensures
        chunk_run(events) == i + chunk_run(events.skip(i)),
    decreases i,
{
    if i > 0 {
        assert(is_chunk(events[0]));
        assert(events.drop_first() =~= events.skip(1));
        assert(forall|j: int| 0 <= j < i - 1 ==> #[trigger] is_chunk(events.skip(1)[j])) by {
            assert(forall|j: int| 0 <= j < i - 1 ==> events.skip(1)[j] == events[j + 1]);
        }
        lemma_chunk_run_skip(events.skip(1), i - 1);
        assert(events.skip(1).skip(i - 1) =~= events.skip(i));
    } else {
        assert(events.skip(0) =~= events);
    }
}

/// The response body of one exchange, drained lazily from the same handle
/// that carried the request.
#[derive(Debug)]
pub struct BodyStream {
    /// The operation handle, owned until the stream is dropped.
    pub op: OperationHandle,
    /// Set once the stream has ended, cleanly or with a terminal error.
    pub done: bool,
}

impl BodyStream {
    /// Adopts the handle of an exchange whose response headers arrived.
    pub fn stream_body_chunks(op: OperationHandle) -> (s: BodyStream)
        ensures
            s.op == op,
            !s.done,
    {
        BodyStream { op, done: false }
    }

    /// Pulls the next element of the stream: `Some(Ok(bytes))` for a chunk,
    /// `None` once the stream has ended cleanly, `Some(Err(..))` for the
    /// terminal error of a failed stream.  A protocol violation marks the
    /// handle unreusable before the error is yielded.
    pub fn pull(&mut self, ctx: &ModuleContext) -> (r: Option<Result<Vec<u8>, StreamError>>)
        ensures
            final(self).op.sent@ == old(self).op.sent@,
            final(self).op.send_fault_at == old(self).op.send_fault_at,
            final(self).op.exit == old(self).op.exit,
            final(self).op.wait_fails == old(self).op.wait_fails,
            old(self).done ==> r is None && *final(self) == *old(self),
            !old(self).done && old(self).op.incoming@.len() == 0 ==> {
                &&& r == Some(Err::<Vec<u8>, StreamError>(StreamError::Transport {
                    error: TransportError::ChannelClosed,
                }))
                &&& final(self).done
                &&& final(self).op.incoming@ == old(self).op.incoming@
                &&& final(self).op.reuse_disallowed == old(self).op.reuse_disallowed
            },
            !old(self).done && old(self).op.incoming@.len() > 0 ==> {
                &&& final(self).op.incoming@ == old(self).op.incoming@.drop_first()
                &&& (match old(self).op.incoming@[0] {
                    RecvEvent::Message(IncomingMessage::BodyChunk { data }) => {
                        &&& r == Some(Ok::<Vec<u8>, StreamError>(data))
                        &&& !final(self).done
                        &&& final(self).op.reuse_disallowed == old(self).op.reuse_disallowed
                    },
                    RecvEvent::Message(IncomingMessage::BodyEnd) => {
                        &&& r is None
                        &&& final(self).done
                        &&& final(self).op.reuse_disallowed == old(self).op.reuse_disallowed
                    },
                    RecvEvent::Message(IncomingMessage::Error { payload }) => {
                        &&& (r matches Some(Err(StreamError::Worker { trace }))
                            && trace@ == payload_trace(payload, *ctx))
                        &&& final(self).done
                        &&& final(self).op.reuse_disallowed == old(self).op.reuse_disallowed
                    },
                    RecvEvent::Message(IncomingMessage::Headers { .. }) => {
                        &&& r == Some(Err::<Vec<u8>, StreamError>(StreamError::UnexpectedResponse))
                        &&& final(self).done
                        &&& final(self).op.reuse_disallowed
                    },
                    RecvEvent::Fault(e) => {
                        &&& r == Some(Err::<Vec<u8>, StreamError>(StreamError::Transport { error: e }))
                        &&& final(self).done
                        &&& final(self).op.reuse_disallowed == old(self).op.reuse_disallowed
                    },
                })
            },
    {
        if self.done {
            return None;
        }
        match self.op.recv() {
            Err(e) => {
                self.done = true;
                Some(Err(StreamError::Transport { error: e }))
            }
            Ok(m) => match m {
                IncomingMessage::BodyChunk { data } => Some(Ok(data)),
                IncomingMessage::BodyEnd => {
                    self.done = true;
                    None
                }
                IncomingMessage::Error { payload } => {
                    self.done = true;
                    Some(Err(StreamError::Worker { trace: trace_stack(payload, ctx) }))
                }
                IncomingMessage::Headers { .. } => {
                    self.op.disallow_reuse();
                    self.done = true;
                    Some(Err(StreamError::UnexpectedResponse))
                }
            },
        }
    }

    /// Drains the stream to the end: every chunk in arrival order, and the
    /// terminal error, if the stream did not end cleanly.
    #[verifier::loop_isolation(false)]
    pub fn drain(&mut self, ctx: &ModuleContext) -> (r: (Vec<Vec<u8>>, Option<StreamError>))
        ensures
            final(self).op.sent@ == old(self).op.sent@,
            final(self).op.send_fault_at == old(self).op.send_fault_at,
            final(self).op.exit == old(self).op.exit,
            final(self).op.wait_fails == old(self).op.wait_fails,
            old(self).done ==> r.0@.len() == 0 && r.1 is None && *final(self) == *old(self),
            !old(self).done ==> {
                &&& vec_views(r.0@) == chunk_datas(old(self).op.incoming@)
                &&& final(self).done
                &&& final(self).op.incoming@ == old(self).op.incoming@.skip(
                    drain_consumed(old(self).op.incoming@),
                )
                &&& final(self).op.reuse_disallowed == (old(self).op.reuse_disallowed
                    || drain_end(old(self).op.incoming@) is Violation)
                &&& (match drain_end(old(self).op.incoming@) {
                    DrainEnd::Clean => r.1 is None,
                    DrainEnd::WorkerFailure { payload } => (r.1 matches Some(StreamError::Worker {
                        trace,
                    }) && trace@ == payload_trace(payload, *ctx)),
                    DrainEnd::Violation => r.1 == Some(StreamError::UnexpectedResponse),
                    DrainEnd::ChannelFault { error } => r.1 == Some(StreamError::Transport { error }),
                })
            },
    {
        if self.done {
            return (Vec::new(), None);
        }
        let ghost events = self.op.incoming@;
        let ghost reuse0 = self.op.reuse_disallowed;
        let mut chunks: Vec<Vec<u8>> = Vec::new();
        loop
            invariant
                !self.done,
                chunks@.len() <= chunk_run(events),
                self.op.incoming@ == events.skip(chunks@.len() as int),
                vec_views(chunks@) == chunk_datas(events).take(chunks@.len() as int),
                forall|j: int| 0 <= j < chunks@.len() ==> #[trigger] is_chunk(events[j]),
                self.op.sent@ == old(self).op.sent@,
                self.op.send_fault_at == old(self).op.send_fault_at,
                self.op.exit == old(self).op.exit,
                self.op.wait_fails == old(self).op.wait_fails,
                self.op.reuse_disallowed == reuse0,
            decreases events.len() - chunks@.len(),
        {
            let ghost k = chunks@.len() as int;
            proof {
                lemma_chunk_run_le(events);
                lemma_chunk_run_skip(events, k);
            }
            match self.pull(ctx) {
                None => {
                    proof {
                        assert(events.skip(k)[0] == events[k]);
                        assert(chunk_run(events.skip(k)) == 0);
                        assert(chunk_run(events) == k);
                        assert(events.skip(k).drop_first() =~= events.skip(k + 1));
                        assert(vec_views(chunks@) =~= chunk_datas(events));
                    }
                    return (chunks, None);
                }
                Some(Ok(d)) => {
                    proof {
                        assert(events.skip(k)[0] == events[k]);
                        assert(is_chunk(events[k]));
                        assert(chunk_run(events.skip(k)) >= 1);
                        assert(events.skip(k).drop_first() =~= events.skip(k + 1));
                        assert(vec_views(chunks@.push(d)) =~= vec_views(chunks@).push(d@));
                        assert(chunk_datas(events).take(k + 1)
                            =~= chunk_datas(events).take(k).push(event_chunk_data(events[k])));
                    }
                    chunks.push(d);
                }
                Some(Err(e)) => {
                    proof {
                        if events.skip(k).len() == 0 {
                            assert(chunk_run(events) == k);
                            assert(events.skip(k) =~= events.skip(drain_consumed(events)));
                        } else {
                            assert(events.skip(k)[0] == events[k]);
                            assert(chunk_run(events.skip(k)) == 0);
                            assert(chunk_run(events) == k);
                            assert(events.skip(k).drop_first() =~= events.skip(k + 1));
                        }
                        assert(vec_views(chunks@) =~= chunk_datas(events));
                    }
                    return (chunks, Some(e));
                }
            }
        }
    }
}

/// LAW: a clean incoming body — chunk events then one `BodyEnd` — drains to
/// exactly those chunks, in order and byte for byte, and ends with no error.
pub proof fn lemma_clean_drain(events: Seq<RecvEvent>)
    requires
        events.len() >= 1,
        forall|j: int| 0 <= j < events.len() - 1 ==> #[trigger] is_chunk(events[j]),
        events.last() == RecvEvent::Message(IncomingMessage::BodyEnd),
    ensures
        chunk_datas(events).len() == events.len() - 1,
        forall|j: int| 0 <= j < events.len() - 1 ==> #[trigger] chunk_datas(events)[j]
            == event_chunk_data(events[j]),
        drain_end(events) is Clean,
        drain_consumed(events) == events.len(),
{
    let n = events.len() as int;
    lemma_chunk_run_skip(events, n - 1);
    assert(events.skip(n - 1).len() == 1);
    assert(events.skip(n - 1)[0] == events[n - 1]);
    assert(chunk_run(events.skip(n - 1)) == 0);
    assert(chunk_run(events) == n - 1);
}

} // verus!
