//! The exchange driver: one full request over an acquired operation handle.
//!
//! The outbound phase is strict: one `Headers` message first, then one
//! `BodyChunk` per chunk the body source produces, in production order, then
//! one `BodyEnd`.  A failing read of the body source aborts the exchange
//! before `BodyEnd` is sent.  The driver then awaits exactly one incoming
//! message and classifies it: response headers, a worker-reported error
//! (translated to a readable trace), a protocol violation (the handle is
//! marked unreusable), or a transport failure.

use vstd::prelude::*;

use crate::channel::{OperationHandle, RecvEvent, TransportError};
use crate::messages::{
    headers_view, out_views, ErrorPayload, IncomingMessage, OutMsg, OutgoingMessage,
    RequestDescriptor, ResponseHeaders,
};
use crate::translate::{payload_trace, trace_stack, ModuleContext};

verus! {

/// One read from the request body source: a chunk of bytes, or the failure
/// that reading produced.
#[derive(Debug, PartialEq, Eq)]
pub enum ChunkRead {
    Data(Vec<u8>),
    Fault { message: String },
}

/// Why an exchange failed before response headers were produced.
#[derive(Debug, PartialEq, Eq)]
pub enum ExchangeError {
    /// Reading the outbound request body failed: a local fault, the worker
    /// is not to blame and `BodyEnd` was never sent.
    BodySource { message: String },
    /// The worker reported an application-level failure; `trace` is its
    /// payload translated to a readable source trace.
    Worker { trace: String },
    /// A message kind arrived that the protocol does not allow here: the
    /// channel state is now unknown and the handle was marked unreusable.
    UnexpectedResponse,
    /// The channel itself failed; the process is presumed unhealthy.
    Transport { error: TransportError },
}

/// The bytes of one chunk read (empty for a failed read).
pub open spec fn chunk_data_view(c: ChunkRead) -> Seq<u8> {
    match c {
        ChunkRead::Data(d) => d@,
        ChunkRead::Fault { .. } => Seq::<u8>::empty(),
    }
}

/// The message of a failed chunk read.
pub open spec fn fault_message(c: ChunkRead) -> String {
    match c {
        ChunkRead::Fault { message } => message,
        ChunkRead::Data(_) => arbitrary(),
    }
}

/// How many chunks the source yields before its first failed read.
pub open spec fn ok_prefix_len(c: Seq<ChunkRead>) -> nat
    decreases c.len(),
{
    if c.len() == 0 {
        0
    } else if c[0] is Data {
        ok_prefix_len(c.drop_first()) + 1
    } else {
        0
    }
}

/// Holds when every read of the body source succeeds.
pub open spec fn source_ok(c: Seq<ChunkRead>) -> bool {
    forall|i: int| 0 <= i < c.len() ==> c[i] is Data
}

/// The first `i` body-chunk messages after the request headers.
pub open spec fn sent_shape(desc: RequestDescriptor, c: Seq<ChunkRead>, i: int) -> Seq<OutMsg> {
    seq![headers_view(desc)]
        + Seq::new(i as nat, |j: int| OutMsg::BodyChunk { data: chunk_data_view(c[j]) })
}

/// Every message the driver offers the channel for this request, in order:
/// the headers, one chunk per successful read up to the first failure, and
/// `BodyEnd` exactly when no read fails.
pub open spec fn planned(desc: RequestDescriptor, c: Seq<ChunkRead>) -> Seq<OutMsg> {
    sent_shape(desc, c, ok_prefix_len(c) as int)
        + if ok_prefix_len(c) == c.len() {
            seq![OutMsg::BodyEnd]
        } else {
            Seq::<OutMsg>::empty()
        }
}

/// Where a scripted send fault cuts a plan of `n` messages short: at the
/// fault's index when it lies within the plan, else not at all.
pub open spec fn fault_cut(fault: Option<usize>, n: int) -> int {
    match fault {
        Some(k) => if (k as int) < n { k as int } else { n },
        None => n,
    }
}

/// The messages that actually reach the channel.
pub open spec fn delivered(h: OperationHandle, desc: RequestDescriptor, c: Seq<ChunkRead>) -> Seq<OutMsg> {
    planned(desc, c).take(fault_cut(h.send_fault_at, planned(desc, c).len() as int))
}

/// Holds when every planned message, `BodyEnd` included, reaches the channel.
pub open spec fn sends_complete(h: OperationHandle, desc: RequestDescriptor, c: Seq<ChunkRead>) -> bool {
    &&& fault_cut(h.send_fault_at, planned(desc, c).len() as int) == planned(desc, c).len()
    &&& ok_prefix_len(c) == c.len()
}

/// How many scripted incoming events the outbound phase consumes: one, when
/// it gets as far as receiving.
pub open spec fn recv_consumed(h: OperationHandle, desc: RequestDescriptor, c: Seq<ChunkRead>) -> int {
    if sends_complete(h, desc, c) && h.incoming@.len() > 0 {
        1
    } else {
        0
    }
}

/// How the outbound phase of an exchange ends, as a function of the handle's
/// script, the request and the body source.
pub enum Phase1 {
    /// The worker answered with response headers.
    Accepted { headers: ResponseHeaders },
    /// Reading the body source failed.
    SourceFault { message: String },
    /// The worker reported an application-level error.
    WorkerFailure { payload: ErrorPayload },
    /// The worker answered with a message kind the protocol does not allow.
    Violation,
    /// The channel failed while sending or receiving.
    ChannelFault { error: TransportError },
}

/// The outcome the driver is bound to reach on handle `h` for request `desc`
/// and body source `c`.
pub open spec fn phase1_spec(h: OperationHandle, desc: RequestDescriptor, c: Seq<ChunkRead>) -> Phase1 {
    if fault_cut(h.send_fault_at, planned(desc, c).len() as int) < planned(desc, c).len() {
        Phase1::ChannelFault { error: TransportError::ChannelClosed }
    } else if ok_prefix_len(c) < c.len() {
        Phase1::SourceFault { message: fault_message(c[ok_prefix_len(c) as int]) }
    } else if h.incoming@.len() == 0 {
        Phase1::ChannelFault { error: TransportError::ChannelClosed }
    } else {
        match h.incoming@[0] {
            RecvEvent::Message(IncomingMessage::Headers { data }) => Phase1::Accepted { headers: data },
            RecvEvent::Message(IncomingMessage::Error { payload }) => Phase1::WorkerFailure { payload },
            RecvEvent::Message(IncomingMessage::BodyChunk { .. }) => Phase1::Violation,
            RecvEvent::Message(IncomingMessage::BodyEnd) => Phase1::Violation,
            RecvEvent::Fault(e) => Phase1::ChannelFault { error: e },
        }
    }
}

/// The prefix of successful reads never outruns the source.
pub proof fn lemma_ok_prefix_le(c: Seq<ChunkRead>)
    ensures
        ok_prefix_len(c) <= c.len(),
    decreases c.len(),
{
    if c.len() > 0 && c[0] is Data {
        lemma_ok_prefix_le(c.drop_first());
    }
}

/// The number of chunks before the first failed read is the length of the
/// longest all-`Data` prefix: past `i` successful reads it is `i` plus
/// whatever the rest yields.
pub proof fn lemma_ok_prefix_skip(c: Seq<ChunkRead>, i: int)
    requires
        0 <= i <= c.len(),
        forall|j: int| 0 <= j < i ==> #[trigger] c[j] is Data,
    ensures
        ok_prefix_len(c) == i + ok_prefix_len(c.skip(i)),
    decreases i,
{
    if i > 0 {
        assert(c[0] is Data);
        assert(c.drop_first() =~= c.skip(1));
        assert(forall|j: int| 0 <= j < i - 1 ==> #[trigger] c.skip(1)[j] is Data) by {
            assert(forall|j: int| 0 <= j < i - 1 ==> c.skip(1)[j] == c[j + 1]);
        }
        lemma_ok_prefix_skip(c.skip(1), i - 1);
        assert(c.skip(1).skip(i - 1) =~= c.skip(i));
    } else {
        assert(c.skip(0) =~= c);
    }
}

/// LAW: with a body source of `n` chunks whose reads all succeed and a
/// channel that accepts every send, exactly `n` body-chunk messages are
/// delivered, in production order, preceded by the one `Headers` message
/// and followed by exactly one `BodyEnd`, with nothing else between them.
pub proof fn lemma_outbound_messages(h: OperationHandle, desc: RequestDescriptor, c: Seq<ChunkRead>)
    requires
        source_ok(c),
        h.send_fault_at is None,
    ensures
        delivered(h, desc, c).len() == c.len() + 2,
        delivered(h, desc, c)[0] == headers_view(desc),
        forall|j: int| 0 <= j < c.len() ==> #[trigger] delivered(h, desc, c)[j + 1]
            == (OutMsg::BodyChunk { data: chunk_data_view(c[j]) }),
        delivered(h, desc, c).last() == OutMsg::BodyEnd,
{
    lemma_ok_prefix_skip(c, c.len() as int);
    assert(ok_prefix_len(c) == c.len());
    assert(delivered(h, desc, c) =~= planned(desc, c));
}

/// Sends the request over the acquired handle and awaits the worker's first
/// answer: the outbound phase of one exchange.
///
/// The handle is fresh, as the pool hands them out: one is created per
/// exchange and never shared across exchanges.  The contract is exact: the
/// messages that reach the channel are precisely `delivered(..)`, and the
/// result follows `phase1_spec(..)`; the handle is marked unreusable
/// exactly on a protocol violation.
#[verifier::loop_isolation(false)]
pub fn start_proxy_operation(
    operation: &mut OperationHandle,
    desc: RequestDescriptor,
    source: Vec<ChunkRead>,
    ctx: &ModuleContext,
) -> (r: Result<ResponseHeaders, ExchangeError>)
    requires
        old(operation).sent@.len() == 0,
        !old(operation).reuse_disallowed,
    ensures
        out_views(final(operation).sent@) == delivered(*old(operation), desc, source@),
        final(operation).incoming@ == old(operation).incoming@.skip(
            recv_consumed(*old(operation), desc, source@),
        ),
        final(operation).send_fault_at == old(operation).send_fault_at,
        final(operation).exit == old(operation).exit,
        final(operation).wait_fails == old(operation).wait_fails,
        final(operation).reuse_disallowed == (phase1_spec(*old(operation), desc, source@) is Violation),
        (match phase1_spec(*old(operation), desc, source@) {
            Phase1::Accepted { headers } => r == Ok::<ResponseHeaders, ExchangeError>(headers),
            Phase1::SourceFault { message } => r == Err::<ResponseHeaders, ExchangeError>(
                ExchangeError::BodySource { message },
            ),
            Phase1::WorkerFailure { payload } => (r matches Err(ExchangeError::Worker { trace })
                && trace@ == payload_trace(payload, *ctx)),
            Phase1::Violation => r == Err::<ResponseHeaders, ExchangeError>(
                ExchangeError::UnexpectedResponse,
            ),
            Phase1::ChannelFault { error } => r == Err::<ResponseHeaders, ExchangeError>(
                ExchangeError::Transport { error },
            ),
        }),
{
    let ghost h0 = *old(operation);
    let ghost gdesc = desc;
    let ghost c = source@;
    let ghost plan = planned(gdesc, c);

    match operation.send(OutgoingMessage::Headers { data: desc }) {
        Err(e) => {
            proof {
                assert(plan.len() >= 1);
                assert(out_views(operation.sent@) =~= plan.take(0));
                assert(h0.incoming@.skip(0) =~= h0.incoming@);
            }
            return Err(ExchangeError::Transport { error: e });
        }
        Ok(_) => {}
    }
    proof {
        assert(out_views(operation.sent@) =~= sent_shape(gdesc, c, 0));
        assert(c.skip(0) =~= c);
    }

    let mut rest = source;
    let total = rest.len();
    proof {
        assert(c.len() == total);
    }
    let mut i: usize = 0;
    while rest.len() > 0
        invariant
            i + rest@.len() == c.len(),
            rest@ == c.skip(i as int),
            forall|j: int| 0 <= j < i ==> #[trigger] c[j] is Data,
            out_views(operation.sent@) == sent_shape(gdesc, c, i as int),
            operation.sent@.len() == i + 1,
            (match operation.send_fault_at {
                Some(k) => k as int >= i + 1,
                None => true,
            }),
            operation.incoming@ == h0.incoming@,
            !operation.reuse_disallowed,
            operation.send_fault_at == h0.send_fault_at,
            operation.exit == h0.exit,
            operation.wait_fails == h0.wait_fails,
        decreases rest@.len(),
    {
        let chunk = rest.remove(0);
        proof {
            assert(chunk == c[i as int]);
            assert(c.skip(i as int).remove(0) =~= c.skip(i as int + 1));
        }
        match chunk {
            ChunkRead::Fault { message } => {
                proof {
                    assert(c.skip(i as int).len() > 0);
                    assert(c.skip(i as int)[0] == c[i as int]);
                    assert(!(c[i as int] is Data));
                    assert(ok_prefix_len(c.skip(i as int)) == 0);
                    lemma_ok_prefix_skip(c, i as int);
                    assert(ok_prefix_len(c) == i);
                    assert(ok_prefix_len(c) < c.len());
                    assert(plan == sent_shape(gdesc, c, i as int) + Seq::<OutMsg>::empty());
                    assert(plan =~= sent_shape(gdesc, c, i as int));
                    assert(out_views(operation.sent@) =~= plan.take(plan.len() as int));
                    assert(h0.incoming@.skip(0) =~= h0.incoming@);
                    assert(fault_message(c[i as int]) == message);
                }
                return Err(ExchangeError::BodySource { message });
            }
            ChunkRead::Data(d) => {
                proof {
                    lemma_ok_prefix_skip(c, i as int);
                    assert(ok_prefix_len(c.skip(i as int)) >= 1);
                    assert(ok_prefix_len(c) >= i + 1);
                    assert(plan.len() >= i + 2);
                }
                let ghost sent_before = operation.sent@;
                match operation.send(OutgoingMessage::BodyChunk { data: d }) {
                    Err(e) => {
                        proof {
                            assert(out_views(operation.sent@) =~= plan.take(i + 1));
                            assert(h0.incoming@.skip(0) =~= h0.incoming@);
                        }
                        return Err(ExchangeError::Transport { error: e });
                    }
                    Ok(_) => {
                        proof {
                            assert(out_views(operation.sent@)
                                =~= out_views(sent_before).push(
                                    OutMsg::BodyChunk { data: chunk_data_view(c[i as int]) },
                                ));
                            assert(out_views(operation.sent@)
                                =~= sent_shape(gdesc, c, i as int + 1));
                        }
                    }
                }
            }
        }
        i += 1;
    }

    proof {
        assert(c.skip(i as int).len() == 0);
        assert(i == c.len());
        lemma_ok_prefix_skip(c, c.len() as int);
        assert(ok_prefix_len(c) == c.len());
        assert(plan.len() == c.len() + 2);
    }

    let ghost sent_before_end = operation.sent@;
    match operation.send(OutgoingMessage::BodyEnd) {
        Err(e) => {
            proof {
                assert(out_views(operation.sent@) =~= plan.take(c.len() as int + 1));
                assert(h0.incoming@.skip(0) =~= h0.incoming@);
            }
            return Err(ExchangeError::Transport { error: e });
        }
        Ok(_) => {
            proof {
                assert(out_views(operation.sent@)
                    =~= out_views(sent_before_end).push(OutMsg::BodyEnd));
                assert(out_views(operation.sent@) =~= plan);
                assert(out_views(operation.sent@) =~= plan.take(plan.len() as int));
                assert(sends_complete(h0, gdesc, c));
            }
        }
    }

    match operation.recv() {
        Err(e) => {
            proof {
                if h0.incoming@.len() == 0 {
                    assert(h0.incoming@.skip(0) =~= h0.incoming@);
                } else {
                    assert(h0.incoming@.drop_first() =~= h0.incoming@.skip(1));
                }
            }
            Err(ExchangeError::Transport { error: e })
        }
        Ok(m) => {
            proof {
                assert(h0.incoming@.drop_first() =~= h0.incoming@.skip(1));
            }
            match m {
                IncomingMessage::Headers { data } => Ok(data),
                IncomingMessage::Error { payload } => Err(ExchangeError::Worker {
                    trace: trace_stack(payload, ctx),
                }),
                IncomingMessage::BodyChunk { .. } => {
                    operation.disallow_reuse();
                    Err(ExchangeError::UnexpectedResponse)
                }
                IncomingMessage::BodyEnd => {
                    operation.disallow_reuse();
                    Err(ExchangeError::UnexpectedResponse)
                }
            }
        }
    }
}

} // verus!
