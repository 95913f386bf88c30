//! The render proxy itself: one full exchange, from an acquired operation
//! handle to a proxied response.
//!
//! Every failure before response headers — pool acquisition, the outbound
//! phase, the worker's first answer — is absorbed into a synthesized 500
//! response with a readable body; nothing on that path escapes as an error.
//! Once headers arrive they are returned at once, and the body follows as a
//! lazy stream that fails independently.

use vstd::prelude::*;
use vstd::string::StringExecFns;

use crate::channel::{ExitStatus, OperationHandle, RecvEvent};
use crate::driver::{
    delivered, lemma_ok_prefix_skip, phase1_spec, recv_consumed, sends_complete, source_ok,
    start_proxy_operation, ChunkRead, Phase1,
};
use crate::failure::{
    error_page_text, error_text, op_kill_status, proxy_error, status_code,
    transport_text, RenderingIssue,
};
use crate::messages::{header_views, out_views, IncomingMessage, RequestDescriptor, ResponseHeaders};
use crate::stream::{
    chunk_datas, drain_end, event_chunk_data, is_chunk, lemma_clean_drain, BodyStream,
};
use crate::translate::{payload_trace, ModuleContext};

verus! {

/// Why no operation handle could be acquired from the process pool.
#[derive(Debug, PartialEq, Eq)]
pub struct PoolError {
    /// The formatted acquisition failure.
    pub message: String,
}

/// The body of a proxied response: the fixed page of a failed render, or
/// the lazy chunk stream of a successful one.
#[derive(Debug)]
pub enum ProxyBody {
    Fixed(String),
    Stream(BodyStream),
}

/// A proxied response: status and headers, available at once, and a body
/// that may still be streaming in.
#[derive(Debug)]
pub struct ProxyResult {
    pub status: u16,
    pub headers: Vec<(String, String)>,
    pub body: ProxyBody,
}

/// The one header of a synthesized error response.
pub open spec fn error_page_headers() -> Seq<(Seq<char>, Seq<char>)> {
    seq![("content-type"@, "text/html; charset=utf-8"@)]
}

/// Wraps a readable body as a full error response: fixed status 500, a
/// `content-type` of HTML, the body as the entire payload.
pub fn proxy_500(body: String) -> (r: ProxyResult)
    ensures
        r.status == 500,
        header_views(r.headers@) == error_page_headers(),
        r.body == ProxyBody::Fixed(body),
{
    let mut headers: Vec<(String, String)> = Vec::new();
    headers.push((
        String::from_str("content-type"),
        String::from_str("text/html; charset=utf-8"),
    ));
    proof {
        assert(header_views(headers@) =~= error_page_headers());
    }
    ProxyResult { status: 500, headers, body: ProxyBody::Fixed(body) }
}

/// The user-visible message of a failed outbound phase.
pub open spec fn failure_text(out: Phase1, ctx: ModuleContext) -> Seq<char> {
    match out {
        Phase1::SourceFault { message } => "could not read the request body: "@ + message@,
        Phase1::WorkerFailure { payload } => payload_trace(payload, ctx),
        Phase1::Violation => "unexpected response from the process"@,
        Phase1::ChannelFault { error } => transport_text(error),
        Phase1::Accepted { .. } => arbitrary(),
    }
}

/// Holds when `r` is the outcome of a render whose exchange failed before
/// response headers: a synthesized 500 response carrying the readable error
/// page, and the diagnostic issue to report, exactly once.
pub open spec fn failed_render(
    r: (ProxyResult, Option<RenderingIssue>),
    path: Seq<char>,
    message: Seq<char>,
    status: Option<ExitStatus>,
) -> bool {
    &&& r.0.status == 500
    &&& header_views(r.0.headers@) == error_page_headers()
    &&& (r.0.body matches ProxyBody::Fixed(b) && b@ == error_page_text(message, status))
    &&& (r.1 matches Some(issue) && issue.context@ == path && issue.message@ == message
        && issue.status == status_code(status))
}

/// Renders one request through a pooled worker process.
///
/// On success the worker's status and headers are returned exactly as sent,
/// together with the lazy body stream over the same handle.  On any failure
/// before response headers — a pool acquisition failure included — the
/// caller still receives a valid response: status 500, an HTML content
/// type, and a body that combines the failure message with the worker's
/// captured exit status; the diagnostic issue accompanies it for the
/// caller's sink.  When no handle was acquired, none is waited for.
pub fn render_proxy(
    path: &str,
    desc: RequestDescriptor,
    source: Vec<ChunkRead>,
    acquired: Result<OperationHandle, PoolError>,
    ctx: &ModuleContext,
) -> (r: (ProxyResult, Option<RenderingIssue>))
    requires
        (match acquired {
            Ok(op) => op.sent@.len() == 0 && !op.reuse_disallowed,
            Err(_) => true,
        }),
    ensures
        (match acquired {
            Err(e) => failed_render(r, path@, e.message@, Option::<ExitStatus>::None),
            Ok(op) => (match phase1_spec(op, desc, source@) {
                Phase1::Accepted { headers } => {
                    &&& r.0.status == headers.status
                    &&& r.0.headers == headers.headers
                    &&& (r.0.body matches ProxyBody::Stream(s) && !s.done
                        && s.op.incoming@ == op.incoming@.drop_first()
                        && out_views(s.op.sent@) == delivered(op, desc, source@)
                        && !s.op.reuse_disallowed
                        && s.op.exit == op.exit
                        && s.op.wait_fails == op.wait_fails)
                    &&& r.1 is None
                }
                _ => failed_render(
                    r,
                    path@,
                    failure_text(phase1_spec(op, desc, source@), *ctx),
                    op_kill_status(op),
                ),
            }),
        }),
{
    match acquired {
        Err(e) => {
            let (body, issue) = proxy_error(path, e.message, None);
            (proxy_500(body), Some(issue))
        }
        Ok(op) => {
            let ghost op0 = op;
            let mut operation = op;
            match start_proxy_operation(&mut operation, desc, source, ctx) {
                Ok(data) => {
                    proof {
                        assert(op0.incoming@.skip(1) =~= op0.incoming@.drop_first());
                        assert(phase1_spec(op0, desc, source@) is Accepted);
                        crate::driver::lemma_ok_prefix_le(source@);
                        assert(sends_complete(op0, desc, source@));
                        assert(op0.incoming@.len() > 0);
                        assert(recv_consumed(op0, desc, source@) == 1);
                        assert(operation.incoming@ == op0.incoming@.skip(1));
                    }
                    let stream = BodyStream::stream_body_chunks(operation);
                    (
                        ProxyResult {
                            status: data.status,
                            headers: data.headers,
                            body: ProxyBody::Stream(stream),
                        },
                        None,
                    )
                }
                Err(err) => {
                    let message = err.describe();
                    proof {
                        assert(error_text(err) == failure_text(phase1_spec(op0, desc, source@), *ctx));
                    }
                    let (body, issue) = proxy_error(path, message, Some(operation));
                    (proxy_500(body), Some(issue))
                }
            }
        }
    }
}

/// LAW: over a worker script that answers `Headers` and then streams its
/// body chunks to `BodyEnd`, a clean exchange — every source read and every
/// send succeeding — is accepted with exactly that header reply, and the
/// drain of the remaining script yields exactly those chunks, in order,
/// ending with no error.
pub proof fn lemma_clean_exchange(
    h: OperationHandle,
    desc: RequestDescriptor,
    c: Seq<ChunkRead>,
    reply: ResponseHeaders,
)
    requires
        source_ok(c),
        h.send_fault_at is None,
        h.incoming@.len() >= 2,
        h.incoming@[0] == RecvEvent::Message(IncomingMessage::Headers { data: reply }),
        forall|j: int| 1 <= j < h.incoming@.len() - 1 ==> #[trigger] is_chunk(h.incoming@[j]),
        h.incoming@.last() == RecvEvent::Message(IncomingMessage::BodyEnd),
    ensures
        phase1_spec(h, desc, c) == (Phase1::Accepted { headers: reply }),
        drain_end(h.incoming@.drop_first()) is Clean,
        chunk_datas(h.incoming@.drop_first()).len() == h.incoming@.len() - 2,
        forall|j: int| 0 <= j < h.incoming@.len() - 2 ==> #[trigger] chunk_datas(
            h.incoming@.drop_first(),
        )[j] == event_chunk_data(h.incoming@[j + 1]),
{
    lemma_ok_prefix_skip(c, c.len() as int);
    let tail = h.incoming@.drop_first();
    assert(tail.len() == h.incoming@.len() - 1);
    assert(forall|j: int| 0 <= j < tail.len() - 1 ==> #[trigger] is_chunk(tail[j])) by {
        assert(forall|j: int| 0 <= j < tail.len() - 1 ==> tail[j] == h.incoming@[j + 1]);
    }
    assert(tail.last() == h.incoming@.last());
    lemma_clean_drain(tail);
    assert(forall|j: int| 0 <= j < tail.len() - 1 ==> #[trigger] chunk_datas(tail)[j]
        == event_chunk_data(h.incoming@[j + 1])) by {
        assert(forall|j: int| 0 <= j < tail.len() - 1 ==> tail[j] == h.incoming@[j + 1]);
    }
}

} // verus!
