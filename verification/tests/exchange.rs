//! End-to-end exchanges over scripted worker channels.

use render_proxy::channel::{ExitStatus, OperationHandle, RecvEvent, TransportError};
use render_proxy::driver::{start_proxy_operation, ChunkRead, ExchangeError};
use render_proxy::messages::{
    ErrorPayload, IncomingMessage, OutgoingMessage, RequestDescriptor, ResponseHeaders,
};
use render_proxy::proxy::{render_proxy, PoolError, ProxyBody};
use render_proxy::translate::ModuleContext;

fn get_root() -> RequestDescriptor {
    RequestDescriptor { method: "GET".to_string(), url: "/".to_string(), headers: vec![] }
}

fn no_mappings() -> ModuleContext {
    ModuleContext { mappings: vec![] }
}

#[test]
fn scripted_exchange_streams_the_response() {
    let script = vec![
        RecvEvent::Message(IncomingMessage::Headers {
            data: ResponseHeaders {
                status: 200,
                headers: vec![("content-type".to_string(), "text/html".to_string())],
            },
        }),
        RecvEvent::Message(IncomingMessage::BodyChunk { data: b"hi".to_vec() }),
        RecvEvent::Message(IncomingMessage::BodyEnd),
    ];
    let op = OperationHandle::over_script(script);
    let ctx = no_mappings();

    let (result, issue) = render_proxy("/page", get_root(), vec![], Ok(op), &ctx);

    assert!(issue.is_none());
    assert_eq!(result.status, 200);
    assert_eq!(
        result.headers,
        vec![("content-type".to_string(), "text/html".to_string())]
    );
    match result.body {
        ProxyBody::Stream(mut stream) => {
            assert_eq!(stream.op.sent.len(), 2);
            assert!(matches!(stream.op.sent[0], OutgoingMessage::Headers { .. }));
            assert_eq!(stream.op.sent[1], OutgoingMessage::BodyEnd);
            let (chunks, end) = stream.drain(&ctx);
            assert_eq!(chunks, vec![b"hi".to_vec()]);
            assert!(end.is_none());
            assert!(!stream.op.reuse_disallowed);
        }
        ProxyBody::Fixed(_) => panic!("expected a streamed body"),
    }
}

#[test]
fn response_status_and_headers_equal_what_the_worker_sent() {
    let desc = RequestDescriptor {
        method: "POST".to_string(),
        url: "/submit".to_string(),
        headers: vec![("accept".to_string(), "text/plain".to_string())],
    };
    let script = vec![
        RecvEvent::Message(IncomingMessage::Headers {
            data: ResponseHeaders {
                status: 404,
                headers: vec![
                    ("x-a".to_string(), "1".to_string()),
                    ("x-b".to_string(), "2".to_string()),
                ],
            },
        }),
        RecvEvent::Message(IncomingMessage::BodyEnd),
    ];
    let op = OperationHandle::over_script(script);
    let ctx = no_mappings();
    let source = vec![ChunkRead::Data(b"payload".to_vec())];

    let (result, issue) = render_proxy("/page", desc, source, Ok(op), &ctx);

    assert!(issue.is_none());
    assert_eq!(result.status, 404);
    assert_eq!(
        result.headers,
        vec![
            ("x-a".to_string(), "1".to_string()),
            ("x-b".to_string(), "2".to_string()),
        ]
    );
    match result.body {
        ProxyBody::Stream(stream) => {
            assert_eq!(stream.op.sent.len(), 3);
            match &stream.op.sent[0] {
                OutgoingMessage::Headers { data } => {
                    assert_eq!(data.method, "POST");
                    assert_eq!(data.url, "/submit");
                    assert_eq!(
                        data.headers,
                        vec![("accept".to_string(), "text/plain".to_string())]
                    );
                }
                other => panic!("expected request headers first, got {:?}", other),
            }
            assert_eq!(
                stream.op.sent[1],
                OutgoingMessage::BodyChunk { data: b"payload".to_vec() }
            );
            assert_eq!(stream.op.sent[2], OutgoingMessage::BodyEnd);
        }
        ProxyBody::Fixed(_) => panic!("expected a streamed body"),
    }
}

#[test]
fn transport_fault_render_reports_channel_failure() {
    let op = OperationHandle::over_script(vec![RecvEvent::Fault(TransportError::ChannelClosed)]);
    let ctx = no_mappings();

    let (result, issue) = render_proxy("/page", get_root(), vec![], Ok(op), &ctx);

    assert_eq!(result.status, 500);
    match result.body {
        ProxyBody::Fixed(body) => assert_eq!(
            body,
            "An error occurred while proxying a request to Node.js:\n\
             the channel to the process was closed\nstatus: exit code: 0"
        ),
        ProxyBody::Stream(_) => panic!("expected a fixed body"),
    }
    assert_eq!(issue.expect("issue").status, Some(0));
}

#[test]
fn worker_error_first_reply_becomes_500() {
    let script = vec![RecvEvent::Message(IncomingMessage::Error {
        payload: ErrorPayload { message: "boom".to_string(), frames: vec![] },
    })];
    let op = OperationHandle::over_script(script);
    let ctx = no_mappings();

    let (result, issue) = render_proxy("/page", get_root(), vec![], Ok(op), &ctx);

    assert_eq!(result.status, 500);
    assert_eq!(
        result.headers,
        vec![("content-type".to_string(), "text/html; charset=utf-8".to_string())]
    );
    match result.body {
        ProxyBody::Fixed(body) => {
            assert!(body.contains("boom"));
            assert_eq!(
                body,
                "An error occurred while proxying a request to Node.js:\nboom\nstatus: exit code: 0"
            );
        }
        ProxyBody::Stream(_) => panic!("expected a fixed body"),
    }
    let issue = issue.expect("a failed exchange reports an issue");
    assert_eq!(issue.context, "/page");
    assert_eq!(issue.message, "boom");
    assert_eq!(issue.status, Some(0));
}

#[test]
fn pool_failure_still_returns_500() {
    let ctx = no_mappings();
    let (result, issue) = render_proxy(
        "/page",
        get_root(),
        vec![],
        Err(PoolError { message: "no worker available".to_string() }),
        &ctx,
    );

    assert_eq!(result.status, 500);
    match result.body {
        ProxyBody::Fixed(body) => assert_eq!(
            body,
            "An error occurred while proxying a request to Node.js:\nno worker available\n"
        ),
        ProxyBody::Stream(_) => panic!("expected a fixed body"),
    }
    let issue = issue.expect("a failed acquisition reports an issue");
    assert_eq!(issue.message, "no worker available");
    assert_eq!(issue.status, None);
}

#[test]
fn body_chunks_sent_in_order_then_body_end() {
    let mut op = OperationHandle::over_script(vec![RecvEvent::Message(IncomingMessage::Headers {
        data: ResponseHeaders { status: 204, headers: vec![] },
    })]);
    let source = vec![
        ChunkRead::Data(vec![1]),
        ChunkRead::Data(vec![2, 3]),
        ChunkRead::Data(vec![]),
    ];
    let ctx = no_mappings();

    let headers = start_proxy_operation(&mut op, get_root(), source, &ctx)
        .expect("a scripted headers reply succeeds");

    assert_eq!(headers.status, 204);
    assert_eq!(op.sent.len(), 5);
    assert!(matches!(op.sent[0], OutgoingMessage::Headers { .. }));
    assert_eq!(op.sent[1], OutgoingMessage::BodyChunk { data: vec![1] });
    assert_eq!(op.sent[2], OutgoingMessage::BodyChunk { data: vec![2, 3] });
    assert_eq!(op.sent[3], OutgoingMessage::BodyChunk { data: vec![] });
    assert_eq!(op.sent[4], OutgoingMessage::BodyEnd);
}

#[test]
fn body_source_fault_aborts_before_body_end() {
    let mut op = OperationHandle::over_script(vec![RecvEvent::Message(IncomingMessage::Headers {
        data: ResponseHeaders { status: 200, headers: vec![] },
    })]);
    let source = vec![
        ChunkRead::Data(b"a".to_vec()),
        ChunkRead::Fault { message: "disk gone".to_string() },
        ChunkRead::Data(b"b".to_vec()),
    ];
    let ctx = no_mappings();

    let r = start_proxy_operation(&mut op, get_root(), source, &ctx);

    assert_eq!(r, Err(ExchangeError::BodySource { message: "disk gone".to_string() }));
    assert_eq!(op.sent.len(), 2);
    assert_eq!(op.sent[1], OutgoingMessage::BodyChunk { data: b"a".to_vec() });
    assert_eq!(op.incoming.len(), 1);
    assert!(!op.reuse_disallowed);
}

#[test]
fn source_fault_render_reports_local_error() {
    let op = OperationHandle::over_script(vec![RecvEvent::Message(IncomingMessage::Headers {
        data: ResponseHeaders { status: 200, headers: vec![] },
    })]);
    let ctx = no_mappings();
    let source = vec![ChunkRead::Fault { message: "pipe closed".to_string() }];

    let (result, issue) = render_proxy("/page", get_root(), source, Ok(op), &ctx);

    assert_eq!(result.status, 500);
    match result.body {
        ProxyBody::Fixed(body) => assert_eq!(
            body,
            "An error occurred while proxying a request to Node.js:\n\
             could not read the request body: pipe closed\nstatus: exit code: 0"
        ),
        ProxyBody::Stream(_) => panic!("expected a fixed body"),
    }
    assert_eq!(
        issue.expect("issue").message,
        "could not read the request body: pipe closed"
    );
}

#[test]
fn send_fault_is_a_transport_error() {
    let mut op = OperationHandle {
        incoming: vec![],
        sent: vec![],
        send_fault_at: Some(1),
        reuse_disallowed: false,
        exit: ExitStatus { code: Some(0) },
        wait_fails: false,
    };
    let source = vec![ChunkRead::Data(b"x".to_vec())];
    let ctx = no_mappings();

    let r = start_proxy_operation(&mut op, get_root(), source, &ctx);

    assert_eq!(
        r,
        Err(ExchangeError::Transport { error: TransportError::ChannelClosed })
    );
    assert_eq!(op.sent.len(), 1);
    assert!(matches!(op.sent[0], OutgoingMessage::Headers { .. }));
    assert!(!op.reuse_disallowed);
}

#[test]
fn unexpected_first_reply_disallows_reuse() {
    let mut op = OperationHandle::over_script(vec![RecvEvent::Message(
        IncomingMessage::BodyChunk { data: b"zz".to_vec() },
    )]);
    let ctx = no_mappings();

    let r = start_proxy_operation(&mut op, get_root(), vec![], &ctx);

    assert_eq!(r, Err(ExchangeError::UnexpectedResponse));
    assert!(op.reuse_disallowed);
    assert_eq!(
        ExchangeError::UnexpectedResponse.describe(),
        "unexpected response from the process"
    );
}

#[test]
fn transport_fault_reply_fails_the_exchange() {
    let mut op = OperationHandle::over_script(vec![RecvEvent::Fault(TransportError::Timeout)]);
    let ctx = no_mappings();

    let r = start_proxy_operation(&mut op, get_root(), vec![], &ctx);

    assert_eq!(r, Err(ExchangeError::Transport { error: TransportError::Timeout }));
    assert!(!op.reuse_disallowed);
}

#[test]
fn violation_render_reports_distinct_error_text() {
    let op = OperationHandle {
        incoming: vec![RecvEvent::Message(IncomingMessage::BodyEnd)],
        sent: vec![],
        send_fault_at: None,
        reuse_disallowed: false,
        exit: ExitStatus { code: Some(7) },
        wait_fails: false,
    };
    let ctx = no_mappings();

    let (result, issue) = render_proxy("/page", get_root(), vec![], Ok(op), &ctx);

    assert_eq!(result.status, 500);
    match result.body {
        ProxyBody::Fixed(body) => assert_eq!(
            body,
            "An error occurred while proxying a request to Node.js:\n\
             unexpected response from the process\nstatus: exit code: 7"
        ),
        ProxyBody::Stream(_) => panic!("expected a fixed body"),
    }
    assert_eq!(issue.expect("issue").status, Some(7));
}
