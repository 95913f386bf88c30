//! The pieces one by one: channel, stream, translator, texts, daemon rules.

use render_proxy::channel::{ExitStatus, OperationHandle, RecvEvent, TransportError};
use render_proxy::daemon::{ChangedOutputs, DaemonClient, DaemonError, DaemonStatus, GrpcCode};
use render_proxy::failure::proxy_error;
use render_proxy::messages::{ErrorPayload, IncomingMessage, ResponseHeaders};
use render_proxy::text::render_int;
use render_proxy::stream::{BodyStream, StreamError};
use render_proxy::translate::{trace_stack, ModuleContext};

fn no_mappings() -> ModuleContext {
    ModuleContext { mappings: vec![] }
}

fn chunk(data: &[u8]) -> RecvEvent {
    RecvEvent::Message(IncomingMessage::BodyChunk { data: data.to_vec() })
}

#[test]
fn recv_follows_script_then_reports_closed() {
    let mut op = OperationHandle::over_script(vec![
        chunk(b"one"),
        RecvEvent::Fault(TransportError::Decode),
    ]);
    assert_eq!(
        op.recv(),
        Ok(IncomingMessage::BodyChunk { data: b"one".to_vec() })
    );
    assert_eq!(op.recv(), Err(TransportError::Decode));
    assert_eq!(op.recv(), Err(TransportError::ChannelClosed));
}

#[test]
fn wait_or_kill_reports_how_the_process_ended() {
    let mut healthy = OperationHandle::over_script(vec![]);
    healthy.exit = ExitStatus { code: Some(9) };
    assert_eq!(healthy.wait_or_kill(), Ok(ExitStatus { code: Some(9) }));

    let mut unwaitable = OperationHandle::over_script(vec![]);
    unwaitable.wait_fails = true;
    assert_eq!(unwaitable.wait_or_kill(), Err(TransportError::ChannelClosed));
}

#[test]
fn stream_yields_chunks_then_ends_cleanly() {
    let op = OperationHandle::over_script(vec![
        chunk(b"alpha"),
        chunk(b"beta"),
        RecvEvent::Message(IncomingMessage::BodyEnd),
    ]);
    let ctx = no_mappings();
    let mut stream = BodyStream::stream_body_chunks(op);

    assert_eq!(stream.pull(&ctx), Some(Ok(b"alpha".to_vec())));
    assert_eq!(stream.pull(&ctx), Some(Ok(b"beta".to_vec())));
    assert_eq!(stream.pull(&ctx), None);
    assert_eq!(stream.pull(&ctx), None);
    assert!(!stream.op.reuse_disallowed);
}

#[test]
fn stream_worker_error_is_terminal_and_translated() {
    let op = OperationHandle::over_script(vec![
        chunk(b"partial"),
        RecvEvent::Message(IncomingMessage::Error {
            payload: ErrorPayload {
                message: "boom".to_string(),
                frames: vec!["bundle.js:1".to_string()],
            },
        }),
    ]);
    let ctx = ModuleContext {
        mappings: vec![("bundle.js:1".to_string(), "src/page.tsx:3".to_string())],
    };
    let mut stream = BodyStream::stream_body_chunks(op);

    let (chunks, end) = stream.drain(&ctx);
    assert_eq!(chunks, vec![b"partial".to_vec()]);
    assert_eq!(
        end,
        Some(StreamError::Worker { trace: "boom\nsrc/page.tsx:3".to_string() })
    );
    assert!(!stream.op.reuse_disallowed);
}

#[test]
fn stream_unexpected_message_disallows_reuse() {
    let op = OperationHandle::over_script(vec![RecvEvent::Message(IncomingMessage::Headers {
        data: ResponseHeaders { status: 200, headers: vec![] },
    })]);
    let ctx = no_mappings();
    let mut stream = BodyStream::stream_body_chunks(op);

    assert_eq!(stream.pull(&ctx), Some(Err(StreamError::UnexpectedResponse)));
    assert!(stream.op.reuse_disallowed);
    assert_eq!(stream.pull(&ctx), None);
}

#[test]
fn stream_transport_fault_is_terminal() {
    let op = OperationHandle::over_script(vec![
        chunk(b"x"),
        RecvEvent::Fault(TransportError::Decode),
    ]);
    let ctx = no_mappings();
    let mut stream = BodyStream::stream_body_chunks(op);

    let (chunks, end) = stream.drain(&ctx);
    assert_eq!(chunks, vec![b"x".to_vec()]);
    assert_eq!(end, Some(StreamError::Transport { error: TransportError::Decode }));
}

#[test]
fn exhausted_script_closes_the_stream() {
    let op = OperationHandle::over_script(vec![]);
    let ctx = no_mappings();
    let mut stream = BodyStream::stream_body_chunks(op);

    assert_eq!(
        stream.pull(&ctx),
        Some(Err(StreamError::Transport { error: TransportError::ChannelClosed }))
    );
    assert_eq!(stream.pull(&ctx), None);
}

#[test]
fn trace_resolves_mapped_frames_and_keeps_raw_ones() {
    let payload = ErrorPayload {
        message: "fail".to_string(),
        frames: vec!["a.js:1".to_string(), "b.js:9".to_string()],
    };
    let ctx = ModuleContext { mappings: vec![("a.js:1".to_string(), "src/a.ts:5".to_string())] };

    assert_eq!(trace_stack(payload, &ctx), "fail\nsrc/a.ts:5\nb.js:9");
}

#[test]
fn first_matching_mapping_wins() {
    let payload = ErrorPayload { message: "fail".to_string(), frames: vec!["f".to_string()] };
    let ctx = ModuleContext {
        mappings: vec![
            ("f".to_string(), "first".to_string()),
            ("f".to_string(), "second".to_string()),
        ],
    };

    assert_eq!(trace_stack(payload, &ctx), "fail\nfirst");
}

#[test]
fn renders_decimal_codes() {
    assert_eq!(render_int(0), "0");
    assert_eq!(render_int(42), "42");
    assert_eq!(render_int(-7), "-7");
    assert_eq!(render_int(i32::MAX), "2147483647");
    assert_eq!(render_int(i32::MIN), "-2147483648");
}

#[test]
fn exit_status_description() {
    assert_eq!(ExitStatus { code: Some(3) }.describe(), "exit code: 3");
    assert_eq!(ExitStatus { code: None }.describe(), "terminated by a signal");
}

#[test]
fn failure_handler_captures_exit_status() {
    let mut op = OperationHandle::over_script(vec![]);
    op.exit = ExitStatus { code: Some(2) };
    let (body, issue) = proxy_error("/p", "msg".to_string(), Some(op));
    assert_eq!(
        body,
        "An error occurred while proxying a request to Node.js:\nmsg\nstatus: exit code: 2"
    );
    assert_eq!(issue.context, "/p");
    assert_eq!(issue.status, Some(2));

    let mut unwaitable = OperationHandle::over_script(vec![]);
    unwaitable.wait_fails = true;
    let (body, issue) = proxy_error("/p", "msg".to_string(), Some(unwaitable));
    assert_eq!(body, "An error occurred while proxying a request to Node.js:\nmsg\n");
    assert_eq!(issue.status, None);
}

#[test]
fn daemon_status_codes_classify() {
    assert_eq!(
        DaemonError::from_code(GrpcCode::FailedPrecondition),
        DaemonError::VersionMismatch
    );
    assert_eq!(DaemonError::from_code(GrpcCode::Unavailable), DaemonError::Connection);
    assert_eq!(
        DaemonError::from_code(GrpcCode::Internal),
        DaemonError::GrpcFailure { code: GrpcCode::Internal }
    );
}

#[test]
fn daemon_reply_owes_its_payload() {
    let status = DaemonStatus { uptime_ms: 12, log_file: "d.log".to_string() };
    assert_eq!(
        DaemonClient::<()>::status(Some(status)),
        Ok(DaemonStatus { uptime_ms: 12, log_file: "d.log".to_string() })
    );
    assert_eq!(
        DaemonClient::<()>::status(None),
        Err(DaemonError::MissingResponse)
    );
}

#[test]
fn daemon_changed_outputs_are_handed_through() {
    let reply = ChangedOutputs { changed_output_globs: vec!["dist/**".to_string()] };
    assert_eq!(
        DaemonClient::<()>::get_changed_outputs(reply),
        vec!["dist/**".to_string()]
    );
}

#[test]
fn daemon_client_keeps_its_settings() {
    let bare = DaemonClient { connect_settings: () };
    let client = bare.with_connect_settings("tcp".to_string());
    assert_eq!(client.stop(), "tcp".to_string());
}
