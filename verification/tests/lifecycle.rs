//! Lifecycle handshake and exit-code behaviour, driven through the
//! dispatcher as a client would drive it.

use lsp_core::Action;
use lsp_core::ErrorCode;
use lsp_core::Incoming;
use lsp_core::Params;
use lsp_core::Phase;
use lsp_core::Reply;
use lsp_core::Response;
use lsp_core::Session;
use lsp_core::SyncKind;

fn request(id: u64, method: &str) -> Incoming {
    Incoming { id: Some(id), method: String::from(method), params: Params::Absent }
}

fn notification(method: &str) -> Incoming {
    Incoming { id: None, method: String::from(method), params: Params::Absent }
}

#[test]
fn initialize_succeeds_once() {
    let mut s = Session::new();
    assert_eq!(s.phase(), Phase::Uninitialized);
    let a = s.handle(request(1, "initialize"));
    match a {
        Action::Respond(Response { id, result: Ok(Reply::Capabilities(caps)) }) => {
            assert_eq!(id, 1);
            assert!(caps.open_close);
            assert_eq!(caps.change, SyncKind::Incremental);
            assert!(caps.save);
        }
        other => panic!("unexpected action: {:?}", other),
    }
    assert_eq!(s.phase(), Phase::Initializing);
}

#[test]
fn second_initialize_rejected_with_invalid_request() {
    let mut s = Session::new();
    let _ = s.handle(request(1, "initialize"));
    let a = s.handle(request(2, "initialize"));
    assert_eq!(
        a,
        Action::Respond(Response { id: 2, result: Err(ErrorCode::InvalidRequest) })
    );
    // Still rejected after the handshake completes and even after shutdown.
    let _ = s.handle(notification("initialized"));
    let a = s.handle(request(3, "initialize"));
    assert_eq!(
        a,
        Action::Respond(Response { id: 3, result: Err(ErrorCode::InvalidRequest) })
    );
    let _ = s.handle(request(4, "shutdown"));
    let a = s.handle(request(5, "initialize"));
    assert_eq!(
        a,
        Action::Respond(Response { id: 5, result: Err(ErrorCode::InvalidRequest) })
    );
}

#[test]
fn capabilities_reflect_implemented_handlers_only() {
    let caps = lsp_core::default_caps();
    assert!(caps.open_close);
    assert_eq!(caps.change, SyncKind::Incremental);
    assert!(caps.save);
}

#[test]
fn initialized_moves_to_running() {
    let mut s = Session::new();
    let _ = s.handle(request(1, "initialize"));
    let a = s.handle(notification("initialized"));
    assert_eq!(a, Action::Done);
    assert_eq!(s.phase(), Phase::Running);
}

#[test]
fn initialized_before_initialize_is_ignored() {
    let mut s = Session::new();
    let a = s.handle(notification("initialized"));
    assert_eq!(a, Action::Done);
    assert_eq!(s.phase(), Phase::Uninitialized);
}

#[test]
fn shutdown_only_legal_while_running() {
    let mut s = Session::new();
    let a = s.handle(request(1, "shutdown"));
    assert_eq!(
        a,
        Action::Respond(Response { id: 1, result: Err(ErrorCode::InvalidRequest) })
    );
    let _ = s.handle(request(2, "initialize"));
    let _ = s.handle(notification("initialized"));
    let a = s.handle(request(3, "shutdown"));
    assert_eq!(a, Action::Respond(Response { id: 3, result: Ok(Reply::Empty) }));
    assert_eq!(s.phase(), Phase::ShuttingDown);
    // A second shutdown is out of phase.
    let a = s.handle(request(4, "shutdown"));
    assert_eq!(
        a,
        Action::Respond(Response { id: 4, result: Err(ErrorCode::InvalidRequest) })
    );
}

#[test]
fn shutdown_then_exit_code_zero() {
    let mut s = Session::new();
    let _ = s.handle(request(1, "initialize"));
    let _ = s.handle(notification("initialized"));
    let _ = s.handle(request(2, "shutdown"));
    let a = s.handle(notification("exit"));
    assert_eq!(a, Action::Exit(0));
    assert_eq!(s.phase(), Phase::Stopped);
}

#[test]
fn exit_without_shutdown_nonzero_code() {
    let mut s = Session::new();
    let a = s.handle(notification("exit"));
    assert_eq!(a, Action::Exit(1));
    assert_eq!(s.phase(), Phase::Stopped);

    let mut s2 = Session::new();
    let _ = s2.handle(request(1, "initialize"));
    let _ = s2.handle(notification("initialized"));
    let a2 = s2.handle(notification("exit"));
    assert_eq!(a2, Action::Exit(1));
}

#[test]
fn wire_codes_are_the_protocol_codes() {
    assert_eq!(ErrorCode::InvalidRequest.wire_code(), -32600);
    assert_eq!(ErrorCode::MethodNotFound.wire_code(), -32601);
    assert_eq!(ErrorCode::InvalidParams.wire_code(), -32602);
    assert_eq!(ErrorCode::InternalError.wire_code(), -32603);
    assert_eq!(ErrorCode::RequestCancelled.wire_code(), -32800);
    assert_eq!(ErrorCode::ContentModified.wire_code(), -32801);
}
