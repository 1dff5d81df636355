//! Routing behaviour: unsupported methods, unknown methods, wrong message
//! kinds, and cancellation.

use lsp_core::classify;
use lsp_core::Action;
use lsp_core::ErrorCode;
use lsp_core::Handler;
use lsp_core::Incoming;
use lsp_core::Params;
use lsp_core::Phase;
use lsp_core::Response;
use lsp_core::Session;

fn request(id: u64, method: &str) -> Incoming {
    Incoming { id: Some(id), method: String::from(method), params: Params::Absent }
}

fn notification(method: &str) -> Incoming {
    Incoming { id: None, method: String::from(method), params: Params::Absent }
}

fn running_session() -> Session {
    let mut s = Session::new();
    let _ = s.handle(request(1, "initialize"));
    let _ = s.handle(notification("initialized"));
    s
}

#[test]
fn hover_without_handler_is_method_not_found() {
    let mut s = running_session();
    let a = s.handle(request(7, "textDocument/hover"));
    assert_eq!(
        a,
        Action::Respond(Response { id: 7, result: Err(ErrorCode::MethodNotFound) })
    );
    assert_eq!(ErrorCode::MethodNotFound.wire_code(), -32601);
}

#[test]
fn every_stub_request_is_method_not_found() {
    let mut s = running_session();
    let methods = [
        "textDocument/declaration",
        "textDocument/definition",
        "textDocument/completion",
        "textDocument/formatting",
        "textDocument/rename",
        "textDocument/willSaveWaitUntil",
        "workspace/symbol",
        "workspace/executeCommand",
        "textDocument/semanticTokens/full/delta",
    ];
    let mut id: u64 = 10;
    for m in methods {
        let a = s.handle(request(id, m));
        assert_eq!(
            a,
            Action::Respond(Response { id, result: Err(ErrorCode::MethodNotFound) })
        );
        id += 1;
    }
    assert_eq!(s.phase(), Phase::Running);
}

#[test]
fn unknown_method_request_is_method_not_found() {
    let mut s = running_session();
    let a = s.handle(request(3, "textDocument/somethingNew"));
    assert_eq!(
        a,
        Action::Respond(Response { id: 3, result: Err(ErrorCode::MethodNotFound) })
    );
}

#[test]
fn unknown_notification_is_dropped_not_fatal() {
    let mut s = running_session();
    let a = s.handle(notification("$/someFutureProgress"));
    assert_eq!(a, Action::Done);
    assert_eq!(s.phase(), Phase::Running);
}

#[test]
fn notify_only_methods_change_nothing() {
    let mut s = running_session();
    for m in [
        "textDocument/willSave",
        "textDocument/didSave",
        "workspace/didChangeConfiguration",
        "workspace/didChangeWorkspaceFolders",
        "workspace/didChangeWatchedFiles",
        "workspace/didCreateFiles",
        "workspace/didRenameFiles",
        "workspace/didDeleteFiles",
    ] {
        let a = s.handle(notification(m));
        assert_eq!(a, Action::Done);
    }
    assert_eq!(s.phase(), Phase::Running);
}

#[test]
fn notification_method_sent_as_request_is_invalid() {
    let mut s = running_session();
    let a = s.handle(request(4, "textDocument/didOpen"));
    assert_eq!(
        a,
        Action::Respond(Response { id: 4, result: Err(ErrorCode::InvalidRequest) })
    );
    let a = s.handle(request(5, "exit"));
    assert_eq!(
        a,
        Action::Respond(Response { id: 5, result: Err(ErrorCode::InvalidRequest) })
    );
    assert_eq!(s.phase(), Phase::Running);
}

#[test]
fn request_method_sent_as_notification_is_dropped() {
    let mut s = Session::new();
    let a = s.handle(notification("initialize"));
    assert_eq!(a, Action::Done);
    assert_eq!(s.phase(), Phase::Uninitialized);
    let mut r = running_session();
    let a = r.handle(notification("shutdown"));
    assert_eq!(a, Action::Done);
    assert_eq!(r.phase(), Phase::Running);
}

#[test]
fn cancel_with_no_matching_request_is_noop() {
    let mut s = running_session();
    let a = s.handle(Incoming {
        id: None,
        method: String::from("$/cancelRequest"),
        params: Params::Cancel { id: 42 },
    });
    assert_eq!(a, Action::Done);
    assert_eq!(s.phase(), Phase::Running);
}

#[test]
fn cancel_of_inflight_request_answers_request_cancelled() {
    let mut s = running_session();
    s.begin_request(9);
    let a = s.handle(Incoming {
        id: None,
        method: String::from("$/cancelRequest"),
        params: Params::Cancel { id: 9 },
    });
    assert_eq!(
        a,
        Action::Respond(Response { id: 9, result: Err(ErrorCode::RequestCancelled) })
    );
    // The cancelled request was already answered: finishing it reports so.
    assert!(!s.finish_request(9));
    // Cancelling again is now a no-op.
    let a = s.handle(Incoming {
        id: None,
        method: String::from("$/cancelRequest"),
        params: Params::Cancel { id: 9 },
    });
    assert_eq!(a, Action::Done);
}

#[test]
fn finish_after_normal_completion_reports_true() {
    let mut s = running_session();
    s.begin_request(3);
    s.begin_request(4);
    assert!(s.finish_request(3));
    assert!(s.finish_request(4));
    assert!(!s.finish_request(3));
}

#[test]
fn classify_routes_each_method_kind() {
    assert_eq!(classify("initialize"), Handler::Initialize);
    assert_eq!(classify("initialized"), Handler::Initialized);
    assert_eq!(classify("shutdown"), Handler::Shutdown);
    assert_eq!(classify("exit"), Handler::Exit);
    assert_eq!(classify("textDocument/didOpen"), Handler::DidOpen);
    assert_eq!(classify("textDocument/didChange"), Handler::DidChange);
    assert_eq!(classify("textDocument/didClose"), Handler::DidClose);
    assert_eq!(classify("$/cancelRequest"), Handler::Cancel);
    assert_eq!(classify("textDocument/didSave"), Handler::NotifyOnly);
    assert_eq!(classify("textDocument/hover"), Handler::Stub);
    assert_eq!(classify("no/such/method"), Handler::NotInTable);
    assert_eq!(classify(""), Handler::NotInTable);
}

#[test]
fn out_of_phase_capability_request_is_invalid_request() {
    // Before initialize: the phase check precedes the capability table, so
    // stub and unknown methods alike answer InvalidRequest, not
    // MethodNotFound.
    let mut s = Session::new();
    let a = s.handle(request(1, "textDocument/hover"));
    assert_eq!(
        a,
        Action::Respond(Response { id: 1, result: Err(ErrorCode::InvalidRequest) })
    );
    let a = s.handle(request(2, "no/such/method"));
    assert_eq!(
        a,
        Action::Respond(Response { id: 2, result: Err(ErrorCode::InvalidRequest) })
    );
    // While initializing.
    let _ = s.handle(request(3, "initialize"));
    let a = s.handle(request(4, "textDocument/formatting"));
    assert_eq!(
        a,
        Action::Respond(Response { id: 4, result: Err(ErrorCode::InvalidRequest) })
    );
    // After shutdown.
    let _ = s.handle(notification("initialized"));
    let _ = s.handle(request(5, "shutdown"));
    let a = s.handle(request(6, "textDocument/hover"));
    assert_eq!(
        a,
        Action::Respond(Response { id: 6, result: Err(ErrorCode::InvalidRequest) })
    );
    assert_eq!(s.phase(), Phase::ShuttingDown);
}
