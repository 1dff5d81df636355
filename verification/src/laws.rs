//! The laws of the protocol core, each proved from the specification
//! functions that the executable dispatcher is proved equal to.

use vstd::prelude::*;

use crate::edit::apply_edits_spec;
use crate::edit::Edit;
use crate::error::DocError;
use crate::error::ErrorCode;
use crate::router::spec_classify;
use crate::router::ServerCaps;
use crate::session::spec_cancel;
use crate::session::spec_did_change;
use crate::session::spec_did_close;
use crate::session::spec_did_open;
use crate::session::spec_exit;
use crate::session::spec_initialize;
use crate::session::spec_step;
use crate::session::Action;
use crate::session::Incoming;
use crate::session::NotifyError;
use crate::session::Response;
use crate::session::SessionView;
use crate::store::ChangeSet;
use crate::store::DocView;
use crate::store::SyncKind;

verus! {

/// Law: `initialize` succeeds precisely in the uninitialized phase, moves
/// the session out of it, and fails anywhere else with `InvalidRequest`.
pub proof fn lemma_initialize_accepted_once(s: SessionView)
    ensures
        spec_initialize(s).1 is Ok <==> s.phase is Uninitialized,
        s.phase is Uninitialized ==> spec_initialize(s).0.phase is Initializing,
        !(s.phase is Uninitialized) ==> spec_initialize(s) == (
            s,
            Err::<ServerCaps, ErrorCode>(ErrorCode::InvalidRequest),
        ),
{
}

/// Law: no step returns a session to the uninitialized phase, so once an
/// `initialize` was accepted, every further `initialize` request of the
/// session answers `InvalidRequest`. Together with
/// `lemma_initialize_accepted_once` this makes `initialize` accepted
/// exactly once per session, over every method sequence.
pub proof fn lemma_no_step_reenters_uninitialized(s: SessionView, msg: Incoming)
    requires
        !(s.phase is Uninitialized),
    ensures
        !(spec_step(s, msg).0.phase is Uninitialized),
        (msg.id is Some && spec_classify(msg.method@) is Initialize) ==> spec_step(s, msg).1
            == Action::Respond(
            Response { id: msg.id->0, result: Err(ErrorCode::InvalidRequest) },
        ),
{
}

/// Law: a change whose version is not above the document's tracked version
/// fails with `StaleVersion`, and a stale change never alters any state.
pub proof fn lemma_stale_version_rejected(
    s: SessionView,
    uri: Seq<char>,
    version: u64,
    change: ChangeSet,
)
    requires
        s.docs.contains_key(uri),
        version <= s.docs[uri].version,
    ensures
        s.phase is Running ==> spec_did_change(s, uri, version, change) == (
            s,
            Err::<(), NotifyError>(NotifyError::Doc(DocError::StaleVersion)),
        ),
        spec_did_change(s, uri, version, change).0 == s,
{
}

/// Law: round-trip equivalence of the synchronization kinds. A batch of
/// incremental edits, applied in order against the progressively mutated
/// buffer, changes a document exactly as the single full replacement that
/// carries the batch's net result.
pub proof fn lemma_incremental_equals_full(
    s: SessionView,
    uri: Seq<char>,
    version: u64,
    edits: Vec<Edit>,
    full: Vec<u8>,
)
    requires
        s.docs.contains_key(uri) ==> apply_edits_spec(s.docs[uri].content, edits@) == Some(full@),
    ensures
        spec_did_change(s, uri, version, ChangeSet::Incremental(edits)) == spec_did_change(
            s,
            uri,
            version,
            ChangeSet::Full(full),
        ),
{
}

/// Law: close leaks nothing. After a `didClose` of a URI the URI is not
/// tracked; a change or another close of it fails with `UnknownDocument`;
/// and a reopen succeeds with exactly the newly given state, independent of
/// everything tracked before.
pub proof fn lemma_close_forgets(
    s: SessionView,
    uri: Seq<char>,
    version: u64,
    change: ChangeSet,
    text: Seq<u8>,
)
    requires
        s.phase is Running,
    ensures
        !spec_did_close(s, uri).0.docs.contains_key(uri),
        spec_did_change(spec_did_close(s, uri).0, uri, version, change) == (
            spec_did_close(s, uri).0,
            Err::<(), NotifyError>(NotifyError::Doc(DocError::UnknownDocument)),
        ),
        spec_did_close(spec_did_close(s, uri).0, uri).1 == Err::<(), NotifyError>(
            NotifyError::Doc(DocError::UnknownDocument),
        ),
        spec_did_open(spec_did_close(s, uri).0, uri, version, text).1 is Ok,
        spec_did_open(spec_did_close(s, uri).0, uri, version, text).0.docs[uri] == (DocView {
            version,
            content: text,
            sync: SyncKind::Incremental,
        }),
{
}

/// Law: in the running phase, a request whose method is absent from the
/// capability table, or present but unimplemented, answers `MethodNotFound`
/// — never an empty success — and changes no state.
pub proof fn lemma_unsupported_request_method_not_found(s: SessionView, msg: Incoming)
    requires
        s.phase is Running,
        msg.id is Some,
        spec_classify(msg.method@) is Stub || spec_classify(msg.method@) is NotInTable,
    ensures
        spec_step(s, msg) == (
            s,
            Action::Respond(Response { id: msg.id->0, result: Err(ErrorCode::MethodNotFound) }),
        ),
{
}

/// Law: the phase check comes before the capability table. Outside the
/// running phase every request but `initialize` — capability requests,
/// unimplemented and unknown methods alike — answers `InvalidRequest` and
/// changes no state.
pub proof fn lemma_out_of_phase_request_invalid(s: SessionView, msg: Incoming)
    requires
        !(s.phase is Running),
        msg.id is Some,
        !(spec_classify(msg.method@) is Initialize),
    ensures
        spec_step(s, msg) == (
            s,
            Action::Respond(Response { id: msg.id->0, result: Err(ErrorCode::InvalidRequest) }),
        ),
{
}

/// The hover request is in the table and unimplemented, so by
/// `lemma_unsupported_request_method_not_found` it answers
/// `MethodNotFound`.
pub proof fn lemma_hover_is_unimplemented()
    ensures
        spec_classify("textDocument/hover"@) is Stub,
{
    reveal_strlit("textDocument/hover");
    reveal_strlit("initialize");
    reveal_strlit("initialized");
    reveal_strlit("shutdown");
    reveal_strlit("exit");
    reveal_strlit("textDocument/didOpen");
    reveal_strlit("textDocument/didChange");
    reveal_strlit("textDocument/didClose");
    reveal_strlit("$/cancelRequest");
    reveal_strlit("textDocument/willSave");
    reveal_strlit("textDocument/didSave");
    reveal_strlit("workspace/didChangeConfiguration");
    reveal_strlit("workspace/didChangeWorkspaceFolders");
    reveal_strlit("workspace/didChangeWatchedFiles");
    reveal_strlit("workspace/didCreateFiles");
    reveal_strlit("workspace/didRenameFiles");
    reveal_strlit("workspace/didDeleteFiles");
    assert("textDocument/hover"@.len() == 18);
    assert("initialize"@.len() == 10);
    assert("initialized"@.len() == 11);
    assert("shutdown"@.len() == 8);
    assert("exit"@.len() == 4);
    assert("textDocument/didOpen"@.len() == 20);
    assert("textDocument/didChange"@.len() == 22);
    assert("textDocument/didClose"@.len() == 21);
    assert("$/cancelRequest"@.len() == 15);
    assert("textDocument/willSave"@.len() == 21);
    assert("textDocument/didSave"@.len() == 20);
    assert("workspace/didChangeConfiguration"@.len() == 32);
    assert("workspace/didChangeWorkspaceFolders"@.len() == 35);
    assert("workspace/didChangeWatchedFiles"@.len() == 31);
    assert("workspace/didCreateFiles"@.len() == 24);
    assert("workspace/didRenameFiles"@.len() == 24);
    assert("workspace/didDeleteFiles"@.len() == 24);
    assert(crate::router::is_stub_method("textDocument/hover"@));
}

/// Law: `exit` stops the session in any phase, and its code is zero
/// exactly when a `shutdown` was acknowledged first.
pub proof fn lemma_exit_code(s: SessionView)
    ensures
        spec_exit(s).0.phase is Stopped,
        spec_exit(s).1 == 0i32 <==> s.phase is ShuttingDown,
{
}

/// Law: a cancel notification for an id with no matching in-flight request
/// is a no-op: no state change and no error, ever.
pub proof fn lemma_cancel_unknown_id_noop(s: SessionView, id: u64)
    requires
        !s.inflight.contains(id),
    ensures
        spec_cancel(s, id) == (s, Option::<Response>::None),
{
}

/// Law: no step lets a tracked document's version decrease. A document
/// that is tracked before and after a step carries at least its old
/// version afterwards.
pub proof fn lemma_versions_never_decrease(s: SessionView, msg: Incoming, uri: Seq<char>)
    requires
        s.docs.contains_key(uri),
        spec_step(s, msg).0.docs.contains_key(uri),
    ensures
        spec_step(s, msg).0.docs[uri].version >= s.docs[uri].version,
{
}

/// Law: a request always gets exactly one response, correlated by its id —
/// a success or an error, never silence and never an exit.
pub proof fn lemma_requests_always_answered(s: SessionView, msg: Incoming)
    requires
        msg.id is Some,
    ensures
        spec_step(s, msg).1 matches Action::Respond(r) && r.id == msg.id->0,
{
}

/// Law: a notification never gets a response, with the single exception of
/// a cancel answering the request it cancels; and it never produces an
/// error envelope of its own.
pub proof fn lemma_notifications_never_answered(s: SessionView, msg: Incoming)
    requires
        msg.id is None,
        !(spec_classify(msg.method@) is Cancel),
    ensures
        spec_step(s, msg).1 is Done || spec_step(s, msg).1 is Exit,
{
}

} // verus!

