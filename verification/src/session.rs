//! The session: lifecycle state machine, per-session document store and
//! in-flight request table, and the dispatcher that routes one decoded
//! message to its handler.
//!
//! Every transition is a function of the session state and the message,
//! written down once as a specification (`spec_step` and the per-method
//! specification functions) and once as executable code proved equal to it.
//!
//! Policy for notifications that arrive out of phase, or whose parameters
//! do not fit their method: they are dropped without any state change, as
//! the protocol gives notifications no error channel. Unknown notifications
//! are likewise dropped and never fatal.

use vstd::prelude::*;

use crate::error::DocError;
use crate::error::ErrorCode;
use crate::router::classify;
use crate::router::default_caps;
use crate::router::spec_classify;
use crate::router::spec_default_caps;
use crate::router::Handler;
use crate::router::ServerCaps;
use crate::store::change_result;
use crate::store::ChangeSet;
use crate::store::DocStore;
use crate::store::DocView;
use crate::store::Document;
use crate::store::SyncKind;

verus! {

/// The lifecycle phase of a session.
#[derive(Clone, Copy, Debug, PartialEq, Eq, Structural)]
pub enum Phase {
    /// Before the `initialize` request.
    Uninitialized,
    /// After `initialize`, before the `initialized` notification.
    Initializing,
    /// The working phase; the only one in which documents are synchronized.
    Running,
    /// After the `shutdown` request; ready to exit but still alive.
    ShuttingDown,
    /// Terminal, after the `exit` notification.
    Stopped,
}

/// A handler failure inside a notification; never surfaced to the client,
/// only recorded by the event sink.
#[derive(Clone, Copy, Debug, PartialEq, Eq, Structural)]
pub enum NotifyError {
    /// The notification arrived outside the running phase.
    NotRunning,
    /// A document store error.
    Doc(DocError),
}

/// Decoded parameters of an inbound message. Methods whose parameters the
/// core does not read carry `Absent`.
pub enum Params {
    Absent,
    Open { uri: String, version: u64, text: Vec<u8> },
    Change { uri: String, version: u64, change: ChangeSet },
    Doc { uri: String },
    Cancel { id: u64 },
}

/// One decoded inbound message: a request when `id` is present, a
/// notification when it is not.
pub struct Incoming {
    pub id: Option<u64>,
    pub method: String,
    pub params: Params,
}

/// A successful result payload.
#[derive(Clone, Copy, Debug, PartialEq, Eq, Structural)]
pub enum Reply {
    /// The result of `initialize`.
    Capabilities(ServerCaps),
    /// An empty acknowledgment, as `shutdown` returns.
    Empty,
}

/// One response, correlated to its request by id. Requests always get
/// exactly one; notifications never get one.
#[derive(Clone, Copy, Debug, PartialEq, Eq)]
pub struct Response {
    pub id: u64,
    pub result: Result<Reply, ErrorCode>,
}

/// What the dispatcher tells the transport to do after one message.
#[derive(Clone, Copy, Debug, PartialEq, Eq)]
pub enum Action {
    /// Send this response.
    Respond(Response),
    /// Nothing to send.
    Done,
    /// Terminate the process with this exit code.
    Exit(i32),
}

/// Mathematical image of a session.
pub ghost struct SessionView {
    pub phase: Phase,
    pub docs: Map<Seq<char>, DocView>,
    pub inflight: Seq<u64>,
}

/// `initialize`: legal only before any other lifecycle step; negotiates
/// the capability set that mirrors the implemented handlers.
pub open spec fn spec_initialize(s: SessionView) -> (SessionView, Result<ServerCaps, ErrorCode>) {
    if s.phase is Uninitialized {
        (SessionView { phase: Phase::Initializing, ..s }, Ok(spec_default_caps()))
    } else {
        (s, Err(ErrorCode::InvalidRequest))
    }
}

/// `initialized`: moves an initializing session to running; anywhere else
/// it is dropped without effect.
pub open spec fn spec_initialized(s: SessionView) -> SessionView {
    if s.phase is Initializing {
        SessionView { phase: Phase::Running, ..s }
    } else {
        s
    }
}

/// `shutdown`: legal while running; flags readiness to exit without
/// terminating anything.
pub open spec fn spec_shutdown(s: SessionView) -> (SessionView, Result<(), ErrorCode>) {
    if s.phase is Running {
        (SessionView { phase: Phase::ShuttingDown, ..s }, Ok(()))
    } else {
        (s, Err(ErrorCode::InvalidRequest))
    }
}

/// `exit`: terminates in any phase; the code is zero exactly when a
/// `shutdown` came first.
pub open spec fn spec_exit(s: SessionView) -> (SessionView, i32) {
    (
        SessionView { phase: Phase::Stopped, ..s },
        if s.phase is ShuttingDown {
            0i32
        } else {
            1i32
        },
    )
}

/// `textDocument/didOpen`: begins tracking a document at its initial
/// version, under the synchronization kind the server advertised.
pub open spec fn spec_did_open(s: SessionView, uri: Seq<char>, version: u64, text: Seq<u8>) -> (
    SessionView,
    Result<(), NotifyError>,
) {
    if !(s.phase is Running) {
        (s, Err(NotifyError::NotRunning))
    } else if s.docs.contains_key(uri) {
        (s, Err(NotifyError::Doc(DocError::DuplicateDocument)))
    } else {
        (
            SessionView {
                docs: s.docs.insert(
                    uri,
                    DocView { version, content: text, sync: SyncKind::Incremental },
                ),
                ..s
            },
            Ok(()),
        )
    }
}

/// `textDocument/didChange`: bumps the version and applies the change;
/// stale versions, unknown documents and ill-ranged edits change nothing.
pub open spec fn spec_did_change(
    s: SessionView,
    uri: Seq<char>,
    version: u64,
    change: ChangeSet,
) -> (SessionView, Result<(), NotifyError>) {
    if !(s.phase is Running) {
        (s, Err(NotifyError::NotRunning))
    } else if !s.docs.contains_key(uri) {
        (s, Err(NotifyError::Doc(DocError::UnknownDocument)))
    } else if version <= s.docs[uri].version {
        (s, Err(NotifyError::Doc(DocError::StaleVersion)))
    } else {
        match change_result(s.docs[uri].content, change) {
            Some(c) => (
                SessionView {
                    docs: s.docs.insert(
                        uri,
                        DocView { version, content: c, sync: s.docs[uri].sync },
                    ),
                    ..s
                },
                Ok(()),
            ),
            None => (s, Err(NotifyError::Doc(DocError::InvalidRange))),
        }
    }
}

/// `textDocument/didClose`: stops tracking the document; nothing of it
/// survives.
pub open spec fn spec_did_close(s: SessionView, uri: Seq<char>) -> (
    SessionView,
    Result<(), NotifyError>,
) {
    if !(s.phase is Running) {
        (s, Err(NotifyError::NotRunning))
    } else if !s.docs.contains_key(uri) {
        (s, Err(NotifyError::Doc(DocError::UnknownDocument)))
    } else {
        (SessionView { docs: s.docs.remove(uri), ..s }, Ok(()))
    }
}

/// The in-flight table after removing `id`, when it is present.
pub open spec fn inflight_remove(fl: Seq<u64>, id: u64) -> Seq<u64> {
    fl.remove(choose|i: int| 0 <= i < fl.len() && fl[i] == id)
}

/// The cancel notification: if the id names an in-flight request, that
/// request is answered with `RequestCancelled` instead of its normal
/// response; otherwise the notification is a no-op, never an error.
pub open spec fn spec_cancel(s: SessionView, id: u64) -> (SessionView, Option<Response>) {
    if s.inflight.contains(id) {
        (
            SessionView { inflight: inflight_remove(s.inflight, id), ..s },
            Some(Response { id, result: Err(ErrorCode::RequestCancelled) }),
        )
    } else {
        (s, None)
    }
}

/// Recording that a request was taken in flight.
pub open spec fn spec_begin_request(s: SessionView, id: u64) -> SessionView {
    if s.inflight.contains(id) {
        s
    } else {
        SessionView { inflight: s.inflight.push(id), ..s }
    }
}

/// Recording that a request's handler finished; false means the request
/// was cancelled meanwhile and has already been answered.
pub open spec fn spec_finish_request(s: SessionView, id: u64) -> (SessionView, bool) {
    if s.inflight.contains(id) {
        (SessionView { inflight: inflight_remove(s.inflight, id), ..s }, true)
    } else {
        (s, false)
    }
}

/// Dispatch of one request: the phase machine first, then the capability
/// table. A capability request outside the running phase fails with
/// `InvalidRequest` before the table is consulted; in the running phase a
/// method absent from the table or present but unimplemented answers
/// `MethodNotFound`. A notification-only method called as a request is an
/// `InvalidRequest` in any phase.
pub open spec fn spec_step_request(s: SessionView, id: u64, m: Seq<char>, p: Params) -> (
    SessionView,
    Action,
) {
    match spec_classify(m) {
        Handler::Initialize => {
            let (s2, r) = spec_initialize(s);
            match r {
                Ok(c) => (
                    s2,
                    Action::Respond(Response { id, result: Ok(Reply::Capabilities(c)) }),
                ),
                Err(e) => (s2, Action::Respond(Response { id, result: Err(e) })),
            }
        },
        Handler::Shutdown => {
            let (s2, r) = spec_shutdown(s);
            match r {
                Ok(_) => (s2, Action::Respond(Response { id, result: Ok(Reply::Empty) })),
                Err(e) => (s2, Action::Respond(Response { id, result: Err(e) })),
            }
        },
        Handler::Stub => if s.phase is Running {
            (s, Action::Respond(Response { id, result: Err(ErrorCode::MethodNotFound) }))
        } else {
            (s, Action::Respond(Response { id, result: Err(ErrorCode::InvalidRequest) }))
        },
        Handler::NotInTable => if s.phase is Running {
            (s, Action::Respond(Response { id, result: Err(ErrorCode::MethodNotFound) }))
        } else {
            (s, Action::Respond(Response { id, result: Err(ErrorCode::InvalidRequest) }))
        },
        _ => (s, Action::Respond(Response { id, result: Err(ErrorCode::InvalidRequest) })),
    }
}

/// Dispatch of one notification: never a response (except the cancel
/// notification answering the request it cancels), never fatal.
pub open spec fn spec_step_notify(s: SessionView, m: Seq<char>, p: Params) -> (
    SessionView,
    Action,
) {
    match spec_classify(m) {
        Handler::Initialized => (spec_initialized(s), Action::Done),
        Handler::Exit => {
            let (s2, code) = spec_exit(s);
            (s2, Action::Exit(code))
        },
        Handler::DidOpen => match p {
            Params::Open { uri, version, text } => (
                spec_did_open(s, uri@, version, text@).0,
                Action::Done,
            ),
            _ => (s, Action::Done),
        },
        Handler::DidChange => match p {
            Params::Change { uri, version, change } => (
                spec_did_change(s, uri@, version, change).0,
                Action::Done,
            ),
            _ => (s, Action::Done),
        },
        Handler::DidClose => match p {
            Params::Doc { uri } => (spec_did_close(s, uri@).0, Action::Done),
            _ => (s, Action::Done),
        },
        Handler::Cancel => match p {
            Params::Cancel { id } => {
                let (s2, resp) = spec_cancel(s, id);
                match resp {
                    Some(r) => (s2, Action::Respond(r)),
                    None => (s2, Action::Done),
                }
            },
            _ => (s, Action::Done),
        },
        _ => (s, Action::Done),
    }
}

/// Dispatch of one decoded message.
pub open spec fn spec_step(s: SessionView, msg: Incoming) -> (SessionView, Action) {
    match msg.id {
        Some(id) => spec_step_request(s, id, msg.method@, msg.params),
        None => spec_step_notify(s, msg.method@, msg.params),
    }
}

spec fn no_dup(fl: Seq<u64>) -> bool {
    forall|i: int, j: int| 0 <= i < j < fl.len() ==> fl[i] != fl[j]
}

proof fn lemma_unique_inflight(fl: Seq<u64>, id: u64, i: int)
    requires
        no_dup(fl),
        0 <= i < fl.len(),
        fl[i] == id,
    ensures
        fl.contains(id),
        inflight_remove(fl, id) == fl.remove(i),
        no_dup(fl.remove(i)),
{
    assert(fl.contains(id));
    let j = choose|j: int| 0 <= j < fl.len() && fl[j] == id;
    if i < j {
        assert(fl[i] != fl[j]);
    } else if j < i {
        assert(fl[j] != fl[i]);
    }
    let fl2 = fl.remove(i);
    assert forall|p: int, q: int| 0 <= p < q < fl2.len() implies fl2[p] != fl2[q] by {
        let p0: int = if p < i {
            p
        } else {
            p + 1
        };
        let q0: int = if q < i {
            q
        } else {
            q + 1
        };
        assert(fl2[p] == fl[p0]);
        assert(fl2[q] == fl[q0]);
    }
}

/// One protocol session: the singleton owner of the document store and the
/// in-flight request table for one connection.
pub struct Session {
    phase: Phase,
    store: DocStore,
    inflight: Vec<u64>,
}

impl View for Session {
    type V = SessionView;

    closed spec fn view(&self) -> SessionView {
        SessionView { phase: self.phase, docs: self.store@, inflight: self.inflight@ }
    }
}

impl Session {
    /// The session's internal invariant: a well-formed store and no id
    /// twice in flight.
    pub closed spec fn wf(self) -> bool {
        self.store.wf() && no_dup(self.inflight@)
    }

    /// A fresh session, created on connection accept.
    pub fn new() -> (s: Session)
        ensures
            s.wf(),
            s@.phase == Phase::Uninitialized,
            s@.docs == Map::<Seq<char>, DocView>::empty(),
            s@.inflight == Seq::<u64>::empty(),
    {
        Session { phase: Phase::Uninitialized, store: DocStore::new(), inflight: Vec::new() }
    }

    /// The current lifecycle phase.
    pub fn phase(&self) -> (p: Phase)
        ensures
            p == self@.phase,
    {
        self.phase
    }

    /// Read-only lookup of a tracked document.
    pub fn get_doc(&self, uri: &str) -> (r: Result<&Document, DocError>)
        requires
            self.wf(),
        ensures
            match r {
                Ok(d) => self@.docs.contains_key(uri@) && d@ == self@.docs[uri@] && d.uri@ == uri@,
                Err(e) => e == DocError::UnknownDocument && !self@.docs.contains_key(uri@),
            },
    {
        self.store.get(uri)
    }

    /// Handles the `initialize` request.
    pub fn on_initialize(&mut self) -> (r: Result<ServerCaps, ErrorCode>)
        requires
            old(self).wf(),
        ensures
            final(self).wf(),
            (final(self)@, r) == spec_initialize(old(self)@),
    {
        match self.phase {
            Phase::Uninitialized => {
                self.phase = Phase::Initializing;
                Ok(default_caps())
            },
            _ => Err(ErrorCode::InvalidRequest),
        }
    }

    /// Handles the `initialized` notification.
    pub fn on_initialized(&mut self)
        requires
            old(self).wf(),
        ensures
            final(self).wf(),
            final(self)@ == spec_initialized(old(self)@),
    {
        match self.phase {
            Phase::Initializing => {
                self.phase = Phase::Running;
            },
            _ => {},
        }
    }

    /// Handles the `shutdown` request.
    pub fn on_shutdown(&mut self) -> (r: Result<(), ErrorCode>)
        requires
            old(self).wf(),
        ensures
            final(self).wf(),
            (final(self)@, r) == spec_shutdown(old(self)@),
    {
        match self.phase {
            Phase::Running => {
                self.phase = Phase::ShuttingDown;
                Ok(())
            },
            _ => Err(ErrorCode::InvalidRequest),
        }
    }

    /// Handles the `exit` notification; the caller terminates the process
    /// with the returned code.
    pub fn on_exit(&mut self) -> (code: i32)
        requires
            old(self).wf(),
        ensures
            final(self).wf(),
            (final(self)@, code) == spec_exit(old(self)@),
    {
        let code: i32 = match self.phase {
            Phase::ShuttingDown => 0,
            _ => 1,
        };
        self.phase = Phase::Stopped;
        code
    }

    /// Handles `textDocument/didOpen`.
    pub fn on_did_open(&mut self, uri: String, version: u64, text: Vec<u8>) -> (r: Result<
        (),
        NotifyError,
    >)
        requires
            old(self).wf(),
        ensures
            final(self).wf(),
            (final(self)@, r) == spec_did_open(old(self)@, uri@, version, text@),
    {
        match self.phase {
            Phase::Running => {
                match self.store.open_doc(uri, version, text, SyncKind::Incremental) {
                    Ok(_) => Ok(()),
                    Err(e) => Err(NotifyError::Doc(e)),
                }
            },
            _ => Err(NotifyError::NotRunning),
        }
    }

    /// Handles `textDocument/didChange`.
    pub fn on_did_change(&mut self, uri: &str, version: u64, change: ChangeSet) -> (r: Result<
        (),
        NotifyError,
    >)
        requires
            old(self).wf(),
        ensures
            final(self).wf(),
            (final(self)@, r) == spec_did_change(old(self)@, uri@, version, change),
    {
        match self.phase {
            Phase::Running => {
                match self.store.apply_change(uri, version, change) {
                    Ok(_) => Ok(()),
                    Err(e) => Err(NotifyError::Doc(e)),
                }
            },
            _ => Err(NotifyError::NotRunning),
        }
    }

    /// Handles `textDocument/didClose`.
    pub fn on_did_close(&mut self, uri: &str) -> (r: Result<(), NotifyError>)
        requires
            old(self).wf(),
        ensures
            final(self).wf(),
            (final(self)@, r) == spec_did_close(old(self)@, uri@),
    {
        match self.phase {
            Phase::Running => {
                match self.store.close_doc(uri) {
                    Ok(_) => Ok(()),
                    Err(e) => Err(NotifyError::Doc(e)),
                }
            },
            _ => Err(NotifyError::NotRunning),
        }
    }

    fn find_inflight(&self, id: u64) -> (r: Option<usize>)
        ensures
            match r {
                Some(i) => i < self.inflight@.len() && self.inflight@[i as int] == id,
                None => !self.inflight@.contains(id),
            },
    {
        let mut i: usize = 0;
        while i < self.inflight.len()
            invariant
                i <= self.inflight@.len(),
                forall|j: int| 0 <= j < i ==> self.inflight@[j] != id,
            decreases self.inflight@.len() - i,
        {
            if self.inflight[i] == id {
                return Some(i);
            }
            i = i + 1;
        }
        None
    }

    /// Records that the request `id` was taken in flight.
    pub fn begin_request(&mut self, id: u64)
        requires
            old(self).wf(),
        ensures
            final(self).wf(),
            final(self)@ == spec_begin_request(old(self)@, id),
    {
        match self.find_inflight(id) {
            Some(_) => {},
            None => {
                self.inflight.push(id);
            },
        }
    }

    /// Records that the handler for request `id` finished normally; a
    /// `false` result means it was cancelled and already answered.
    pub fn finish_request(&mut self, id: u64) -> (was: bool)
        requires
            old(self).wf(),
        ensures
            final(self).wf(),
            (final(self)@, was) == spec_finish_request(old(self)@, id),
    {
        match self.find_inflight(id) {
            Some(i) => {
                proof {
                    lemma_unique_inflight(self.inflight@, id, i as int);
                }
                let _ = self.inflight.remove(i);
                true
            },
            None => false,
        }
    }

    /// Handles the cancel notification: answers the cancelled request with
    /// `RequestCancelled` if it is still in flight, and otherwise does
    /// nothing at all.
    pub fn on_cancel(&mut self, id: u64) -> (r: Option<Response>)
        requires
            old(self).wf(),
        ensures
            final(self).wf(),
            (final(self)@, r) == spec_cancel(old(self)@, id),
    {
        match self.find_inflight(id) {
            Some(i) => {
                proof {
                    lemma_unique_inflight(self.inflight@, id, i as int);
                }
                let _ = self.inflight.remove(i);
                Some(Response { id, result: Err(ErrorCode::RequestCancelled) })
            },
            None => None,
        }
    }

    /// Routes one decoded message: the single entry point a transport loop
    /// needs. Requests always produce exactly one response; notifications
    /// never produce one, except that a cancel answers the request it
    /// cancels.
    pub fn handle(&mut self, msg: Incoming) -> (a: Action)
        requires
            old(self).wf(),
        ensures
            final(self).wf(),
            (final(self)@, a) == spec_step(old(self)@, msg),
    {
        let Incoming { id, method, params } = msg;
        let h = classify(method.as_str());
        match id {
            Some(rid) => match h {
                Handler::Initialize => match self.on_initialize() {
                    Ok(c) => Action::Respond(
                        Response { id: rid, result: Ok(Reply::Capabilities(c)) },
                    ),
                    Err(e) => Action::Respond(Response { id: rid, result: Err(e) }),
                },
                Handler::Shutdown => match self.on_shutdown() {
                    Ok(_) => Action::Respond(Response { id: rid, result: Ok(Reply::Empty) }),
                    Err(e) => Action::Respond(Response { id: rid, result: Err(e) }),
                },
                Handler::Stub => match self.phase {
                    Phase::Running => Action::Respond(
                        Response { id: rid, result: Err(ErrorCode::MethodNotFound) },
                    ),
                    _ => Action::Respond(
                        Response { id: rid, result: Err(ErrorCode::InvalidRequest) },
                    ),
                },
                Handler::NotInTable => match self.phase {
                    Phase::Running => Action::Respond(
                        Response { id: rid, result: Err(ErrorCode::MethodNotFound) },
                    ),
                    _ => Action::Respond(
                        Response { id: rid, result: Err(ErrorCode::InvalidRequest) },
                    ),
                },
                _ => Action::Respond(Response { id: rid, result: Err(ErrorCode::InvalidRequest) }),
            },
            None => match h {
                Handler::Initialized => {
                    self.on_initialized();
                    Action::Done
                },
                Handler::Exit => {
                    let code = self.on_exit();
                    Action::Exit(code)
                },
                Handler::DidOpen => match params {
                    Params::Open { uri, version, text } => {
                        let _ = self.on_did_open(uri, version, text);
                        Action::Done
                    },
                    _ => Action::Done,
                },
                Handler::DidChange => match params {
                    Params::Change { uri, version, change } => {
                        let _ = self.on_did_change(uri.as_str(), version, change);
                        Action::Done
                    },
                    _ => Action::Done,
                },
                Handler::DidClose => match params {
                    Params::Doc { uri } => {
                        let _ = self.on_did_close(uri.as_str());
                        Action::Done
                    },
                    _ => Action::Done,
                },
                Handler::Cancel => match params {
                    Params::Cancel { id } => match self.on_cancel(id) {
                        Some(r) => Action::Respond(r),
                        None => Action::Done,
                    },
                    _ => Action::Done,
                },
                _ => Action::Done,
            },
        }
    }
}

} // verus!
