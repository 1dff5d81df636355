//! Typed errors of the protocol core.
//!
//! `ErrorCode` is the JSON-RPC error taxonomy surfaced to the client;
//! `DocError` is the document-store error taxonomy, surfaced to the
//! requester by the operation that failed and never corrupting the store.

use vstd::prelude::*;

verus! {

/// JSON-RPC error kinds this server can put in a response envelope.
#[derive(Clone, Copy, Debug, PartialEq, Eq, Structural)]
pub enum ErrorCode {
    /// Out-of-phase lifecycle call or malformed envelope.
    InvalidRequest,
    /// Unknown method, or known but unimplemented.
    MethodNotFound,
    /// Parameters do not match the method's schema.
    InvalidParams,
    /// A fault inside an implemented handler, caught at the router boundary.
    InternalError,
    /// The request was cancelled before the handler responded.
    RequestCancelled,
    /// The document changed while the request was being computed.
    ContentModified,
}

impl ErrorCode {
    /// The numeric wire code of this error, as JSON-RPC and the language
    /// server protocol assign them.
    pub open spec fn spec_wire_code(self) -> int {
        match self {
            ErrorCode::InvalidRequest => -32600,
            ErrorCode::MethodNotFound => -32601,
            ErrorCode::InvalidParams => -32602,
            ErrorCode::InternalError => -32603,
            ErrorCode::RequestCancelled => -32800,
            ErrorCode::ContentModified => -32801,
        }
    }

    /// Numeric wire code for the response envelope.
    pub fn wire_code(self) -> (c: i64)
        ensures
            c == self.spec_wire_code(),
    {
        match self {
            ErrorCode::InvalidRequest => -32600,
            ErrorCode::MethodNotFound => -32601,
            ErrorCode::InvalidParams => -32602,
            ErrorCode::InternalError => -32603,
            ErrorCode::RequestCancelled => -32800,
            ErrorCode::ContentModified => -32801,
        }
    }
}

/// Errors of the document store. A failed operation is a no-op on the store.
#[derive(Clone, Copy, Debug, PartialEq, Eq, Structural)]
pub enum DocError {
    /// `open` on a URI that is already tracked.
    DuplicateDocument,
    /// An operation on a URI that is not tracked.
    UnknownDocument,
    /// `apply_change` with a version not above the tracked one.
    StaleVersion,
    /// An incremental edit whose range does not fit the current buffer.
    InvalidRange,
}

} // verus!
