//! Core of a Language Server Protocol endpoint: the lifecycle state machine,
//! the document store driven by synchronization notifications, and the
//! capability router that maps each method name to a handler or to a uniform
//! "method not found" error. Transport framing and JSON codecs live outside
//! this crate; the core works on already-decoded messages.

mod edit;
mod error;
mod laws;
mod router;
mod session;
mod store;
mod text;

pub use edit::position_to_offset;
pub use edit::resolve_pos_edits;
pub use edit::Edit;
pub use edit::PosEdit;
pub use error::DocError;
pub use error::ErrorCode;
pub use router::classify;
pub use router::default_caps;
pub use router::Handler;
pub use router::ServerCaps;
pub use session::Action;
pub use session::Incoming;
pub use session::NotifyError;
pub use session::Params;
pub use session::Phase;
pub use session::Reply;
pub use session::Response;
pub use session::Session;
pub use store::ChangeSet;
pub use store::DocStore;
pub use store::Document;
pub use store::SyncKind;
