//! The capability router: a static table from method name to handler.
//!
//! A method absent from the table and a method present but unimplemented
//! are indistinguishable at the wire level: both answer a request with
//! `MethodNotFound` and both let a notification drop, so the server can
//! grow real handlers without changing what clients observe. The
//! capabilities advertised at initialize reflect the implemented handler
//! set and nothing more.

use vstd::prelude::*;

use crate::store::SyncKind;
use crate::text::str_eq;

verus! {

/// The handler a method name routes to.
#[derive(Clone, Copy, Debug, PartialEq, Eq, Structural)]
pub enum Handler {
    /// The `initialize` request.
    Initialize,
    /// The `initialized` notification.
    Initialized,
    /// The `shutdown` request.
    Shutdown,
    /// The `exit` notification.
    Exit,
    /// The `textDocument/didOpen` notification.
    DidOpen,
    /// The `textDocument/didChange` notification.
    DidChange,
    /// The `textDocument/didClose` notification.
    DidClose,
    /// The cancel notification.
    Cancel,
    /// A known notification with no effect on tracked state; it is only
    /// recorded by the event sink.
    NotifyOnly,
    /// A known request this server declines to implement.
    Stub,
    /// A method name not in the table at all.
    NotInTable,
}

/// The capabilities this server advertises at initialize time. They mirror
/// the registered handler set exactly: document synchronization is the one
/// implemented capability.
#[derive(Clone, Copy, Debug, PartialEq, Eq, Structural)]
pub struct ServerCaps {
    /// Open and close notifications are tracked.
    pub open_close: bool,
    /// The change representation the server expects.
    pub change: SyncKind,
    /// Save notifications are accepted.
    pub save: bool,
}

/// The advertised capability set: exactly what the handler table implements.
pub open spec fn spec_default_caps() -> ServerCaps {
    ServerCaps { open_close: true, change: SyncKind::Incremental, save: true }
}

/// Builds the advertised capability set.
pub fn default_caps() -> (c: ServerCaps)
    ensures
        c == spec_default_caps(),
{
    ServerCaps { open_close: true, change: SyncKind::Incremental, save: true }
}

/// The known-but-unimplemented request methods: every navigation,
/// presentation, editing and workspace request the protocol defines and
/// this server declines.
pub open spec fn is_stub_method(m: Seq<char>) -> bool {
    ||| m == "textDocument/willSaveWaitUntil"@
    ||| m == "textDocument/declaration"@
    ||| m == "textDocument/definition"@
    ||| m == "textDocument/typeDefinition"@
    ||| m == "textDocument/implementation"@
    ||| m == "textDocument/references"@
    ||| m == "textDocument/prepareCallHierarchy"@
    ||| m == "callHierarchy/incomingCalls"@
    ||| m == "callHierarchy/outgoingCalls"@
    ||| m == "textDocument/prepareTypeHierarchy"@
    ||| m == "typeHierarchy/supertypes"@
    ||| m == "typeHierarchy/subtypes"@
    ||| m == "textDocument/documentHighlight"@
    ||| m == "textDocument/documentLink"@
    ||| m == "documentLink/resolve"@
    ||| m == "textDocument/hover"@
    ||| m == "textDocument/codeLens"@
    ||| m == "codeLens/resolve"@
    ||| m == "textDocument/foldingRange"@
    ||| m == "textDocument/selectionRange"@
    ||| m == "textDocument/documentSymbol"@
    ||| m == "textDocument/semanticTokens/full"@
    ||| m == "textDocument/semanticTokens/full/delta"@
    ||| m == "textDocument/semanticTokens/range"@
    ||| m == "textDocument/inlineValue"@
    ||| m == "textDocument/inlayHint"@
    ||| m == "inlayHint/resolve"@
    ||| m == "textDocument/moniker"@
    ||| m == "textDocument/completion"@
    ||| m == "completionItem/resolve"@
    ||| m == "textDocument/diagnostic"@
    ||| m == "workspace/diagnostic"@
    ||| m == "textDocument/signatureHelp"@
    ||| m == "textDocument/codeAction"@
    ||| m == "codeAction/resolve"@
    ||| m == "textDocument/documentColor"@
    ||| m == "textDocument/colorPresentation"@
    ||| m == "textDocument/formatting"@
    ||| m == "textDocument/rangeFormatting"@
    ||| m == "textDocument/onTypeFormatting"@
    ||| m == "textDocument/rename"@
    ||| m == "textDocument/prepareRename"@
    ||| m == "textDocument/linkedEditingRange"@
    ||| m == "workspace/symbol"@
    ||| m == "workspaceSymbol/resolve"@
    ||| m == "workspace/willCreateFiles"@
    ||| m == "workspace/willRenameFiles"@
    ||| m == "workspace/willDeleteFiles"@
    ||| m == "workspace/executeCommand"@
}

/// The known notifications that leave tracked state alone: saves and the
/// workspace event notifications.
pub open spec fn is_notify_only_method(m: Seq<char>) -> bool {
    ||| m == "textDocument/willSave"@
    ||| m == "textDocument/didSave"@
    ||| m == "workspace/didChangeConfiguration"@
    ||| m == "workspace/didChangeWorkspaceFolders"@
    ||| m == "workspace/didChangeWatchedFiles"@
    ||| m == "workspace/didCreateFiles"@
    ||| m == "workspace/didRenameFiles"@
    ||| m == "workspace/didDeleteFiles"@
}

/// The table lookup, as a function of the method name.
pub open spec fn spec_classify(m: Seq<char>) -> Handler {
    if m == "initialize"@ {
        Handler::Initialize
    } else if m == "initialized"@ {
        Handler::Initialized
    } else if m == "shutdown"@ {
        Handler::Shutdown
    } else if m == "exit"@ {
        Handler::Exit
    } else if m == "textDocument/didOpen"@ {
        Handler::DidOpen
    } else if m == "textDocument/didChange"@ {
        Handler::DidChange
    } else if m == "textDocument/didClose"@ {
        Handler::DidClose
    } else if m == "$/cancelRequest"@ {
        Handler::Cancel
    } else if is_notify_only_method(m) {
        Handler::NotifyOnly
    } else if is_stub_method(m) {
        Handler::Stub
    } else {
        Handler::NotInTable
    }
}

fn is_stub_navigation(m: &str) -> (b: bool)
    ensures
        b == (m@ == "textDocument/willSaveWaitUntil"@ || m@ == "textDocument/declaration"@ || m@
            == "textDocument/definition"@ || m@ == "textDocument/typeDefinition"@ || m@
            == "textDocument/implementation"@ || m@ == "textDocument/references"@ || m@
            == "textDocument/prepareCallHierarchy"@ || m@ == "callHierarchy/incomingCalls"@ || m@
            == "callHierarchy/outgoingCalls"@ || m@ == "textDocument/prepareTypeHierarchy"@ || m@
            == "typeHierarchy/supertypes"@ || m@ == "typeHierarchy/subtypes"@ || m@
            == "textDocument/documentHighlight"@ || m@ == "textDocument/documentLink"@ || m@
            == "documentLink/resolve"@ || m@ == "textDocument/hover"@),
{
    str_eq(m, "textDocument/willSaveWaitUntil") || str_eq(m, "textDocument/declaration") || str_eq(
        m,
        "textDocument/definition",
    ) || str_eq(m, "textDocument/typeDefinition") || str_eq(m, "textDocument/implementation")
        || str_eq(m, "textDocument/references") || str_eq(m, "textDocument/prepareCallHierarchy")
        || str_eq(m, "callHierarchy/incomingCalls") || str_eq(m, "callHierarchy/outgoingCalls")
        || str_eq(m, "textDocument/prepareTypeHierarchy") || str_eq(m, "typeHierarchy/supertypes")
        || str_eq(m, "typeHierarchy/subtypes") || str_eq(m, "textDocument/documentHighlight")
        || str_eq(m, "textDocument/documentLink") || str_eq(m, "documentLink/resolve") || str_eq(
        m,
        "textDocument/hover",
    )
}

fn is_stub_presentation(m: &str) -> (b: bool)
    ensures
        b == (m@ == "textDocument/codeLens"@ || m@ == "codeLens/resolve"@ || m@
            == "textDocument/foldingRange"@ || m@ == "textDocument/selectionRange"@ || m@
            == "textDocument/documentSymbol"@ || m@ == "textDocument/semanticTokens/full"@ || m@
            == "textDocument/semanticTokens/full/delta"@ || m@
            == "textDocument/semanticTokens/range"@ || m@ == "textDocument/inlineValue"@ || m@
            == "textDocument/inlayHint"@ || m@ == "inlayHint/resolve"@ || m@
            == "textDocument/moniker"@ || m@ == "textDocument/completion"@ || m@
            == "completionItem/resolve"@ || m@ == "textDocument/diagnostic"@ || m@
            == "workspace/diagnostic"@ || m@ == "textDocument/signatureHelp"@),
{
    str_eq(m, "textDocument/codeLens") || str_eq(m, "codeLens/resolve") || str_eq(
        m,
        "textDocument/foldingRange",
    ) || str_eq(m, "textDocument/selectionRange") || str_eq(m, "textDocument/documentSymbol")
        || str_eq(m, "textDocument/semanticTokens/full") || str_eq(
        m,
        "textDocument/semanticTokens/full/delta",
    ) || str_eq(m, "textDocument/semanticTokens/range") || str_eq(m, "textDocument/inlineValue")
        || str_eq(m, "textDocument/inlayHint") || str_eq(m, "inlayHint/resolve") || str_eq(
        m,
        "textDocument/moniker",
    ) || str_eq(m, "textDocument/completion") || str_eq(m, "completionItem/resolve") || str_eq(
        m,
        "textDocument/diagnostic",
    ) || str_eq(m, "workspace/diagnostic") || str_eq(m, "textDocument/signatureHelp")
}

fn is_stub_editing(m: &str) -> (b: bool)
    ensures
        b == (m@ == "textDocument/codeAction"@ || m@ == "codeAction/resolve"@ || m@
            == "textDocument/documentColor"@ || m@ == "textDocument/colorPresentation"@ || m@
            == "textDocument/formatting"@ || m@ == "textDocument/rangeFormatting"@ || m@
            == "textDocument/onTypeFormatting"@ || m@ == "textDocument/rename"@ || m@
            == "textDocument/prepareRename"@ || m@ == "textDocument/linkedEditingRange"@ || m@
            == "workspace/symbol"@ || m@ == "workspaceSymbol/resolve"@ || m@
            == "workspace/willCreateFiles"@ || m@ == "workspace/willRenameFiles"@ || m@
            == "workspace/willDeleteFiles"@ || m@ == "workspace/executeCommand"@),
{
    str_eq(m, "textDocument/codeAction") || str_eq(m, "codeAction/resolve") || str_eq(
        m,
        "textDocument/documentColor",
    ) || str_eq(m, "textDocument/colorPresentation") || str_eq(m, "textDocument/formatting")
        || str_eq(m, "textDocument/rangeFormatting") || str_eq(m, "textDocument/onTypeFormatting")
        || str_eq(m, "textDocument/rename") || str_eq(m, "textDocument/prepareRename") || str_eq(
        m,
        "textDocument/linkedEditingRange",
    ) || str_eq(m, "workspace/symbol") || str_eq(m, "workspaceSymbol/resolve") || str_eq(
        m,
        "workspace/willCreateFiles",
    ) || str_eq(m, "workspace/willRenameFiles") || str_eq(m, "workspace/willDeleteFiles") || str_eq(
        m,
        "workspace/executeCommand",
    )
}

fn is_stub(m: &str) -> (b: bool)
    ensures
        b == is_stub_method(m@),
{
    is_stub_navigation(m) || is_stub_presentation(m) || is_stub_editing(m)
}

fn is_notify_only(m: &str) -> (b: bool)
    ensures
        b == is_notify_only_method(m@),
{
    str_eq(m, "textDocument/willSave") || str_eq(m, "textDocument/didSave") || str_eq(
        m,
        "workspace/didChangeConfiguration",
    ) || str_eq(m, "workspace/didChangeWorkspaceFolders") || str_eq(
        m,
        "workspace/didChangeWatchedFiles",
    ) || str_eq(m, "workspace/didCreateFiles") || str_eq(m, "workspace/didRenameFiles") || str_eq(
        m,
        "workspace/didDeleteFiles",
    )
}

/// Looks a method name up in the capability table.
pub fn classify(m: &str) -> (h: Handler)
    ensures
        h == spec_classify(m@),
{
    if str_eq(m, "initialize") {
        Handler::Initialize
    } else if str_eq(m, "initialized") {
        Handler::Initialized
    } else if str_eq(m, "shutdown") {
        Handler::Shutdown
    } else if str_eq(m, "exit") {
        Handler::Exit
    } else if str_eq(m, "textDocument/didOpen") {
        Handler::DidOpen
    } else if str_eq(m, "textDocument/didChange") {
        Handler::DidChange
    } else if str_eq(m, "textDocument/didClose") {
        Handler::DidClose
    } else if str_eq(m, "$/cancelRequest") {
        Handler::Cancel
    } else if is_notify_only(m) {
        Handler::NotifyOnly
    } else if is_stub(m) {
        Handler::Stub
    } else {
        Handler::NotInTable
    }
}

} // verus!
