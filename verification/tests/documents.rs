//! Document store behaviour: open, change, close, and the errors that
//! leave the store untouched.

use lsp_core::Action;
use lsp_core::ChangeSet;
use lsp_core::DocError;
use lsp_core::Edit;
use lsp_core::Incoming;
use lsp_core::NotifyError;
use lsp_core::Params;
use lsp_core::Session;

fn running_session() -> Session {
    let mut s = Session::new();
    let _ = s.handle(Incoming {
        id: Some(1),
        method: String::from("initialize"),
        params: Params::Absent,
    });
    let _ = s.handle(Incoming {
        id: None,
        method: String::from("initialized"),
        params: Params::Absent,
    });
    s
}

fn edit(start: usize, end: usize, text: &str) -> Edit {
    Edit { start, end, text: text.as_bytes().to_vec() }
}

#[test]
fn open_change_close_scenario() {
    let mut s = running_session();
    let uri = "file:///a.txt";
    assert_eq!(s.on_did_open(String::from(uri), 1, b"hello".to_vec()), Ok(()));
    {
        let d = s.get_doc(uri).unwrap();
        assert_eq!(d.version, 1);
        assert_eq!(d.content, b"hello".to_vec());
    }
    assert_eq!(
        s.on_did_change(uri, 2, ChangeSet::Incremental(vec![edit(0, 5, "HELLO")])),
        Ok(())
    );
    {
        let d = s.get_doc(uri).unwrap();
        assert_eq!(d.version, 2);
        assert_eq!(d.content, b"HELLO".to_vec());
    }
    assert_eq!(s.on_did_close(uri), Ok(()));
    assert_eq!(
        s.on_did_change(uri, 3, ChangeSet::Incremental(vec![edit(0, 0, "x")])),
        Err(NotifyError::Doc(DocError::UnknownDocument))
    );
    assert_eq!(s.get_doc(uri).err(), Some(DocError::UnknownDocument));
}

#[test]
fn duplicate_open_fails_and_keeps_first_state() {
    let mut s = running_session();
    let uri = "file:///dup.txt";
    assert_eq!(s.on_did_open(String::from(uri), 1, b"first".to_vec()), Ok(()));
    assert_eq!(
        s.on_did_open(String::from(uri), 9, b"second".to_vec()),
        Err(NotifyError::Doc(DocError::DuplicateDocument))
    );
    let d = s.get_doc(uri).unwrap();
    assert_eq!(d.version, 1);
    assert_eq!(d.content, b"first".to_vec());
}

#[test]
fn stale_version_rejected_and_content_unchanged() {
    let mut s = running_session();
    let uri = "file:///stale.txt";
    let _ = s.on_did_open(String::from(uri), 5, b"body".to_vec());
    // Equal version is stale.
    assert_eq!(
        s.on_did_change(uri, 5, ChangeSet::Full(b"new".to_vec())),
        Err(NotifyError::Doc(DocError::StaleVersion))
    );
    // A smaller version is stale too.
    assert_eq!(
        s.on_did_change(uri, 4, ChangeSet::Incremental(vec![edit(0, 4, "x")])),
        Err(NotifyError::Doc(DocError::StaleVersion))
    );
    let d = s.get_doc(uri).unwrap();
    assert_eq!(d.version, 5);
    assert_eq!(d.content, b"body".to_vec());
}

#[test]
fn invalid_range_rejects_whole_batch() {
    let mut s = running_session();
    let uri = "file:///range.txt";
    let _ = s.on_did_open(String::from(uri), 1, b"abc".to_vec());
    // The first edit is fine, the second one reaches past the buffer: the
    // batch must be a no-op as a whole.
    let batch = vec![edit(0, 1, "Z"), edit(2, 9, "y")];
    assert_eq!(
        s.on_did_change(uri, 2, ChangeSet::Incremental(batch)),
        Err(NotifyError::Doc(DocError::InvalidRange))
    );
    let d = s.get_doc(uri).unwrap();
    assert_eq!(d.version, 1);
    assert_eq!(d.content, b"abc".to_vec());
    // A start beyond the end of the range is invalid as well.
    let backwards = vec![Edit { start: 2, end: 1, text: vec![] }];
    assert_eq!(
        s.on_did_change(uri, 2, ChangeSet::Incremental(backwards)),
        Err(NotifyError::Doc(DocError::InvalidRange))
    );
}

#[test]
fn incremental_batch_equals_full_replacement() {
    let mut a = running_session();
    let mut b = running_session();
    let uri = "file:///equiv.txt";
    let _ = a.on_did_open(String::from(uri), 1, b"abcdef".to_vec());
    let _ = b.on_did_open(String::from(uri), 1, b"abcdef".to_vec());
    // Ranges of later edits are against the buffer after earlier edits:
    // "abcdef" -> "Xdef" -> "XYZef".
    let batch = vec![edit(0, 3, "X"), edit(1, 2, "YZ")];
    assert_eq!(a.on_did_change(uri, 2, ChangeSet::Incremental(batch)), Ok(()));
    assert_eq!(a.get_doc(uri).unwrap().content, b"XYZef".to_vec());
    assert_eq!(b.on_did_change(uri, 2, ChangeSet::Full(b"XYZef".to_vec())), Ok(()));
    assert_eq!(
        a.get_doc(uri).unwrap().content,
        b.get_doc(uri).unwrap().content
    );
    assert_eq!(a.get_doc(uri).unwrap().version, b.get_doc(uri).unwrap().version);
}

#[test]
fn empty_batch_bumps_version_only() {
    let mut s = running_session();
    let uri = "file:///empty.txt";
    let _ = s.on_did_open(String::from(uri), 1, b"keep".to_vec());
    assert_eq!(s.on_did_change(uri, 2, ChangeSet::Incremental(vec![])), Ok(()));
    let d = s.get_doc(uri).unwrap();
    assert_eq!(d.version, 2);
    assert_eq!(d.content, b"keep".to_vec());
}

#[test]
fn edits_at_the_buffer_edges() {
    let mut s = running_session();
    let uri = "file:///edges.txt";
    let _ = s.on_did_open(String::from(uri), 1, b"mid".to_vec());
    // Insert at the very start, then append at the very end of the grown
    // buffer, then delete everything.
    let batch = vec![edit(0, 0, ">>"), edit(5, 5, "<<")];
    assert_eq!(s.on_did_change(uri, 2, ChangeSet::Incremental(batch)), Ok(()));
    assert_eq!(s.get_doc(uri).unwrap().content, b">>mid<<".to_vec());
    assert_eq!(
        s.on_did_change(uri, 3, ChangeSet::Incremental(vec![edit(0, 7, "")])),
        Ok(())
    );
    assert_eq!(s.get_doc(uri).unwrap().content, b"".to_vec());
}

#[test]
fn open_documents_are_independent() {
    let mut s = running_session();
    let _ = s.on_did_open(String::from("file:///one"), 1, b"one".to_vec());
    let _ = s.on_did_open(String::from("file:///two"), 1, b"two".to_vec());
    assert_eq!(
        s.on_did_change("file:///one", 2, ChangeSet::Full(b"ONE".to_vec())),
        Ok(())
    );
    assert_eq!(s.get_doc("file:///one").unwrap().content, b"ONE".to_vec());
    assert_eq!(s.get_doc("file:///two").unwrap().content, b"two".to_vec());
    assert_eq!(s.on_did_close("file:///one"), Ok(()));
    assert_eq!(s.get_doc("file:///two").unwrap().content, b"two".to_vec());
    assert!(s.get_doc("file:///one").is_err());
}

#[test]
fn close_then_reopen_starts_fresh() {
    let mut s = running_session();
    let uri = "file:///fresh.txt";
    let _ = s.on_did_open(String::from(uri), 7, b"old state".to_vec());
    let _ = s.on_did_close(uri);
    assert_eq!(s.on_did_open(String::from(uri), 1, b"new".to_vec()), Ok(()));
    let d = s.get_doc(uri).unwrap();
    assert_eq!(d.version, 1);
    assert_eq!(d.content, b"new".to_vec());
}

#[test]
fn close_unknown_document_fails() {
    let mut s = running_session();
    assert_eq!(
        s.on_did_close("file:///never-opened"),
        Err(NotifyError::Doc(DocError::UnknownDocument))
    );
}

#[test]
fn sync_notifications_need_running_phase() {
    let mut s = Session::new();
    assert_eq!(
        s.on_did_open(String::from("file:///early"), 1, b"x".to_vec()),
        Err(NotifyError::NotRunning)
    );
    let _ = s.handle(Incoming {
        id: Some(1),
        method: String::from("initialize"),
        params: Params::Absent,
    });
    assert_eq!(
        s.on_did_change("file:///early", 2, ChangeSet::Full(vec![])),
        Err(NotifyError::NotRunning)
    );
    assert_eq!(s.on_did_close("file:///early"), Err(NotifyError::NotRunning));
}

#[test]
fn did_open_notification_through_dispatch() {
    let mut s = running_session();
    let a = s.handle(Incoming {
        id: None,
        method: String::from("textDocument/didOpen"),
        params: Params::Open { uri: String::from("file:///d.txt"), version: 1, text: b"via dispatch".to_vec() },
    });
    assert_eq!(a, Action::Done);
    assert_eq!(s.get_doc("file:///d.txt").unwrap().content, b"via dispatch".to_vec());
    let a = s.handle(Incoming {
        id: None,
        method: String::from("textDocument/didChange"),
        params: Params::Change {
            uri: String::from("file:///d.txt"),
            version: 2,
            change: ChangeSet::Incremental(vec![edit(0, 3, "by")]),
        },
    });
    assert_eq!(a, Action::Done);
    assert_eq!(s.get_doc("file:///d.txt").unwrap().content, b"by dispatch".to_vec());
    let a = s.handle(Incoming {
        id: None,
        method: String::from("textDocument/didClose"),
        params: Params::Doc { uri: String::from("file:///d.txt") },
    });
    assert_eq!(a, Action::Done);
    assert!(s.get_doc("file:///d.txt").is_err());
}
