//! The document store: a mapping from URI to tracked document state,
//! mutated exclusively by the synchronization operations. A failed
//! operation is always a no-op on the store, and no operation may
//! observe a document whose version has decreased.

use vstd::map::*;
use vstd::prelude::*;

use crate::edit::apply_edits;
use crate::edit::apply_edits_spec;
use crate::edit::Edit;
use crate::error::DocError;
use crate::text::str_eq;

verus! {

/// How changes to a document's content are represented on the wire.
#[derive(Clone, Copy, Debug, PartialEq, Eq, Structural)]
pub enum SyncKind {
    /// Every change carries the whole new content.
    Full,
    /// Changes carry ordered (range, replacement text) edits.
    Incremental,
}

/// One tracked document.
pub struct Document {
    /// The unique key under which the document is tracked.
    pub uri: String,
    /// Monotonically increasing; bumped by every content change.
    pub version: u64,
    /// The text buffer, as UTF-8 bytes.
    pub content: Vec<u8>,
    /// The synchronization representation negotiated for this document.
    pub sync_kind: SyncKind,
}

/// Mathematical image of one tracked document.
pub ghost struct DocView {
    pub version: u64,
    pub content: Seq<u8>,
    pub sync: SyncKind,
}

impl View for Document {
    type V = DocView;

    open spec fn view(&self) -> DocView {
        DocView { version: self.version, content: self.content@, sync: self.sync_kind }
    }
}

/// The content carried by one change notification.
pub enum ChangeSet {
    /// Replace the whole buffer.
    Full(Vec<u8>),
    /// Apply these edits strictly in list order.
    Incremental(Vec<Edit>),
}

/// The buffer a change produces from `content`, or `None` when an
/// incremental edit's range does not fit.
pub open spec fn change_result(content: Seq<u8>, change: ChangeSet) -> Option<Seq<u8>> {
    match change {
        ChangeSet::Full(text) => Some(text@),
        ChangeSet::Incremental(edits) => apply_edits_spec(content, edits@),
    }
}

/// The store. Viewed as a map from URI (as a character sequence) to the
/// document's state.
pub struct DocStore {
    docs: Vec<Document>,
}

spec fn seq_wf(docs: Seq<Document>) -> bool {
    forall|i: int, j: int|
        0 <= i < j < docs.len() ==> docs[i].uri@ != docs[j].uri@
}

spec fn seq_tracks(docs: Seq<Document>, u: Seq<char>) -> bool {
    exists|i: int| 0 <= i < docs.len() && docs[i].uri@ == u
}

spec fn seq_index_of(docs: Seq<Document>, u: Seq<char>) -> int {
    choose|i: int| 0 <= i < docs.len() && docs[i].uri@ == u
}

spec fn seq_map(docs: Seq<Document>) -> Map<Seq<char>, DocView> {
    Map::new(|u: Seq<char>| seq_tracks(docs, u), |u: Seq<char>| docs[seq_index_of(docs, u)]@)
}

/// In a well-formed store the tracking index of a URI is the only index
/// holding that URI.
proof fn lemma_unique_index(docs: Seq<Document>, u: Seq<char>, i: int)
    requires
        seq_wf(docs),
        0 <= i < docs.len(),
        docs[i].uri@ == u,
    ensures
        seq_tracks(docs, u),
        seq_index_of(docs, u) == i,
{
    assert(seq_tracks(docs, u));
    let j = seq_index_of(docs, u);
    assert(0 <= j < docs.len() && docs[j].uri@ == u);
    if i < j {
        assert(docs[i].uri@ != docs[j].uri@);
    } else if j < i {
        assert(docs[j].uri@ != docs[i].uri@);
    }
}

/// Appending a document with a fresh URI inserts exactly one map entry.
proof fn lemma_push(docs: Seq<Document>, d: Document)
    requires
        seq_wf(docs),
        !seq_tracks(docs, d.uri@),
    ensures
        seq_wf(docs.push(d)),
        seq_map(docs.push(d)) == seq_map(docs).insert(d.uri@, d@),
{
    let docs2 = docs.push(d);
    assert forall|i: int, j: int| 0 <= i < j < docs2.len() implies docs2[i].uri@
        != docs2[j].uri@ by {
        if j < docs.len() {
            assert(docs[i].uri@ != docs[j].uri@);
        } else {
            if docs2[i].uri@ == d.uri@ {
                assert(seq_tracks(docs, d.uri@));
            }
        }
    }
    assert forall|u: Seq<char>| #![auto] seq_tracks(docs2, u) == (seq_tracks(docs, u) || u
        == d.uri@) by {
        if seq_tracks(docs2, u) {
            let i = choose|i: int| 0 <= i < docs2.len() && docs2[i].uri@ == u;
            if i < docs.len() {
                assert(seq_tracks(docs, u));
            }
        }
        if seq_tracks(docs, u) {
            let i = choose|i: int| 0 <= i < docs.len() && docs[i].uri@ == u;
            assert(docs2[i].uri@ == u);
        }
        if u == d.uri@ {
            assert(docs2[docs.len() as int].uri@ == u);
        }
    }
    assert forall|u: Seq<char>| #![auto] seq_tracks(docs2, u) implies docs2[seq_index_of(docs2, u)]@
        == seq_map(docs).insert(d.uri@, d@)[u] by {
        if u == d.uri@ {
            lemma_unique_index(docs2, u, docs.len() as int);
        } else {
            let i = choose|i: int| 0 <= i < docs.len() && docs[i].uri@ == u;
            lemma_unique_index(docs, u, i);
            lemma_unique_index(docs2, u, i);
        }
    }
    assert(seq_map(docs2) =~= seq_map(docs).insert(d.uri@, d@));
}

/// Removing the document at a tracking index removes exactly its map entry.
proof fn lemma_remove(docs: Seq<Document>, i: int)
    requires
        seq_wf(docs),
        0 <= i < docs.len(),
    ensures
        seq_wf(docs.remove(i)),
        seq_map(docs.remove(i)) == seq_map(docs).remove(docs[i].uri@),
{
    let docs2 = docs.remove(i);
    let u0 = docs[i].uri@;
    assert forall|p: int, q: int| 0 <= p < q < docs2.len() implies docs2[p].uri@
        != docs2[q].uri@ by {
        let p0: int = if p < i {
            p
        } else {
            p + 1
        };
        let q0: int = if q < i {
            q
        } else {
            q + 1
        };
        assert(docs2[p] == docs[p0]);
        assert(docs2[q] == docs[q0]);
        assert(docs[p0].uri@ != docs[q0].uri@);
    }
    assert forall|u: Seq<char>| #![auto] seq_tracks(docs2, u) == (seq_tracks(docs, u) && u
        != u0) by {
        if seq_tracks(docs2, u) {
            let p = choose|p: int| 0 <= p < docs2.len() && docs2[p].uri@ == u;
            let p0: int = if p < i {
                p
            } else {
                p + 1
            };
            assert(docs2[p] == docs[p0]);
            assert(seq_tracks(docs, u));
            if u == u0 {
                lemma_unique_index(docs, u, p0);
                lemma_unique_index(docs, u, i);
            }
        }
        if seq_tracks(docs, u) && u != u0 {
            let p = choose|p: int| 0 <= p < docs.len() && docs[p].uri@ == u;
            if p < i {
                assert(docs2[p] == docs[p]);
                assert(seq_tracks(docs2, u));
            } else {
                assert(docs2[p - 1] == docs[p]);
                assert(seq_tracks(docs2, u));
            }
        }
    }
    assert forall|u: Seq<char>| #![auto] seq_tracks(docs2, u) implies docs2[seq_index_of(docs2, u)]@
        == seq_map(docs)[u] by {
        let p = seq_index_of(docs2, u);
        assert(0 <= p < docs2.len() && docs2[p].uri@ == u);
        let p0: int = if p < i {
            p
        } else {
            p + 1
        };
        assert(docs2[p] == docs[p0]);
        lemma_unique_index(docs, u, p0);
        lemma_unique_index(docs2, u, p);
    }
    assert(seq_map(docs2) =~= seq_map(docs).remove(u0));
}

impl DocStore {
    /// The store's internal invariant: no URI is tracked twice.
    pub closed spec fn wf(self) -> bool {
        seq_wf(self.docs@)
    }

    /// An empty store.
    pub fn new() -> (s: DocStore)
        ensures
            s.wf(),
            s@ == Map::<Seq<char>, DocView>::empty(),
    {
        let s = DocStore { docs: Vec::new() };
        proof {
            assert(s@ =~= Map::<Seq<char>, DocView>::empty());
        }
        s
    }

    /// The tracking index of `uri`, if it is tracked.
    fn find(&self, uri: &str) -> (r: Option<usize>)
        ensures
            match r {
                Some(i) => i < self.docs@.len() && self.docs@[i as int].uri@ == uri@,
                None => !seq_tracks(self.docs@, uri@),
            },
    {
        let mut i: usize = 0;
        while i < self.docs.len()
            invariant
                i <= self.docs@.len(),
                forall|j: int| 0 <= j < i ==> self.docs@[j].uri@ != uri@,
            decreases self.docs@.len() - i,
        {
            if str_eq(self.docs[i].uri.as_str(), uri) {
                return Some(i);
            }
            i = i + 1;
        }
        None
    }

    /// Read-only lookup: the tracked document under `uri`, or
    /// `UnknownDocument`.
    pub fn get(&self, uri: &str) -> (r: Result<&Document, DocError>)
        requires
            self.wf(),
        ensures
            match r {
                Ok(d) => self@.contains_key(uri@) && d@ == self@[uri@] && d.uri@ == uri@,
                Err(e) => e == DocError::UnknownDocument && !self@.contains_key(uri@),
            },
    {
        match self.find(uri) {
            Some(i) => {
                proof {
                    lemma_unique_index(self.docs@, uri@, i as int);
                }
                Ok(&self.docs[i])
            },
            None => Err(DocError::UnknownDocument),
        }
    }

    /// Begins tracking `uri`, or fails with `DuplicateDocument` if it is
    /// already tracked; a failure changes nothing.
    pub fn open_doc(&mut self, uri: String, version: u64, content: Vec<u8>, sync_kind: SyncKind)
        -> (r: Result<(), DocError>)
        requires
            old(self).wf(),
        ensures
            final(self).wf(),
            match r {
                Ok(()) => !old(self)@.contains_key(uri@) && final(self)@ == old(self)@.insert(
                    uri@,
                    DocView { version, content: content@, sync: sync_kind },
                ),
                Err(e) => e == DocError::DuplicateDocument && old(self)@.contains_key(uri@)
                    && final(self)@ == old(self)@,
            },
    {
        match self.find(uri.as_str()) {
            Some(i) => {
                proof {
                    lemma_unique_index(self.docs@, uri@, i as int);
                }
                Err(DocError::DuplicateDocument)
            },
            None => {
                let d = Document { uri, version, content, sync_kind };
                proof {
                    lemma_push(self.docs@, d);
                }
                self.docs.push(d);
                Ok(())
            },
        }
    }

    /// Applies one change notification to the tracked document under `uri`.
    ///
    /// Fails with `UnknownDocument` if the URI is not tracked, with
    /// `StaleVersion` if `version` is not above the tracked version, and
    /// with `InvalidRange` if an incremental edit does not fit the buffer
    /// it meets; every failure changes nothing.
    pub fn apply_change(&mut self, uri: &str, version: u64, change: ChangeSet) -> (r: Result<
        (),
        DocError,
    >)
        requires
            old(self).wf(),
        ensures
            final(self).wf(),
            match r {
                Ok(()) => old(self)@.contains_key(uri@)
                    && version > old(self)@[uri@].version
                    && (change_result(old(self)@[uri@].content, change) matches Some(c)
                        && final(self)@ == old(self)@.insert(
                            uri@,
                            DocView { version, content: c, sync: old(self)@[uri@].sync },
                        )),
                Err(e) => final(self)@ == old(self)@ && match e {
                    DocError::UnknownDocument => !old(self)@.contains_key(uri@),
                    DocError::StaleVersion => old(self)@.contains_key(uri@)
                        && version <= old(self)@[uri@].version,
                    DocError::InvalidRange => old(self)@.contains_key(uri@)
                        && version > old(self)@[uri@].version
                        && change_result(old(self)@[uri@].content, change) is None,
                    _ => false,
                },
            },
    {
        let i = match self.find(uri) {
            Some(i) => i,
            None => {
                return Err(DocError::UnknownDocument);
            },
        };
        proof {
            lemma_unique_index(self.docs@, uri@, i as int);
        }
        if version <= self.docs[i].version {
            return Err(DocError::StaleVersion);
        }
        let new_content: Vec<u8> = match &change {
            ChangeSet::Full(text) => text.clone(),
            ChangeSet::Incremental(edits) => {
                match apply_edits(&self.docs[i].content, edits) {
                    Ok(c) => c,
                    Err(e) => {
                        return Err(e);
                    },
                }
            },
        };
        proof {
            lemma_remove(self.docs@, i as int);
        }
        let d = self.docs.remove(i);
        let d2 = Document {
            uri: d.uri,
            version,
            content: new_content,
            sync_kind: d.sync_kind,
        };
        proof {
            if seq_tracks(self.docs@, d2.uri@) {
                let p = choose|p: int|
                    0 <= p < self.docs@.len() && self.docs@[p].uri@ == d2.uri@;
                assert(seq_map(self.docs@).contains_key(d2.uri@));
            }
            lemma_push(self.docs@, d2);
        }
        self.docs.push(d2);
        proof {
            assert(final(self)@ =~= old(self)@.insert(
                uri@,
                DocView { version, content: new_content@, sync: old(self)@[uri@].sync },
            ));
        }
        Ok(())
    }

    /// Stops tracking `uri`, or fails with `UnknownDocument`; no prior
    /// state survives a close.
    pub fn close_doc(&mut self, uri: &str) -> (r: Result<(), DocError>)
        requires
            old(self).wf(),
        ensures
            final(self).wf(),
            match r {
                Ok(()) => old(self)@.contains_key(uri@) && final(self)@ == old(self)@.remove(uri@),
                Err(e) => e == DocError::UnknownDocument && !old(self)@.contains_key(uri@)
                    && final(self)@ == old(self)@,
            },
    {
        match self.find(uri) {
            Some(i) => {
                proof {
                    lemma_unique_index(self.docs@, uri@, i as int);
                    lemma_remove(self.docs@, i as int);
                }
                let _ = self.docs.remove(i);
                Ok(())
            },
            None => Err(DocError::UnknownDocument),
        }
    }
}

impl View for DocStore {
    type V = Map<Seq<char>, DocView>;

    closed spec fn view(&self) -> Map<Seq<char>, DocView> {
        seq_map(self.docs@)
    }
}

} // verus!
