//! The documents open in the editor, and when their changes are saved.

use vstd::prelude::*;

verus! {

/// A JSON value of serde_json, carried through opaque.
#[verifier::external_type_specification]
#[verifier::external_body]
pub struct ExJsonValue(serde_json::Value);

/// A document's identifier and title.
pub struct PartialDocument {
    pub uid: i32,
    pub title: String,
}

/// An open document: its blocks as JSON values, and the handle of the view
/// that renders it once one exists.
pub struct Document<R> {
    pub uid: i32,
    pub title: String,
    pub nodes: Vec<serde_json::Value>,
    pub renderer: Option<R>,
}

impl<R: Clone> Clone for Document<R> {
    fn clone(&self) -> (r: Self)
        ensures
            r.uid == self.uid,
            r.title == self.title,
            r.nodes@.len() == self.nodes@.len(),
    {
        Document {
            uid: self.uid,
            title: self.title.clone(),
            nodes: self.nodes.clone(),
            renderer: self.renderer.clone(),
        }
    }
}

/// Whether changes wait to be saved.
#[derive(Clone, Copy, Debug, PartialEq, Eq, Structural)]
pub enum PersistenceState {
    Pending,
    Idle,
}

/// The open documents, the one shown, and the state of saving. Times are
/// ticks of a monotonic clock.
pub struct DocumentState<R> {
    pub opened_document_ids: Vec<i32>,
    pub documents: Vec<Document<R>>,
    pub current_opened_document: Option<i32>,
    pub persistence: PersistenceState,
    pub last_change: Option<u64>,
    pub pending_notification: bool,
}

/// The identifiers of the documents, in order.
pub open spec fn uids<R>(docs: Seq<Document<R>>) -> Seq<i32> {
    docs.map_values(|d: Document<R>| d.uid)
}

/// The first position of `uid` in `ids`, if any.
pub open spec fn first_index(ids: Seq<i32>, uid: i32) -> Option<int> {
    if exists|i: int| 0 <= i < ids.len() && ids[i] == uid {
        Some(
            choose|i: int|
                0 <= i < ids.len() && ids[i] == uid && forall|j: int| 0 <= j < i ==> ids[j] != uid,
        )
    } else {
        None
    }
}

/// The documents of `docs` whose identifier is not `uid`, in order.
pub open spec fn without_uid<R>(docs: Seq<Document<R>>, uid: i32) -> Seq<Document<R>> {
    docs.filter(|d: Document<R>| d.uid != uid)
}

impl<R> DocumentState<R> {
    /// No document open, nothing pending.
    pub fn new() -> (r: Self)
        ensures
            r.opened_document_ids@.len() == 0,
            r.documents@.len() == 0,
            r.current_opened_document is None,
            r.persistence == PersistenceState::Idle,
            r.last_change is None,
            !r.pending_notification,
    {
        DocumentState {
            opened_document_ids: Vec::new(),
            documents: Vec::new(),
            current_opened_document: None,
            persistence: PersistenceState::Idle,
            last_change: None,
            pending_notification: false,
        }
    }

    /// The position of the first document with identifier `uid`.
    pub fn position_of(&self, uid: i32) -> (r: Option<usize>)
        ensures
            r matches Some(i) ==> first_index(uids(self.documents@), uid) == Some(i as int),
            r matches Some(i) ==> i < self.documents@.len() && self.documents@[i as int].uid == uid,
            r is None ==> first_index(uids(self.documents@), uid) is None,
    {
        let ghost ids = uids(self.documents@);
        let n = self.documents.len();
        let mut i: usize = 0;
        while i < n
            invariant
                i <= n,
                n == self.documents@.len(),
                ids == uids(self.documents@),
                forall|j: int| 0 <= j < i ==> ids[j] != uid,
            decreases n - i,
        {
            if self.documents[i].uid == uid {
                proof {
                    assert(ids[i as int] == uid);
                    let k = choose|k: int|
                        0 <= k < ids.len() && ids[k] == uid && forall|j: int|
                            0 <= j < k ==> ids[j] != uid;
                    assert(!(k < i) && !(k > i));
                }
                return Some(i);
            }
            i = i + 1;
        }
        None
    }

    /// The position of the document shown; with no document shown, that of
    /// the first document with identifier 0.
    pub fn get_current_document_index(&self) -> (r: Option<usize>)
        ensures
            r matches Some(i) ==> first_index(
                uids(self.documents@),
                self.current_opened_document.unwrap_or(0),
            ) == Some(i as int),
            r is None ==> first_index(
                uids(self.documents@),
                self.current_opened_document.unwrap_or(0),
            ) is None,
    {
        let uid = match self.current_opened_document {
            Some(id) => id,
            None => 0,
        };
        self.position_of(uid)
    }

    /// The position of the document before the first one with identifier
    /// `uid`; none when that one is first or absent.
    pub fn previous_document_index(&self, uid: i32) -> (r: Option<usize>)
        ensures
            r matches Some(i) ==> first_index(uids(self.documents@), uid) == Some(i + 1),
            r matches Some(i) ==> i + 1 < self.documents@.len(),
            r is None ==> match first_index(uids(self.documents@), uid) {
                Some(k) => k == 0,
                None => true,
            },
    {
        match self.position_of(uid) {
            Some(index) => if index > 0 {
                Some(index - 1)
            } else {
                None
            },
            None => None,
        }
    }

    /// Marks document `id` as opened again when it is already loaded.
    pub fn add_document(&mut self, id: i32)
        ensures
            first_index(uids(old(self).documents@), id) is Some ==> final(self).opened_document_ids@
                == old(self).opened_document_ids@.push(id),
            first_index(uids(old(self).documents@), id) is None ==> final(self).opened_document_ids@
                == old(self).opened_document_ids@,
            final(self).documents == old(self).documents,
            final(self).current_opened_document == old(self).current_opened_document,
            final(self).persistence == old(self).persistence,
            final(self).last_change == old(self).last_change,
            final(self).pending_notification == old(self).pending_notification,
    {
        if self.position_of(id).is_some() {
            self.opened_document_ids.push(id);
        }
    }

    /// Marks document `id` as opened again when loaded, and shows it.
    pub fn add_document_and_focus(&mut self, id: i32)
        ensures
            first_index(uids(old(self).documents@), id) is Some ==> final(self).opened_document_ids@
                == old(self).opened_document_ids@.push(id),
            first_index(uids(old(self).documents@), id) is None ==> final(self).opened_document_ids@
                == old(self).opened_document_ids@,
            final(self).documents == old(self).documents,
            final(self).current_opened_document == Some(id),
            final(self).persistence == old(self).persistence,
            final(self).last_change == old(self).last_change,
            final(self).pending_notification == old(self).pending_notification,
    {
        self.add_document(id);
        self.current_opened_document = Some(id);
    }

    /// Loads a document read from storage, unless one with its identifier
    /// is loaded already.
    pub fn add_persisted_document(&mut self, uid: i32, title: String, nodes: Vec<serde_json::Value>)
        ensures
            first_index(uids(old(self).documents@), uid) is None ==> final(self).documents@
                == old(self).documents@.push(
                Document { uid, title, nodes, renderer: None },
            ),
            first_index(uids(old(self).documents@), uid) is Some ==> final(self).documents
                == old(self).documents,
            final(self).opened_document_ids == old(self).opened_document_ids,
            final(self).current_opened_document == old(self).current_opened_document,
            final(self).persistence == old(self).persistence,
            final(self).last_change == old(self).last_change,
            final(self).pending_notification == old(self).pending_notification,
    {
        if self.position_of(uid).is_none() {
            self.documents.push(Document { uid, title, nodes, renderer: None });
        }
    }

    /// Unloads every document with identifier `uid`; the others keep their
    /// order.
    pub fn remove_document(&mut self, uid: i32)
        ensures
            final(self).documents@ == without_uid(old(self).documents@, uid),
            final(self).opened_document_ids == old(self).opened_document_ids,
            final(self).current_opened_document == old(self).current_opened_document,
            final(self).persistence == old(self).persistence,
            final(self).last_change == old(self).last_change,
            final(self).pending_notification == old(self).pending_notification,
    {
        let mut kept: Vec<Document<R>> = Vec::new();
        let mut rest: Vec<Document<R>> = Vec::new();
        std::mem::swap(&mut rest, &mut self.documents);
        let ghost all = rest@;
        let n = rest.len();
        // Take the documents from the back and keep them in reverse, then restore the order.
        let mut back: Vec<Document<R>> = Vec::new();
        let mut i: usize = 0;
        while i < n
            invariant
                i <= n,
                n == all.len(),
                rest@ == all.subrange(0, n - i),
                back@.len() == i,
                forall|j: int| 0 <= j < i ==> #[trigger] back@[j] == all[n - 1 - j],
            decreases n - i,
        {
            let d = rest.pop().unwrap();
            back.push(d);
            proof {
                assert(all.subrange(0, n - i).drop_last() =~= all.subrange(0, n - i - 1));
            }
            i = i + 1;
        }
        let mut k: usize = 0;
        while k < n
            invariant
                k <= n,
                n == all.len(),
                back@.len() == n - k,
                forall|j: int| 0 <= j < n - k ==> #[trigger] back@[j] == all[n - 1 - j],
                kept@ == without_uid(all.subrange(0, k as int), uid),
            decreases n - k,
        {
            let d = back.pop().unwrap();
            proof {
                assert(d == all[k as int]);
                assert(all.subrange(0, k + 1).drop_last() =~= all.subrange(0, k as int));
                reveal(Seq::filter);
            }
            if d.uid != uid {
                kept.push(d);
            }
            k = k + 1;
        }
        proof {
            assert(all.subrange(0, n as int) =~= all);
        }
        self.documents = kept;
    }

    /// Records a change at time `now`: saving becomes pending. Returns the
    /// identifier of the shown document when it is loaded: that document
    /// is to be saved once the change has settled.
    pub fn mark_changed(&mut self, now: u64) -> (r: Option<i32>)
        ensures
            final(self).persistence == PersistenceState::Pending,
            final(self).last_change == Some(now),
            r == match old(self).current_opened_document {
                Some(id) => if first_index(uids(old(self).documents@), id) is Some {
                    Some(id)
                } else {
                    None
                },
                None => None,
            },
            final(self).documents == old(self).documents,
            final(self).opened_document_ids == old(self).opened_document_ids,
            final(self).current_opened_document == old(self).current_opened_document,
            final(self).pending_notification == old(self).pending_notification,
    {
        self.persistence = PersistenceState::Pending;
        self.last_change = Some(now);
        match self.current_opened_document {
            Some(id) => if self.position_of(id).is_some() {
                Some(id)
            } else {
                None
            },
            None => None,
        }
    }

    /// Called when the delay after the change made at `trigger_time` has
    /// passed. When no later change came, saving is done and a notification
    /// is due; returns whether the document is to be written now.
    pub fn settle(&mut self, trigger_time: u64) -> (save: bool)
        ensures
            save == (old(self).last_change matches Some(last) && last <= trigger_time),
            (old(self).last_change matches Some(last) && last > trigger_time) ==> *final(self)
                == *old(self),
            !(old(self).last_change matches Some(last) && last > trigger_time) ==> (
            final(self).persistence == PersistenceState::Idle && final(self).pending_notification),
            final(self).documents == old(self).documents,
            final(self).opened_document_ids == old(self).opened_document_ids,
            final(self).current_opened_document == old(self).current_opened_document,
            final(self).last_change == old(self).last_change,
    {
        match self.last_change {
            Some(last) => {
                if last <= trigger_time {
                    self.persistence = PersistenceState::Idle;
                    self.pending_notification = true;
                    true
                } else {
                    false
                }
            },
            None => {
                self.persistence = PersistenceState::Idle;
                self.pending_notification = true;
                false
            },
        }
    }
}

impl<R: Clone> DocumentState<R> {
    /// A copy of the document before the first one with identifier `uid`.
    pub fn get_previous_document(&self, uid: i32) -> (r: Option<Document<R>>)
        ensures
            r is Some <==> (first_index(uids(self.documents@), uid) matches Some(k) && k > 0),
            r matches Some(d) ==> exists|k: int|
                first_index(uids(self.documents@), uid) == Some(k) && 1 <= k
                    < self.documents@.len() && d.uid == #[trigger] self.documents@[k - 1].uid
                    && d.title == self.documents@[k - 1].title,
    {
        match self.previous_document_index(uid) {
            Some(i) => {
                let d = self.documents[i].clone();
                proof {
                    assert(first_index(uids(self.documents@), uid) == Some(i + 1));
                    assert(d.uid == self.documents@[(i + 1) - 1].uid);
                }
                Some(d)
            },
            None => None,
        }
    }
}

impl<R> Default for DocumentState<R> {
    fn default() -> (r: Self)
        ensures
            r.opened_document_ids@.len() == 0,
            r.documents@.len() == 0,
            r.current_opened_document is None,
            r.persistence == PersistenceState::Idle,
            r.last_change is None,
            !r.pending_notification,
    {
        DocumentState::new()
    }
}

} // verus!
