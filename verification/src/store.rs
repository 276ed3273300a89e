//! The document store: the single owner of every open document's text and of
//! the syntax tree or lexer failure last derived from that text.
//!
//! The store is modelled as a sequence of document images (`DocEntry`) with
//! pairwise distinct identifiers.  `open` appends, `change` replaces in
//! place, `close` removes; each operation's contract pins the new model down
//! exactly, and the lifecycle laws (idempotent close, replacement semantics
//! of change) are proved about the same model functions the contracts use.

use vstd::prelude::*;
use crate::syntax::{LexError, SyntaxNode, SyntaxTree};

verus! {

/// Mathematical image of one open document.
pub ghost struct DocEntry {
    pub id: Seq<char>,
    pub text: Seq<char>,
    pub tree: Option<Seq<SyntaxNode>>,
    pub err: Option<LexError>,
}

impl DocEntry {
    /// A parse outcome is stored whole: a tree after success, a failure
    /// report otherwise, never both and never neither.
    pub open spec fn wf(self) -> bool {
        self.tree is Some <==> self.err is None
    }
}

/// The state kept for one open document: its authoritative text and the
/// outcome of parsing exactly that text.
pub struct DocumentState {
    pub id: String,
    pub text: String,
    pub tree: Option<SyntaxTree>,
    pub last_error: Option<LexError>,
}

impl View for DocumentState {
    type V = DocEntry;

    open spec fn view(&self) -> DocEntry {
        DocEntry {
            id: self.id@,
            text: self.text@,
            tree: match self.tree {
                Some(t) => Some(t@),
                None => None,
            },
            err: self.last_error,
        }
    }
}

/// The parse outcome for a text, with the tree abstracted to its node
/// sequence.
pub open spec fn outcome_view(p: Result<SyntaxTree, LexError>) -> Result<Seq<SyntaxNode>, LexError> {
    match p {
        Ok(t) => Ok(t@),
        Err(e) => Err(e),
    }
}

/// The document image created for identifier `id` when parsing text `text`
/// ended in `parsed`.
pub open spec fn entry_of(id: Seq<char>, text: Seq<char>, parsed: Result<Seq<SyntaxNode>, LexError>) -> DocEntry {
    match parsed {
        Ok(t) => DocEntry { id, text, tree: Some(t), err: None },
        Err(e) => DocEntry { id, text, tree: None, err: Some(e) },
    }
}

impl DocumentState {
    /// Builds the state of a freshly (re)parsed document: a successful parse
    /// stores the tree and clears the error, a failed parse stores the error
    /// and clears the tree.
    pub fn new(id: String, text: String, parsed: Result<SyntaxTree, LexError>) -> (s: Self)
        ensures
            s@ == entry_of(id@, text@, outcome_view(parsed)),
            s@.wf(),
    {
        match parsed {
            Ok(t) => DocumentState { id, text, tree: Some(t), last_error: None },
            Err(e) => DocumentState { id, text, tree: None, last_error: Some(e) },
        }
    }
}

/// Some entry of `s` carries the identifier `id`.
pub open spec fn contains_id(s: Seq<DocEntry>, id: Seq<char>) -> bool {
    exists|i: int| 0 <= i < s.len() && s[i].id == id
}

/// An index of `s` whose entry carries the identifier `id`; under
/// `unique_ids` it is the only one.
pub open spec fn index_of_id(s: Seq<DocEntry>, id: Seq<char>) -> int {
    choose|i: int| 0 <= i < s.len() && s[i].id == id
}

/// The entry of `s` that carries the identifier `id`.
pub open spec fn lookup(s: Seq<DocEntry>, id: Seq<char>) -> DocEntry {
    s[index_of_id(s, id)]
}

/// No two entries of `s` carry the same identifier.
pub open spec fn unique_ids(s: Seq<DocEntry>) -> bool {
    forall|i: int, j: int| 0 <= i < j < s.len() ==> s[i].id != s[j].id
}

/// Every store the operations can produce satisfies this: identifiers are
/// unique and every entry stores its parse outcome whole.
pub open spec fn wf_store(s: Seq<DocEntry>) -> bool {
    &&& unique_ids(s)
    &&& forall|i: int| 0 <= i < s.len() ==> (#[trigger] s[i]).wf()
}

/// What `open` does to the model: appends the new image unless the
/// identifier is already present, in which case the store is untouched.
pub open spec fn open_model(s: Seq<DocEntry>, e: DocEntry) -> Seq<DocEntry> {
    if contains_id(s, e.id) {
        s
    } else {
        s.push(e)
    }
}

/// What `change` does to the model: replaces the identified image wholesale
/// unless the identifier is absent, in which case the store is untouched.
pub open spec fn change_model(s: Seq<DocEntry>, e: DocEntry) -> Seq<DocEntry> {
    if contains_id(s, e.id) {
        s.update(index_of_id(s, e.id), e)
    } else {
        s
    }
}

/// What `close` does to the model: removes the identified image; closing an
/// absent identifier leaves the store untouched.
pub open spec fn close_model(s: Seq<DocEntry>, id: Seq<char>) -> Seq<DocEntry> {
    if contains_id(s, id) {
        s.remove(index_of_id(s, id))
    } else {
        s
    }
}

/// Under unique identifiers, an index whose entry carries `id` is the index
/// `index_of_id` denotes.
pub proof fn lemma_index_of_unique(s: Seq<DocEntry>, id: Seq<char>, i: int)
    requires
        unique_ids(s),
        0 <= i < s.len(),
        s[i].id == id,
    ensures
        contains_id(s, id),
        index_of_id(s, id) == i,
{
    assert(contains_id(s, id));
    let j = index_of_id(s, id);
    assert(0 <= j < s.len() && s[j].id == id);
    if i < j {
        assert(s[i].id != s[j].id);
    } else if j < i {
        assert(s[j].id != s[i].id);
    }
}

/// A failed `open`/`change`/`close` error, surfaced to the caller as an
/// explicit rejection of the operation.
#[derive(Clone, Copy, PartialEq, Eq, Structural, Debug)]
pub enum StoreError {
    DuplicateDocument,
    UnknownDocument,
}

/// Owns all `DocumentState` entries of the session.
pub struct DocumentStore {
    docs: Vec<DocumentState>,
}

impl View for DocumentStore {
    type V = Seq<DocEntry>;

    closed spec fn view(&self) -> Seq<DocEntry> {
        self.docs@.map_values(|d: DocumentState| d@)
    }
}

impl DocumentStore {
    /// The store's invariant, established by `new` and kept by every
    /// operation.
    pub open spec fn wf(&self) -> bool {
        wf_store(self@)
    }

    /// Creates an empty store.
    pub fn new() -> (s: Self)
        ensures
            s.wf(),
            s@ == Seq::<DocEntry>::empty(),
    {
        let s = DocumentStore { docs: Vec::new() };
        proof {
            assert(s@ =~= Seq::<DocEntry>::empty());
        }
        s
    }

    /// The index of the entry holding `id`, if any; `None` exactly when `id`
    /// is not open.
    fn find(&self, id: &String) -> (r: Option<usize>)
        requires
            self.wf(),
        ensures
            r is None <==> !contains_id(self@, id@),
            r matches Some(i) ==> 0 <= i < self@.len() && self@[i as int].id == id@
                && index_of_id(self@, id@) == i,
    {
        let n = self.docs.len();
        let mut k: usize = 0;
        while k < n
            invariant
                self.wf(),
                n == self@.len(),
                k <= n,
                forall|j: int| 0 <= j < k ==> (#[trigger] self@[j]).id != id@,
            decreases n - k,
        {
            if self.docs[k].id == *id {
                proof {
                    lemma_index_of_unique(self@, id@, k as int);
                }
                return Some(k);
            }
            k = k + 1;
        }
        None
    }

    /// Opens the document `id` with text `text`, whose parse ended in
    /// `parsed`.  Rejected with `DuplicateDocument`, the store untouched, if
    /// `id` is already open.
    pub fn open(&mut self, id: String, text: String, parsed: Result<SyntaxTree, LexError>) -> (r: Result<(), StoreError>)
        requires
            old(self).wf(),
        ensures
            final(self).wf(),
            r is Ok <==> !contains_id(old(self)@, id@),
            r matches Err(e) ==> e == StoreError::DuplicateDocument,
            final(self)@ == open_model(old(self)@, entry_of(id@, text@, outcome_view(parsed))),
    {
        match self.find(&id) {
            Some(_) => Err(StoreError::DuplicateDocument),
            None => {
                let ghost prior = self@;
                let ghost entry = entry_of(id@, text@, outcome_view(parsed));
                self.docs.push(DocumentState::new(id, text, parsed));
                proof {
                    assert(self@ =~= prior.push(entry));
                    assert forall|i: int, j: int| 0 <= i < j < self@.len() implies self@[i].id != self@[j].id by {
                        if j == prior.len() {
                            assert(prior[i].id != entry.id);
                        }
                    }
                }
                Ok(())
            },
        }
    }

    /// Replaces the whole text of the open document `id` with `text`, whose
    /// parse ended in `parsed`; the previous text and tree or error are
    /// discarded.  Rejected with `UnknownDocument`, the store untouched, if
    /// `id` was never opened.
    pub fn change(&mut self, id: &String, text: String, parsed: Result<SyntaxTree, LexError>) -> (r: Result<(), StoreError>)
        requires
            old(self).wf(),
        ensures
            final(self).wf(),
            r is Ok <==> contains_id(old(self)@, id@),
            r matches Err(e) ==> e == StoreError::UnknownDocument,
            final(self)@ == change_model(old(self)@, entry_of(id@, text@, outcome_view(parsed))),
    {
        match self.find(id) {
            None => Err(StoreError::UnknownDocument),
            Some(k) => {
                let ghost prior = self@;
                let ghost entry = entry_of(id@, text@, outcome_view(parsed));
                self.docs.set(k, DocumentState::new(id.clone(), text, parsed));
                proof {
                    assert(self@ =~= prior.update(k as int, entry));
                    assert forall|i: int, j: int| 0 <= i < j < self@.len() implies self@[i].id != self@[j].id by {
                        assert(prior[i].id != prior[j].id);
                    }
                }
                Ok(())
            },
        }
    }

    /// Closes the document `id`.  Idempotent: closing an identifier that is
    /// not open is a no-op, not an error.
    pub fn close(&mut self, id: &String)
        requires
            old(self).wf(),
        ensures
            final(self).wf(),
            final(self)@ == close_model(old(self)@, id@),
    {
        match self.find(id) {
            None => (),
            Some(k) => {
                let ghost prior = self@;
                self.docs.remove(k);
                proof {
                    assert(self@ =~= prior.remove(k as int));
                    assert forall|i: int, j: int| 0 <= i < j < self@.len() implies self@[i].id != self@[j].id by {
                        let pi: int = if i < k { i } else { i + 1 };
                        let pj: int = if j < k { j } else { j + 1 };
                        assert(prior[pi].id != prior[pj].id);
                    }
                    assert forall|i: int| 0 <= i < self@.len() implies (#[trigger] self@[i]).wf() by {
                        let pi: int = if i < k { i } else { i + 1 };
                        assert(prior[pi].wf());
                    }
                }
            },
        }
    }

    /// Read access to the state of document `id`: `None` exactly when `id`
    /// is not open.
    pub fn get(&self, id: &String) -> (r: Option<&DocumentState>)
        requires
            self.wf(),
        ensures
            r is Some <==> contains_id(self@, id@),
            r matches Some(st) ==> st@ == lookup(self@, id@),
    {
        match self.find(id) {
            None => None,
            Some(k) => Some(&self.docs[k]),
        }
    }

    /// Releases every `DocumentState` at session shutdown.
    pub fn clear(&mut self)
        ensures
            final(self).wf(),
            final(self)@ == Seq::<DocEntry>::empty(),
    {
        self.docs = Vec::new();
        proof {
            assert(self@ =~= Seq::<DocEntry>::empty());
        }
    }
}

/// Law: closing twice behaves as closing once — after a close the identifier
/// is gone, so the second close finds nothing to do.
pub proof fn lemma_close_idempotent(s: Seq<DocEntry>, id: Seq<char>)
    requires
        unique_ids(s),
    ensures
        close_model(close_model(s, id), id) == close_model(s, id),
{
    if contains_id(s, id) {
        let k = index_of_id(s, id);
        assert(0 <= k < s.len() && s[k].id == id);
        let s2 = s.remove(k);
        assert forall|j: int| 0 <= j < s2.len() implies (#[trigger] s2[j]).id != id by {
            let pj: int = if j < k { j } else { j + 1 };
            assert(s2[j] == s[pj]);
            if pj < k {
                assert(s[pj].id != s[k].id);
            } else {
                assert(s[k].id != s[pj].id);
            }
        }
        assert(!contains_id(s2, id));
    }
}

/// Law: replacement semantics — opening with one text and then changing to
/// another leaves the store exactly as a fresh open with the second text
/// would; nothing of the first text or its parse outcome survives.
pub proof fn lemma_change_after_open(s: Seq<DocEntry>, e1: DocEntry, e2: DocEntry)
    requires
        !contains_id(s, e1.id),
        e2.id == e1.id,
    ensures
        change_model(open_model(s, e1), e2) == open_model(s, e2),
{
    let s1 = s.push(e1);
    assert(s1[s.len() as int] == e1);
    assert(contains_id(s1, e1.id));
    let k = index_of_id(s1, e1.id);
    assert(0 <= k < s1.len() && s1[k].id == e1.id);
    if k < s.len() {
        assert(s[k] == s1[k]);
        assert(contains_id(s, e1.id));
    }
    assert(k == s.len());
    assert(s1.update(k, e2) =~= s.push(e2));
}

/// Law: a document opened with an accepted text is stored with the parsed
/// tree, no error, and (per `diagnostics_for`'s contract) an empty
/// diagnostic set.
pub proof fn lemma_open_accepted(s: Seq<DocEntry>, id: Seq<char>, text: Seq<char>, tree: Seq<SyntaxNode>)
    requires
        !contains_id(s, id),
    ensures
        ({
            let s2 = open_model(s, entry_of(id, text, Ok(tree)));
            &&& contains_id(s2, id)
            &&& lookup(s2, id).text == text
            &&& lookup(s2, id).tree == Some(tree)
            &&& lookup(s2, id).err is None
        }),
{
    let e = entry_of(id, text, Ok(tree));
    let s2 = s.push(e);
    assert(s2[s.len() as int] == e);
    assert(contains_id(s2, id));
    let k = index_of_id(s2, id);
    assert(0 <= k < s2.len() && s2[k].id == id);
    if k < s.len() {
        assert(s[k] == s2[k]);
        assert(contains_id(s, id));
    }
    assert(lookup(s2, id) == e);
}

/// Law: a document opened with a rejected text is stored with no tree and
/// with the lexer's failure, from which (per `diagnostics_for`'s contract)
/// exactly one diagnostic is derived.
pub proof fn lemma_open_rejected(s: Seq<DocEntry>, id: Seq<char>, text: Seq<char>, err: LexError)
    requires
        !contains_id(s, id),
    ensures
        ({
            let s2 = open_model(s, entry_of(id, text, Err(err)));
            &&& contains_id(s2, id)
            &&& lookup(s2, id).text == text
            &&& lookup(s2, id).tree is None
            &&& lookup(s2, id).err == Some(err)
        }),
{
    let e = entry_of(id, text, Err(err));
    let s2 = s.push(e);
    assert(s2[s.len() as int] == e);
    assert(contains_id(s2, id));
    let k = index_of_id(s2, id);
    assert(0 <= k < s2.len() && s2[k].id == id);
    if k < s.len() {
        assert(s[k] == s2[k]);
        assert(contains_id(s, id));
    }
    assert(lookup(s2, id) == e);
}

} // verus!
