//! The server facade: dispatches each lifecycle or query event to the
//! document store, the diagnostic translator and the query engine, and
//! packages the outcome as a protocol-shaped response.
//!
//! The external parser is run by the embedding transport layer, which hands
//! its outcome in with each lifecycle event; a parse failure never fails the
//! operation — the document stays open and the failure is published as a
//! diagnostic.  Protocol-level failures (duplicate open, change or query on
//! an unknown document) are surfaced as explicit rejections.

use vstd::prelude::*;
use crate::diagnostics::{diag_matches, diagnostics_for, Diagnostic};
use crate::query::{action_matches, code_actions, hover, hover_matches, overlapping_nodes, query_nodes, CodeAction, HoverResult};
use crate::store::{change_model, close_model, contains_id, entry_of, open_model, outcome_view, DocEntry, DocumentStore, StoreError};
use crate::syntax::{LexError, Position, Span, SyntaxTree};

verus! {

/// A lifecycle or query event delivered by the transport layer.  Lifecycle
/// events carry the parse outcome that the external syntax provider produced
/// for the event's full replacement text.
pub enum Event {
    Initialize,
    DocumentOpened { id: String, text: String, parsed: Result<SyntaxTree, LexError> },
    DocumentChanged { id: String, text: String, parsed: Result<SyntaxTree, LexError> },
    DocumentClosed { id: String },
    HoverRequested { id: String, position: Position },
    CodeActionRequested { id: String, range: Span },
    Shutdown,
}

/// The static capabilities the server declares on initialization.
#[derive(Clone, Copy, PartialEq, Eq, Structural, Debug)]
pub struct Capabilities {
    pub full_document_sync: bool,
    pub hover_provider: bool,
    pub code_action_provider: bool,
}

/// The protocol-shaped result of handling one event.
pub enum Response {
    /// Declared capabilities, answering `Initialize`.
    Capabilities(Capabilities),
    /// The full diagnostic set now holding for the document — published even
    /// when empty, so that earlier diagnostics are cleared.
    Diagnostics { id: String, diagnostics: Vec<Diagnostic> },
    /// A lifecycle operation was rejected; the store is untouched.
    Rejected(StoreError),
    /// The answer to a hover query; `None` is a normal, silent outcome.
    HoverAnswer(Option<HoverResult>),
    /// The answer to a code-action query, possibly empty.
    CodeActions(Vec<CodeAction>),
    /// A closed document produces no outbound message.
    NoResponse,
    /// Acknowledges `Shutdown` after all document state was released.
    ShutdownAck,
}

/// Receives events from the transport layer, drives the store and the query
/// engine, and returns protocol-shaped results.
pub struct ServerFacade {
    store: DocumentStore,
}

impl ServerFacade {
    /// The model of the session: the images of the open documents.
    pub closed spec fn docs(&self) -> Seq<DocEntry> {
        self.store@
    }

    /// The facade's invariant: the store it drives is well formed.
    pub closed spec fn wf(&self) -> bool {
        self.store.wf()
    }

    /// Creates a facade for a fresh session with no open documents.
    pub fn new() -> (s: Self)
        ensures
            s.wf(),
            s.docs() == Seq::<DocEntry>::empty(),
    {
        ServerFacade { store: DocumentStore::new() }
    }

    /// Dispatches one event.  Queries and `Initialize` leave the session
    /// untouched; lifecycle events transform the document images exactly as
    /// the store's model functions say; `Shutdown` releases everything.
    pub fn handle(&mut self, event: Event) -> (r: Response)
        requires
            old(self).wf(),
        ensures
            final(self).wf(),
            event matches Event::Initialize ==> final(self).docs() == old(self).docs()
                && r == Response::Capabilities(Capabilities {
                    full_document_sync: true,
                    hover_provider: true,
                    code_action_provider: true,
                }),
            event matches Event::DocumentOpened { id, text, parsed } ==> {
                &&& final(self).docs() == open_model(old(self).docs(), entry_of(id@, text@, outcome_view(parsed)))
                &&& contains_id(old(self).docs(), id@)
                    ==> r == Response::Rejected(StoreError::DuplicateDocument)
                &&& !contains_id(old(self).docs(), id@) ==> (r matches Response::Diagnostics { id: rid, diagnostics }
                    && rid@ == id@
                    && (parsed matches Ok(_) ==> diagnostics@.len() == 0)
                    && (parsed matches Err(e) ==> diagnostics@.len() == 1
                        && diag_matches(diagnostics@[0], text@, e)))
            },
            event matches Event::DocumentChanged { id, text, parsed } ==> {
                &&& final(self).docs() == change_model(old(self).docs(), entry_of(id@, text@, outcome_view(parsed)))
                &&& !contains_id(old(self).docs(), id@)
                    ==> r == Response::Rejected(StoreError::UnknownDocument)
                &&& contains_id(old(self).docs(), id@) ==> (r matches Response::Diagnostics { id: rid, diagnostics }
                    && rid@ == id@
                    && (parsed matches Ok(_) ==> diagnostics@.len() == 0)
                    && (parsed matches Err(e) ==> diagnostics@.len() == 1
                        && diag_matches(diagnostics@[0], text@, e)))
            },
            event matches Event::DocumentClosed { id } ==> final(self).docs() == close_model(old(self).docs(), id@)
                && r == Response::NoResponse,
            event matches Event::HoverRequested { id, position } ==> final(self).docs() == old(self).docs()
                && (r matches Response::HoverAnswer(h)
                    && hover_matches(h, query_nodes(old(self).docs(), id@), position)),
            event matches Event::CodeActionRequested { id, range } ==> final(self).docs() == old(self).docs()
                && (r matches Response::CodeActions(actions) && {
                    let ov = overlapping_nodes(query_nodes(old(self).docs(), id@), range);
                    &&& actions@.len() == ov.len()
                    &&& forall|i: int| 0 <= i < ov.len() ==> action_matches(#[trigger] actions@[i], ov[i])
                }),
            event matches Event::Shutdown ==> final(self).docs() == Seq::<DocEntry>::empty()
                && r == Response::ShutdownAck,
    {
        match event {
            Event::Initialize => Response::Capabilities(Capabilities {
                full_document_sync: true,
                hover_provider: true,
                code_action_provider: true,
            }),
            Event::DocumentOpened { id, text, parsed } => {
                let last_error: Option<LexError> = match &parsed {
                    Ok(_) => None,
                    Err(e) => Some(*e),
                };
                let diagnostics = diagnostics_for(text.as_str(), &last_error);
                let response_id = id.clone();
                match self.store.open(id, text, parsed) {
                    Ok(()) => Response::Diagnostics { id: response_id, diagnostics },
                    Err(e) => Response::Rejected(e),
                }
            },
            Event::DocumentChanged { id, text, parsed } => {
                let last_error: Option<LexError> = match &parsed {
                    Ok(_) => None,
                    Err(e) => Some(*e),
                };
                let diagnostics = diagnostics_for(text.as_str(), &last_error);
                match self.store.change(&id, text, parsed) {
                    Ok(()) => Response::Diagnostics { id, diagnostics },
                    Err(e) => Response::Rejected(e),
                }
            },
            Event::DocumentClosed { id } => {
                self.store.close(&id);
                Response::NoResponse
            },
            Event::HoverRequested { id, position } => {
                Response::HoverAnswer(hover(&self.store, &id, position))
            },
            Event::CodeActionRequested { id, range } => {
                Response::CodeActions(code_actions(&self.store, &id, range))
            },
            Event::Shutdown => {
                self.store.clear();
                Response::ShutdownAck
            },
        }
    }
}

} // verus!
