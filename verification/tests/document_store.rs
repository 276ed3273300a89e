// Lifecycle behaviour of the document store: open, change, close, get.

use lolcode_lsp::store::{DocumentStore, StoreError};
use lolcode_lsp::syntax::{LexError, NodeKind, Position, Span, SyntaxNode, SyntaxTree};

fn node(kind: NodeKind, line: usize, from: usize, to: usize) -> SyntaxNode {
    SyntaxNode {
        kind,
        span: Span {
            start: Position { line, character: from },
            end: Position { line, character: to },
        },
    }
}

fn one_keyword_tree() -> SyntaxTree {
    SyntaxTree { nodes: vec![node(NodeKind::Keyword, 0, 0, 3)] }
}

#[test]
fn open_accepted_text_stores_tree_and_no_error() {
    let mut store = DocumentStore::new();
    let r = store.open("file:///a.lol".to_string(), "HAI 1.2".to_string(), Ok(one_keyword_tree()));
    assert!(r.is_ok());
    let state = store.get(&"file:///a.lol".to_string()).expect("document must be open");
    assert_eq!(state.text, "HAI 1.2");
    assert!(state.tree.is_some());
    assert!(state.last_error.is_none());
    assert_eq!(state.tree.as_ref().unwrap().nodes, vec![node(NodeKind::Keyword, 0, 0, 3)]);
}

#[test]
fn open_rejected_text_stores_error_and_no_tree() {
    let mut store = DocumentStore::new();
    let err = LexError::UnclosedMultilineComment { offset: 8 };
    let r = store.open("file:///a.lol".to_string(), "HAI 1.2\nOBTW oops".to_string(), Err(err));
    assert!(r.is_ok());
    let state = store.get(&"file:///a.lol".to_string()).expect("document must be open");
    assert!(state.tree.is_none());
    assert_eq!(state.last_error, Some(err));
}

#[test]
fn open_twice_fails_with_duplicate_document() {
    let mut store = DocumentStore::new();
    let id = "file:///a.lol".to_string();
    assert!(store.open(id.clone(), "HAI 1.2".to_string(), Ok(one_keyword_tree())).is_ok());
    let r = store.open(id.clone(), "KTHXBYE".to_string(), Err(LexError::UnclosedMultilineComment { offset: 0 }));
    assert_eq!(r, Err(StoreError::DuplicateDocument));
    // The rejected open must not have touched the stored state.
    let state = store.get(&id).unwrap();
    assert_eq!(state.text, "HAI 1.2");
    assert!(state.tree.is_some());
}

#[test]
fn close_is_idempotent() {
    let mut store = DocumentStore::new();
    let id = "file:///a.lol".to_string();
    store.open(id.clone(), "HAI 1.2".to_string(), Ok(one_keyword_tree())).unwrap();
    store.close(&id);
    assert!(store.get(&id).is_none());
    // Closing an already-closed document is a no-op, not an error.
    store.close(&id);
    assert!(store.get(&id).is_none());
}

#[test]
fn close_leaves_other_documents_open() {
    let mut store = DocumentStore::new();
    store.open("file:///a.lol".to_string(), "HAI 1.2".to_string(), Ok(one_keyword_tree())).unwrap();
    store.open("file:///b.lol".to_string(), "KTHXBYE".to_string(), Ok(SyntaxTree { nodes: vec![] })).unwrap();
    store.close(&"file:///a.lol".to_string());
    assert!(store.get(&"file:///a.lol".to_string()).is_none());
    let b = store.get(&"file:///b.lol".to_string()).expect("b stays open");
    assert_eq!(b.text, "KTHXBYE");
}

#[test]
fn change_replaces_like_a_fresh_open() {
    let id = "file:///a.lol".to_string();
    let err = LexError::UnclosedMultilineComment { offset: 0 };

    let mut changed = DocumentStore::new();
    changed.open(id.clone(), "OBTW broken".to_string(), Err(err)).unwrap();
    changed.change(&id, "HAI 1.2".to_string(), Ok(one_keyword_tree())).unwrap();

    let mut fresh = DocumentStore::new();
    fresh.open(id.clone(), "HAI 1.2".to_string(), Ok(one_keyword_tree())).unwrap();

    let a = changed.get(&id).unwrap();
    let b = fresh.get(&id).unwrap();
    assert_eq!(a.id, b.id);
    assert_eq!(a.text, b.text);
    assert_eq!(a.last_error, b.last_error);
    assert_eq!(
        a.tree.as_ref().map(|t| t.nodes.clone()),
        b.tree.as_ref().map(|t| t.nodes.clone()),
    );
    // Nothing of the first text or its failed parse survives.
    assert!(a.last_error.is_none());
    assert_eq!(a.text, "HAI 1.2");
}

#[test]
fn change_of_unopened_document_fails_without_side_effect() {
    let mut store = DocumentStore::new();
    let id = "file:///never-opened.lol".to_string();
    let r = store.change(&id, "HAI 1.2".to_string(), Ok(one_keyword_tree()));
    assert_eq!(r, Err(StoreError::UnknownDocument));
    // No document state may be created as a side effect.
    assert!(store.get(&id).is_none());
}

#[test]
fn clear_releases_every_document() {
    let mut store = DocumentStore::new();
    store.open("file:///a.lol".to_string(), "HAI 1.2".to_string(), Ok(one_keyword_tree())).unwrap();
    store.open("file:///b.lol".to_string(), "KTHXBYE".to_string(), Ok(SyntaxTree { nodes: vec![] })).unwrap();
    store.clear();
    assert!(store.get(&"file:///a.lol".to_string()).is_none());
    assert!(store.get(&"file:///b.lol".to_string()).is_none());
}
