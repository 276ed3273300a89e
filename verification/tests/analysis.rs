// Position arithmetic, diagnostic translation, and the hover and
// code-action queries.

use lolcode_lsp::diagnostics::{diagnostics_for, translate, Severity};
use lolcode_lsp::query::{code_actions, hover, ActionKind};
use lolcode_lsp::store::DocumentStore;
use lolcode_lsp::syntax::{LexError, NodeKind, Position, Span, SyntaxNode, SyntaxTree};
use lolcode_lsp::text::{clamped_position_at, end_position, offset_at, position_at};

fn pos(line: usize, character: usize) -> Position {
    Position { line, character }
}

fn node(kind: NodeKind, from: Position, to: Position) -> SyntaxNode {
    SyntaxNode { kind, span: Span { start: from, end: to } }
}

// "HAI 1.2, KTHXBYE" tokenized: two keywords, a number literal, a comma.
fn one_line_tree() -> SyntaxTree {
    SyntaxTree {
        nodes: vec![
            node(NodeKind::Keyword, pos(0, 0), pos(0, 3)),
            node(NodeKind::NumberLiteral, pos(0, 4), pos(0, 7)),
            node(NodeKind::Symbol, pos(0, 7), pos(0, 8)),
            node(NodeKind::Keyword, pos(0, 9), pos(0, 16)),
        ],
    }
}

#[test]
fn position_of_offset_counts_lines_and_columns() {
    let text = "HAI 1.2\nVISIBLE \"HI\"\nKTHXBYE";
    assert_eq!(position_at(text, 0), pos(0, 0));
    assert_eq!(position_at(text, 7), pos(0, 7));
    assert_eq!(position_at(text, 8), pos(1, 0));
    assert_eq!(position_at(text, 12), pos(1, 4));
    assert_eq!(position_at(text, 21), pos(2, 0));
    assert_eq!(position_at(text, 28), pos(2, 7));
}

#[test]
fn position_past_end_of_text_is_clamped() {
    let text = "HAI 1.2";
    assert_eq!(clamped_position_at(text, 999), pos(0, 7));
    assert_eq!(clamped_position_at(text, 3), pos(0, 3));
    assert_eq!(end_position("A\nBC"), pos(1, 2));
    assert_eq!(end_position(""), pos(0, 0));
}

#[test]
fn offset_of_position_inverts_position_of_offset() {
    let text = "HAI 1.2\nVISIBLE \"HI\"\nKTHXBYE";
    for off in [0usize, 5, 7, 8, 12, 21, 27] {
        assert_eq!(offset_at(text, position_at(text, off)), off);
    }
    // A position nothing maps to is clamped to end-of-text.
    assert_eq!(offset_at(text, pos(9, 0)), 28);
}

#[test]
fn unterminated_comment_yields_one_error_diagnostic_to_end_of_text() {
    let text = "HAI 1.2\nOBTW this comment never ends";
    let err = LexError::UnclosedMultilineComment { offset: 8 };
    let ds = diagnostics_for(text, &Some(err));
    assert_eq!(ds.len(), 1);
    let d = &ds[0];
    assert_eq!(d.severity, Severity::Error);
    assert_eq!(d.message, "unclosed multiline comment");
    // From the comment opener ...
    assert_eq!(d.range.start, pos(1, 0));
    // ... to the end of the document.
    assert_eq!(d.range.end, pos(1, 28));
}

#[test]
fn successful_parse_yields_the_empty_diagnostic_set() {
    let ds = diagnostics_for("HAI 1.2, KTHXBYE", &None);
    assert!(ds.is_empty());
}

#[test]
fn error_offset_past_end_of_text_is_clamped() {
    let d = translate("AB", &LexError::UnclosedMultilineComment { offset: 77 });
    assert_eq!(d.range.start, pos(0, 2));
    assert_eq!(d.range.end, pos(0, 2));
    assert_eq!(d.severity, Severity::Error);
}

#[test]
fn hover_names_the_kind_of_the_token_under_the_cursor() {
    let mut store = DocumentStore::new();
    let id = "file:///a.lol".to_string();
    store.open(id.clone(), "HAI 1.2, KTHXBYE".to_string(), Ok(one_line_tree())).unwrap();

    let h = hover(&store, &id, pos(0, 1)).expect("a keyword sits at (0,1)");
    assert_eq!(h.contents, "keyword");
    assert_eq!(h.range, Some(Span { start: pos(0, 0), end: pos(0, 3) }));

    let h = hover(&store, &id, pos(0, 5)).expect("a number literal sits at (0,5)");
    assert_eq!(h.contents, "number literal");

    // The gap between tokens is inside no node: a silent miss, not an error.
    assert!(hover(&store, &id, pos(0, 8)).is_none());
}

#[test]
fn hover_picks_the_innermost_of_nested_nodes() {
    // A comment node spans the whole line; a keyword and an identifier lie
    // inside it.
    let tree = SyntaxTree {
        nodes: vec![
            node(NodeKind::Comment, pos(0, 0), pos(0, 16)),
            node(NodeKind::Keyword, pos(0, 0), pos(0, 3)),
            node(NodeKind::Identifier, pos(0, 4), pos(0, 9)),
        ],
    };
    let mut store = DocumentStore::new();
    let id = "file:///nested.lol".to_string();
    store.open(id.clone(), "BTW HAI kitteh ok".to_string(), Ok(tree)).unwrap();

    // Inside both the comment and the keyword: the smaller keyword wins.
    let h = hover(&store, &id, pos(0, 1)).expect("nodes sit at (0,1)");
    assert_eq!(h.contents, "keyword");
    // Inside both the comment and the identifier: the identifier wins.
    let h = hover(&store, &id, pos(0, 5)).expect("nodes sit at (0,5)");
    assert_eq!(h.contents, "identifier");
    // Inside the comment only.
    let h = hover(&store, &id, pos(0, 12)).expect("the comment spans (0,12)");
    assert_eq!(h.contents, "comment");
}

#[test]
fn hover_picks_the_innermost_node_whatever_the_order() {
    // The inner node comes first here; the enclosing comment last.
    let tree = SyntaxTree {
        nodes: vec![
            node(NodeKind::StringLiteral, pos(0, 4), pos(0, 8)),
            node(NodeKind::Comment, pos(0, 0), pos(0, 12)),
        ],
    };
    let mut store = DocumentStore::new();
    let id = "file:///order.lol".to_string();
    store.open(id.clone(), "BTW \"HI\" lol".to_string(), Ok(tree)).unwrap();

    let h = hover(&store, &id, pos(0, 5)).expect("nodes sit at (0,5)");
    assert_eq!(h.contents, "string literal");
}

#[test]
fn hover_on_document_without_tree_is_absent() {
    let mut store = DocumentStore::new();
    let id = "file:///broken.lol".to_string();
    store
        .open(id.clone(), "OBTW".to_string(), Err(LexError::UnclosedMultilineComment { offset: 0 }))
        .unwrap();
    assert!(hover(&store, &id, pos(0, 0)).is_none());
}

#[test]
fn queries_on_unknown_document_are_safe() {
    let store = DocumentStore::new();
    let id = "file:///unknown.lol".to_string();
    assert!(hover(&store, &id, pos(0, 0)).is_none());
    let actions = code_actions(
        &store,
        &id,
        Span { start: pos(0, 0), end: pos(0, 5) },
    );
    assert!(actions.is_empty());
}

#[test]
fn code_actions_propose_one_action_per_touched_node() {
    let mut store = DocumentStore::new();
    let id = "file:///a.lol".to_string();
    store.open(id.clone(), "HAI 1.2, KTHXBYE".to_string(), Ok(one_line_tree())).unwrap();

    // A range over the first token only.
    let actions = code_actions(&store, &id, Span { start: pos(0, 0), end: pos(0, 3) });
    assert_eq!(actions.len(), 1);
    assert_eq!(actions[0].title, "keyword");
    assert_eq!(actions[0].kind, ActionKind::Empty);
    assert!(actions[0].edit.is_none());

    // The inclusive comparison lets a range whose end touches the next
    // token's start select that token too.
    let actions = code_actions(&store, &id, Span { start: pos(0, 0), end: pos(0, 4) });
    assert_eq!(actions.len(), 2);
    assert_eq!(actions[0].title, "keyword");
    assert_eq!(actions[1].title, "number literal");

    // A collapsed cursor range still selects the token it sits in.
    let actions = code_actions(&store, &id, Span { start: pos(0, 5), end: pos(0, 5) });
    assert_eq!(actions.len(), 1);
    assert_eq!(actions[0].title, "number literal");

    // A range beyond every token selects nothing.
    let actions = code_actions(&store, &id, Span { start: pos(3, 0), end: pos(3, 4) });
    assert!(actions.is_empty());
}

#[test]
fn node_kind_names() {
    assert_eq!(NodeKind::Keyword.name(), "keyword");
    assert_eq!(NodeKind::Identifier.name(), "identifier");
    assert_eq!(NodeKind::NumberLiteral.name(), "number literal");
    assert_eq!(NodeKind::StringLiteral.name(), "string literal");
    assert_eq!(NodeKind::Comment.name(), "comment");
    assert_eq!(NodeKind::Symbol.name(), "symbol");
}
