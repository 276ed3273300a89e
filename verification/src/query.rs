//! Read-only queries against a document's current tree: hover and code
//! actions.  Both degrade to an absent or empty result — never an error —
//! when the document is unknown, has no tree, or nothing applies.

use vstd::prelude::*;
use crate::store::{contains_id, lookup, DocEntry, DocumentStore};
use crate::syntax::{lemma_strictly_within_transitive, span_contains, span_contains_position, span_is_strictly_within, span_strictly_within, spans_do_overlap, spans_overlap, Position, Span, SyntaxNode};

verus! {

/// The payload answering a hover query: a description of the syntax element
/// under the cursor and the span that description applies to.
pub struct HoverResult {
    pub contents: String,
    pub range: Option<Span>,
}

/// The classification of a proposed code action.
#[derive(Clone, Copy, PartialEq, Eq, Structural, Debug)]
pub enum ActionKind {
    Empty,
    QuickFix,
}

/// A proposed textual fix carried by a code action.
pub struct TextEdit {
    pub range: Span,
    pub new_text: String,
}

/// A proposed action anchored to a source range.  Computed per request,
/// never persisted.
pub struct CodeAction {
    pub title: String,
    pub kind: ActionKind,
    pub edit: Option<TextEdit>,
}

/// The node sequence queries run against: the tree of document `id`, or the
/// empty sequence when `id` is not open or its last parse failed.
pub open spec fn query_nodes(s: Seq<DocEntry>, id: Seq<char>) -> Seq<SyntaxNode> {
    if contains_id(s, id) && lookup(s, id).tree is Some {
        lookup(s, id).tree->Some_0
    } else {
        Seq::<SyntaxNode>::empty()
    }
}

/// The node at index `i` of `nodes` is an innermost node containing `pos`:
/// its span contains `pos`, and no other node whose span contains `pos` has
/// a span lying strictly within it.  No enclosing node is a smaller answer.
pub open spec fn is_innermost_at(nodes: Seq<SyntaxNode>, i: int, pos: Position) -> bool {
    &&& 0 <= i < nodes.len()
    &&& span_contains(nodes[i].span, pos)
    &&& forall|j: int| 0 <= j < nodes.len() && span_contains((#[trigger] nodes[j]).span, pos)
        ==> !span_strictly_within(nodes[j].span, nodes[i].span)
}

/// `r` is the hover answer for position `pos` over `nodes`: absent exactly
/// when no node's span contains `pos`, otherwise a description naming the
/// kind of an innermost node containing `pos` — the smallest match —
/// anchored to that node's span.
pub open spec fn hover_matches(r: Option<HoverResult>, nodes: Seq<SyntaxNode>, pos: Position) -> bool {
    &&& (r is None <==> forall|i: int| 0 <= i < nodes.len() ==> !span_contains((#[trigger] nodes[i]).span, pos))
    &&& (r matches Some(h) ==> exists|i: int|
        {
            &&& #[trigger] is_innermost_at(nodes, i, pos)
            &&& h.contents@ == nodes[i].kind.name_spec()
            &&& h.range == Some(nodes[i].span)
        })
}

/// The nodes of `nodes` whose spans touch the query range `range`, in
/// document order.
pub open spec fn overlapping_nodes(nodes: Seq<SyntaxNode>, range: Span) -> Seq<SyntaxNode> {
    nodes.filter(|n: SyntaxNode| spans_overlap(n.span, range))
}

/// `a` is the action proposed for the node `n`: an illustrative no-edit
/// action whose title names the node's kind.
pub open spec fn action_matches(a: CodeAction, n: SyntaxNode) -> bool {
    &&& a.title@ == n.kind.name_spec()
    &&& a.kind is Empty
    &&& a.edit is None
}

/// Law: queries on an unknown document are safe.  A document that is not
/// open has no query nodes, so every hover answer the hover contract admits
/// for it is absent and the proposed code-action sequence is empty — neither
/// query can error or leak another document's tree.
pub proof fn lemma_unknown_document_is_silent(
    s: Seq<DocEntry>,
    id: Seq<char>,
    r: Option<HoverResult>,
    pos: Position,
    range: Span,
)
    requires
        !contains_id(s, id),
        hover_matches(r, query_nodes(s, id), pos),
    ensures
        r is None,
        overlapping_nodes(query_nodes(s, id), range) == Seq::<SyntaxNode>::empty(),
{
    let nodes = query_nodes(s, id);
    assert(nodes =~= Seq::<SyntaxNode>::empty());
    assert(overlapping_nodes(nodes, range) =~= Seq::<SyntaxNode>::empty());
}

/// Answers a hover query for document `id` at `position`: a description of
/// the smallest syntax node whose span contains the position — one with no
/// other containing node strictly inside it — or `None`, never an error,
/// when the document is unknown, has no tree, or no node contains the
/// position.  Read-only.
pub fn hover(store: &DocumentStore, id: &String, position: Position) -> (r: Option<HoverResult>)
    requires
        store.wf(),
    ensures
        hover_matches(r, query_nodes(store@, id@), position),
{
    let ghost nodes = query_nodes(store@, id@);
    match store.get(id) {
        None => None,
        Some(state) => match &state.tree {
            None => None,
            Some(tree) => {
                proof {
                    assert(nodes == tree@);
                }
                let n = tree.nodes.len();
                // The best answer so far: a containing node with no later
                // replacement unless a containing node lies strictly within
                // it.  Bests form a chain under strict containment, so a
                // containing node strictly within the final best would have
                // been strictly within every earlier best and would have
                // replaced it.
                let mut best: Option<SyntaxNode> = None;
                let ghost mut best_idx: int = 0;
                let mut k: usize = 0;
                while k < n
                    invariant
                        n == nodes.len(),
                        k <= n,
                        tree@ == nodes,
                        nodes == query_nodes(store@, id@),
                        best is None ==> forall|j: int| 0 <= j < k
                            ==> !span_contains((#[trigger] nodes[j]).span, position),
                        best matches Some(b) ==> {
                            &&& 0 <= best_idx < k
                            &&& nodes[best_idx] == b
                            &&& span_contains(b.span, position)
                            &&& forall|j: int| 0 <= j < k && span_contains((#[trigger] nodes[j]).span, position)
                                ==> !span_strictly_within(nodes[j].span, b.span)
                        },
                    decreases n - k,
                {
                    let node = tree.nodes[k];
                    if span_contains_position(node.span, position) {
                        match best {
                            None => {
                                best = Some(node);
                                proof {
                                    best_idx = k as int;
                                }
                            },
                            Some(b) => {
                                if span_is_strictly_within(node.span, b.span) {
                                    proof {
                                        assert forall|j: int|
                                            0 <= j < k && span_contains((#[trigger] nodes[j]).span, position)
                                                && span_strictly_within(nodes[j].span, node.span)
                                            implies false by {
                                            lemma_strictly_within_transitive(nodes[j].span, node.span, b.span);
                                        }
                                        best_idx = k as int;
                                    }
                                    best = Some(node);
                                }
                            },
                        }
                    }
                    k = k + 1;
                }
                match best {
                    None => None,
                    Some(b) => {
                        let h = HoverResult { contents: b.kind.name(), range: Some(b.span) };
                        let r_out = Some(h);
                        proof {
                            assert(is_innermost_at(nodes, best_idx, position));
                            assert(hover_matches(r_out, nodes, position));
                        }
                        r_out
                    },
                }
            },
        },
    }
}

/// Answers a code-action query for document `id` over `range`: one proposed
/// action per syntax node touching the range, in document order, and the
/// empty sequence — never an error — when the document is unknown, has no
/// tree, or no node touches the range.  Read-only.
pub fn code_actions(store: &DocumentStore, id: &String, range: Span) -> (r: Vec<CodeAction>)
    requires
        store.wf(),
    ensures
        ({
            let ov = overlapping_nodes(query_nodes(store@, id@), range);
            &&& r@.len() == ov.len()
            &&& forall|i: int| 0 <= i < ov.len() ==> action_matches(#[trigger] r@[i], ov[i])
        }),
{
    let ghost nodes = query_nodes(store@, id@);
    let ghost pred = |n: SyntaxNode| spans_overlap(n.span, range);
    match store.get(id) {
        None => {
            proof {
                assert(nodes.filter(pred) =~= Seq::<SyntaxNode>::empty());
            }
            Vec::new()
        },
        Some(state) => match &state.tree {
            None => {
                proof {
                    assert(nodes.filter(pred) =~= Seq::<SyntaxNode>::empty());
                }
                Vec::new()
            },
            Some(tree) => {
                proof {
                    assert(nodes == tree@);
                }
                let n = tree.nodes.len();
                let mut actions: Vec<CodeAction> = Vec::new();
                let mut k: usize = 0;
                proof {
                    assert(nodes.take(0) =~= Seq::<SyntaxNode>::empty());
                    reveal(Seq::filter);
                }
                while k < n
                    invariant
                        n == nodes.len(),
                        k <= n,
                        tree@ == nodes,
                        nodes == query_nodes(store@, id@),
                        pred == (|n: SyntaxNode| spans_overlap(n.span, range)),
                        actions@.len() == nodes.take(k as int).filter(pred).len(),
                        forall|i: int| 0 <= i < actions@.len()
                            ==> action_matches(#[trigger] actions@[i], nodes.take(k as int).filter(pred)[i]),
                    decreases n - k,
                {
                    let node = tree.nodes[k];
                    proof {
                        reveal(Seq::filter);
                        assert(nodes.take(k + 1).drop_last() =~= nodes.take(k as int));
                        assert(nodes.take(k + 1).last() == nodes[k as int]);
                    }
                    if spans_do_overlap(node.span, range) {
                        actions.push(CodeAction { title: node.kind.name(), kind: ActionKind::Empty, edit: None });
                    }
                    k = k + 1;
                }
                proof {
                    assert(nodes.take(n as int) =~= nodes);
                }
                actions
            },
        },
    }
}

} // verus!
