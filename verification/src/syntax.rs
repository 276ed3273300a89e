//! Plain-value model of a parsed document: positions, spans, node kinds and
//! the lexer's failure report.  The external parser is a pure function from
//! source text to either a tree or a `LexError`; the embedding process runs it
//! and hands the outcome over in these types.

use vstd::prelude::*;

verus! {

/// A position inside a document's text: zero-based line and zero-based
/// character offset within that line.
#[derive(Clone, Copy, PartialEq, Eq, Structural, Debug)]
pub struct Position {
    pub line: usize,
    pub character: usize,
}

/// A half-open source range `[start, end)` in line/character coordinates.
#[derive(Clone, Copy, PartialEq, Eq, Structural, Debug)]
pub struct Span {
    pub start: Position,
    pub end: Position,
}

/// The classification of a syntax node, as far as hover and code-action
/// queries need it.
#[derive(Clone, Copy, PartialEq, Eq, Structural, Debug)]
pub enum NodeKind {
    Keyword,
    Identifier,
    NumberLiteral,
    StringLiteral,
    Comment,
    Symbol,
}

/// One node of the syntax tree: its kind and the source span it covers.
#[derive(Clone, Copy, PartialEq, Eq, Structural, Debug)]
pub struct SyntaxNode {
    pub kind: NodeKind,
    pub span: Span,
}

/// A parsed document.  The core reads nothing of the parser's output beyond
/// node kinds and spans, so the tree is a flat sequence of nodes in document
/// order.
pub struct SyntaxTree {
    pub nodes: Vec<SyntaxNode>,
}

impl View for SyntaxTree {
    type V = Seq<SyntaxNode>;

    open spec fn view(&self) -> Seq<SyntaxNode> {
        self.nodes@
    }
}

/// A tagged failure from the external lexer.  The carried offset is the
/// character offset (into the document's text) at which the unterminated
/// construct opens; it is enough to compute a source span.
#[derive(Clone, Copy, PartialEq, Eq, Structural, Debug)]
pub enum LexError {
    UnclosedMultilineComment { offset: usize },
}

impl NodeKind {
    /// The human-readable name of this node kind.
    pub open spec fn name_spec(self) -> Seq<char> {
        match self {
            NodeKind::Keyword => "keyword"@,
            NodeKind::Identifier => "identifier"@,
            NodeKind::NumberLiteral => "number literal"@,
            NodeKind::StringLiteral => "string literal"@,
            NodeKind::Comment => "comment"@,
            NodeKind::Symbol => "symbol"@,
        }
    }

    /// Returns the human-readable name of this node kind.
    pub fn name(&self) -> (r: String)
        ensures
            r@ == self.name_spec(),
    {
        match self {
            NodeKind::Keyword => "keyword".to_owned(),
            NodeKind::Identifier => "identifier".to_owned(),
            NodeKind::NumberLiteral => "number literal".to_owned(),
            NodeKind::StringLiteral => "string literal".to_owned(),
            NodeKind::Comment => "comment".to_owned(),
            NodeKind::Symbol => "symbol".to_owned(),
        }
    }
}

/// `a` is at or before `b`.
pub open spec fn pos_le(a: Position, b: Position) -> bool {
    a.line < b.line || (a.line == b.line && a.character <= b.character)
}

/// `a` is strictly before `b`.
pub open spec fn pos_lt(a: Position, b: Position) -> bool {
    a.line < b.line || (a.line == b.line && a.character < b.character)
}

/// The half-open span `s` contains the position `p`.
pub open spec fn span_contains(s: Span, p: Position) -> bool {
    pos_le(s.start, p) && pos_lt(p, s.end)
}

/// The spans `a` and `b` touch or overlap.  The comparison is inclusive at
/// both ends so that a collapsed (cursor) range still selects the node it
/// sits on the edge of.
pub open spec fn spans_overlap(a: Span, b: Span) -> bool {
    pos_le(a.start, b.end) && pos_le(b.start, a.end)
}

/// The span `a` lies within the span `b`.
pub open spec fn span_within(a: Span, b: Span) -> bool {
    pos_le(b.start, a.start) && pos_le(a.end, b.end)
}

/// The span `a` lies strictly within the span `b`: within it, and smaller.
pub open spec fn span_strictly_within(a: Span, b: Span) -> bool {
    span_within(a, b) && a != b
}

/// Lying strictly within is transitive: positions compare
/// lexicographically, and mutual containment of unequal spans is impossible.
pub proof fn lemma_strictly_within_transitive(a: Span, b: Span, c: Span)
    requires
        span_strictly_within(a, b),
        span_strictly_within(b, c),
    ensures
        span_strictly_within(a, c),
{
}

/// Decides `pos_le(a, b)`.
pub fn position_le(a: Position, b: Position) -> (r: bool)
    ensures
        r == pos_le(a, b),
{
    a.line < b.line || (a.line == b.line && a.character <= b.character)
}

/// Decides `pos_lt(a, b)`.
pub fn position_lt(a: Position, b: Position) -> (r: bool)
    ensures
        r == pos_lt(a, b),
{
    a.line < b.line || (a.line == b.line && a.character < b.character)
}

/// Decides `span_contains(s, p)`.
pub fn span_contains_position(s: Span, p: Position) -> (r: bool)
    ensures
        r == span_contains(s, p),
{
    position_le(s.start, p) && position_lt(p, s.end)
}

/// Decides `span_strictly_within(a, b)`.
pub fn span_is_strictly_within(a: Span, b: Span) -> (r: bool)
    ensures
        r == span_strictly_within(a, b),
{
    position_le(b.start, a.start) && position_le(a.end, b.end) && !(a == b)
}

/// Decides `spans_overlap(a, b)`.
pub fn spans_do_overlap(a: Span, b: Span) -> (r: bool)
    ensures
        r == spans_overlap(a, b),
{
    position_le(a.start, b.end) && position_le(b.start, a.end)
}

} // verus!
