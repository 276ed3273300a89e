//! Translation of lexer failures into position-anchored diagnostics.
//!
//! A source error is never an operation failure: it is reported as a
//! diagnostic anchored to a line/character range computed from the error's
//! character offset and the document's current text.  A successful parse
//! yields the empty diagnostic set, which the facade still publishes so that
//! previously reported diagnostics are cleared.

use vstd::prelude::*;
use crate::syntax::{LexError, Position, Span};
use crate::text::{clamp_offset, clamped_position_at, end_position, position_at_spec};

verus! {

/// How severe a reported problem is.
#[derive(Clone, Copy, PartialEq, Eq, Structural, Debug)]
pub enum Severity {
    Error,
    Warning,
    Information,
    Hint,
}

/// A reported problem anchored to a source range.  Derived from the
/// document's last lexer failure, never persisted on its own.
pub struct Diagnostic {
    pub range: Span,
    pub severity: Severity,
    pub message: String,
}

/// The message reported for an unterminated multiline comment.
pub open spec fn unclosed_comment_message() -> Seq<char> {
    "unclosed multiline comment"@
}

/// `d` is the diagnostic that `translate` derives from the failure `e` of a
/// document whose text is `text`: severity error, message naming the failure,
/// range from the (clamped) offset of the opening marker to end-of-text.
pub open spec fn diag_matches(d: Diagnostic, text: Seq<char>, e: LexError) -> bool {
    match e {
        LexError::UnclosedMultilineComment { offset } => {
            &&& d.severity is Error
            &&& d.range.start == position_at_spec(text, clamp_offset(text, offset as int))
            &&& d.range.end == position_at_spec(text, text.len() as int)
            &&& d.message@ == unclosed_comment_message()
        },
    }
}

/// Converts the lexer failure `e` of a document whose current text is `text`
/// into a diagnostic.  The range starts at the failure's offset — clamped to
/// end-of-text when it lies at or past it — and extends to end-of-text, since
/// an unterminated construct spans the rest of the document.
pub fn translate(text: &str, e: &LexError) -> (d: Diagnostic)
    ensures
        diag_matches(d, text@, *e),
{
    match e {
        LexError::UnclosedMultilineComment { offset } => {
            let start = clamped_position_at(text, *offset);
            let end = end_position(text);
            Diagnostic {
                range: Span { start, end },
                severity: Severity::Error,
                message: "unclosed multiline comment".to_owned(),
            }
        },
    }
}

/// The diagnostic set for a document whose text is `text` and whose last
/// parse ended in `last_error`: empty after a successful parse, exactly one
/// translated diagnostic after a failure.
pub fn diagnostics_for(text: &str, last_error: &Option<LexError>) -> (ds: Vec<Diagnostic>)
    ensures
        last_error is None ==> ds@.len() == 0,
        last_error matches Some(e) ==> ds@.len() == 1 && diag_matches(ds@[0], text@, *e),
{
    match last_error {
        None => Vec::new(),
        Some(e) => {
            let mut ds: Vec<Diagnostic> = Vec::new();
            ds.push(translate(text, e));
            ds
        },
    }
}

} // verus!
