//! Conversions between character offsets and line/character positions in a
//! document's text.  Lines are separated by `'\n'`; an offset equal to the
//! text's length denotes the end-of-text position.

use vstd::prelude::*;
use crate::syntax::Position;

verus! {

/// The zero-based line that character offset `off` of `s` falls on.
pub open spec fn line_at(s: Seq<char>, off: int) -> int
    decreases off,
{
    if off <= 0 {
        0
    } else if s[off - 1] == '\n' {
        line_at(s, off - 1) + 1
    } else {
        line_at(s, off - 1)
    }
}

/// The zero-based character column that offset `off` of `s` falls on.
pub open spec fn col_at(s: Seq<char>, off: int) -> int
    decreases off,
{
    if off <= 0 {
        0
    } else if s[off - 1] == '\n' {
        0
    } else {
        col_at(s, off - 1) + 1
    }
}

/// The line/character position of character offset `off` of `s`.
pub open spec fn position_at_spec(s: Seq<char>, off: int) -> Position {
    Position { line: line_at(s, off) as usize, character: col_at(s, off) as usize }
}

/// `off` clamped to the valid offsets of `s`, end-of-text included.
pub open spec fn clamp_offset(s: Seq<char>, off: int) -> int {
    if off <= s.len() {
        off
    } else {
        s.len() as int
    }
}

/// Line and column numbers never exceed the offset they are computed from.
pub proof fn lemma_position_bounds(s: Seq<char>, off: int)
    requires
        0 <= off,
    ensures
        0 <= line_at(s, off) <= off,
        0 <= col_at(s, off) <= off,
    decreases off,
{
    if off > 0 {
        lemma_position_bounds(s, off - 1);
    }
}

/// Computes the line/character position of character offset `offset` within
/// `text`.
pub fn position_at(text: &str, offset: usize) -> (p: Position)
    requires
        offset <= text@.len(),
    ensures
        p == position_at_spec(text@, offset as int),
{
    let mut i: usize = 0;
    let mut line: usize = 0;
    let mut character: usize = 0;
    while i < offset
        invariant
            i <= offset,
            offset <= text@.len(),
            line == line_at(text@, i as int),
            character == col_at(text@, i as int),
        decreases offset - i,
    {
        proof {
            lemma_position_bounds(text@, i as int);
        }
        let c = text.get_char(i);
        if c == '\n' {
            line = line + 1;
            character = 0;
        } else {
            character = character + 1;
        }
        i = i + 1;
    }
    Position { line, character }
}

/// Computes the position of `offset` within `text`, clamping an offset at or
/// past end-of-text to the end-of-text position.
pub fn clamped_position_at(text: &str, offset: usize) -> (p: Position)
    ensures
        p == position_at_spec(text@, clamp_offset(text@, offset as int)),
{
    let n = text.unicode_len();
    if offset <= n {
        position_at(text, offset)
    } else {
        position_at(text, n)
    }
}

/// Computes the character offset that `position` denotes within `text`: the
/// first offset whose line/character position equals it.  A position no
/// offset of the text maps to — one past the last line, or past a line's end
/// — is clamped to end-of-text.
pub fn offset_at(text: &str, position: Position) -> (r: usize)
    ensures
        r <= text@.len(),
        forall|k: int| 0 <= k < r ==> position_at_spec(text@, k) != position,
        r < text@.len() ==> position_at_spec(text@, r as int) == position,
{
    let n = text.unicode_len();
    let mut i: usize = 0;
    let mut line: usize = 0;
    let mut character: usize = 0;
    while i < n
        invariant
            i <= n,
            n == text@.len(),
            line == line_at(text@, i as int),
            character == col_at(text@, i as int),
            forall|k: int| 0 <= k < i ==> position_at_spec(text@, k) != position,
        decreases n - i,
    {
        if line == position.line && character == position.character {
            return i;
        }
        proof {
            lemma_position_bounds(text@, i as int);
        }
        let c = text.get_char(i);
        if c == '\n' {
            line = line + 1;
            character = 0;
        } else {
            character = character + 1;
        }
        i = i + 1;
    }
    n
}

/// Computes the end-of-text position of `text`.
pub fn end_position(text: &str) -> (p: Position)
    ensures
        p == position_at_spec(text@, text@.len() as int),
{
    let n = text.unicode_len();
    position_at(text, n)
}

} // verus!
