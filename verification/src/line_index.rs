//! Byte offsets in a text against positions as an editor counts them: a
//! line, and a column in UTF-16 units.

use crate::syntax::TextRange;
use crate::text::{
    char_len_utf16, char_len_utf8, chars_of, len_utf16, len_utf8, lemma_utf8_len_prefix, utf8_len,
};
use vstd::prelude::*;

verus! {

/// A place in a text: a line, counted from 0, and a column in UTF-16 units.
#[derive(Debug, PartialEq, Eq, Clone, Copy, Structural)]
pub struct Position {
    pub line: u32,
    pub character: u32,
}

/// A stretch of a text between two positions.
#[derive(Debug, PartialEq, Eq, Clone, Copy, Structural)]
pub struct Range {
    pub start: Position,
    pub end: Position,
}

impl Position {
    /// The position at the given line and column.
    pub fn new(line: u32, character: u32) -> (p: Position)
        ensures
            p == (Position { line, character }),
    {
        Position { line, character }
    }
}

impl Range {
    /// The range between two positions.
    pub fn new(start: Position, end: Position) -> (r: Range)
        ensures
            r == (Range { start, end }),
    {
        Range { start, end }
    }

    /// The range between two positions, each given by line and column.
    pub fn new_simple(
        start_line: u32,
        start_character: u32,
        end_line: u32,
        end_character: u32,
    ) -> (r: Range)
        ensures
            r == (Range {
                start: Position { line: start_line, character: start_character },
                end: Position { line: end_line, character: end_character },
            }),
    {
        Range {
            start: Position { line: start_line, character: start_character },
            end: Position { line: end_line, character: end_character },
        }
    }
}

/// The line and column reached by walking on from character `k`, which
/// stands at byte `at`, line `line` and column `col`, up to byte `offset`.
pub open spec fn position_walk(
    text: Seq<char>,
    k: int,
    at: nat,
    line: nat,
    col: nat,
    offset: nat,
) -> (nat, nat)
    decreases text.len() - k,
{
    if k < 0 || k >= text.len() || at >= offset {
        (line, col)
    } else if text[k] == '\n' {
        position_walk(text, k + 1, at + 1, line + 1, 0, offset)
    } else {
        position_walk(
            text,
            k + 1,
            at + char_len_utf8(text[k]),
            line,
            col + char_len_utf16(text[k]),
            offset,
        )
    }
}

/// The line and column of the first character that starts at or after byte
/// `offset`; the end of the text where there is none.
pub open spec fn position_at(text: Seq<char>, offset: nat) -> (nat, nat) {
    position_walk(text, 0, 0, 0, 0, offset)
}

/// The position of a byte offset.
pub open spec fn lsp_position(text: Seq<char>, offset: u32) -> Position {
    Position {
        line: position_at(text, offset as nat).0 as u32,
        character: position_at(text, offset as nat).1 as u32,
    }
}

/// The positions of the two ends of a range of bytes.
pub open spec fn lsp_range(text: Seq<char>, range: TextRange) -> Range {
    Range { start: lsp_position(text, range.start), end: lsp_position(text, range.end) }
}

/// The index of the character reached by walking on from character `k`,
/// which stands at line `line` and column `col`, up to the given line and
/// column.
pub open spec fn index_walk(
    text: Seq<char>,
    k: int,
    line: nat,
    col: nat,
    to_line: nat,
    to_col: nat,
) -> int
    decreases text.len() - k,
{
    if k < 0 || k >= text.len() {
        k
    } else if line >= to_line && (col >= to_col || text[k] == '\n') {
        k
    } else if text[k] == '\n' {
        index_walk(text, k + 1, line + 1, 0, to_line, to_col)
    } else {
        index_walk(text, k + 1, line, col + char_len_utf16(text[k]), to_line, to_col)
    }
}

/// The index of the character at a position. A column past the end of its
/// line stands for the end of that line, a line past the last one for the
/// end of the text.
pub open spec fn char_index_at(text: Seq<char>, position: Position) -> int {
    index_walk(text, 0, 0, 0, position.line as nat, position.character as nat)
}

/// The walk to a position ends inside the text.
pub proof fn lemma_index_walk_bounds(
    text: Seq<char>,
    k: int,
    line: nat,
    col: nat,
    to_line: nat,
    to_col: nat,
)
    requires
        0 <= k <= text.len(),
    ensures
        k <= index_walk(text, k, line, col, to_line, to_col) <= text.len(),
    decreases text.len() - k,
{
    if k < text.len() && !(line >= to_line && (col >= to_col || text[k] == '\n')) {
        if text[k] == '\n' {
            lemma_index_walk_bounds(text, k + 1, line + 1, 0, to_line, to_col);
        } else {
            lemma_index_walk_bounds(
                text,
                k + 1,
                line,
                col + char_len_utf16(text[k]),
                to_line,
                to_col,
            );
        }
    }
}

/// A text, kept for looking up positions. Its length in bytes fits a `u32`.
pub struct LineIndex {
    chars: Vec<char>,
}

impl LineIndex {
    #[verifier::type_invariant]
    spec fn fits(self) -> bool {
        utf8_len(self.chars@) <= u32::MAX
    }

    /// The text.
    pub closed spec fn text(&self) -> Seq<char> {
        self.chars@
    }

    /// The index of a text, where the text is at most `u32::MAX` bytes long.
    pub fn new(text: &str) -> (r: Option<LineIndex>)
        ensures
            r is Some <==> utf8_len(text@) <= u32::MAX,
            r matches Some(index) ==> index.text() == text@,
    {
        match crate::text::byte_len(text) {
            Some(_) => Some(LineIndex { chars: chars_of(text) }),
            None => None,
        }
    }

    /// The length of the text in bytes.
    pub fn byte_len(&self) -> (n: u32)
        ensures
            n == utf8_len(self.text()),
    {
        proof {
            use_type_invariant(self);
        }
        let mut at: u32 = 0;
        let mut k: usize = 0;
        proof {
            assert(self.chars@.take(0) =~= Seq::empty());
        }
        while k < self.chars.len()
            invariant
                k <= self.chars.len(),
                utf8_len(self.chars@) <= u32::MAX,
                at == utf8_len(self.chars@.take(k as int)),
            decreases self.chars.len() - k,
        {
            proof {
                assert(self.chars@.take(k + 1).drop_last() =~= self.chars@.take(k as int));
                lemma_utf8_len_prefix(self.chars@, k + 1);
            }
            at = at + len_utf8(self.chars[k]);
            k += 1;
        }
        proof {
            assert(self.chars@.take(self.chars.len() as int) =~= self.chars@);
        }
        at
    }

    /// The position of a byte offset.
    pub fn line_col_lsp(&self, offset: u32) -> (p: Position)
        ensures
            (p.line as nat, p.character as nat) == position_at(self.text(), offset as nat),
            p == lsp_position(self.text(), offset),
    {
        proof {
            use_type_invariant(self);
        }
        let mut k: usize = 0;
        let mut at: u32 = 0;
        let mut line: u32 = 0;
        let mut col: u32 = 0;
        proof {
            assert(self.chars@.take(0) =~= Seq::empty());
        }
        while k < self.chars.len() && at < offset
            invariant
                k <= self.chars.len(),
                utf8_len(self.chars@) <= u32::MAX,
                at == utf8_len(self.chars@.take(k as int)),
                line + col <= at,
                position_walk(
                    self.chars@,
                    k as int,
                    at as nat,
                    line as nat,
                    col as nat,
                    offset as nat,
                ) == position_at(self.chars@, offset as nat),
            decreases self.chars.len() - k,
        {
            let c = self.chars[k];
            proof {
                assert(self.chars@.take(k + 1).drop_last() =~= self.chars@.take(k as int));
                lemma_utf8_len_prefix(self.chars@, k + 1);
            }
            if c == '\n' {
                line = line + 1;
                col = 0;
                at = at + 1;
            } else {
                col = col + len_utf16(c);
                at = at + len_utf8(c);
            }
            k += 1;
        }
        Position { line, character: col }
    }

    /// The positions of the two ends of a range of bytes.
    pub fn line_col_lsp_range(&self, range: TextRange) -> (r: Range)
        ensures
            r == lsp_range(self.text(), range),
    {
        Range { start: self.line_col_lsp(range.start), end: self.line_col_lsp(range.end) }
    }

    /// The index of the character at a position, and the byte offset at
    /// which it starts.
    pub fn locate(&self, position: Position) -> (r: (usize, u32))
        ensures
            r.0 == char_index_at(self.text(), position),
            r.0 <= self.text().len(),
            r.1 == utf8_len(self.text().take(r.0 as int)),
    {
        proof {
            use_type_invariant(self);
            lemma_index_walk_bounds(
                self.chars@,
                0,
                0,
                0,
                position.line as nat,
                position.character as nat,
            );
        }
        let mut k: usize = 0;
        let mut at: u32 = 0;
        let mut line: u32 = 0;
        let mut col: u32 = 0;
        proof {
            assert(self.chars@.take(0) =~= Seq::empty());
        }
        while k < self.chars.len() && !(line >= position.line && (col >= position.character
            || self.chars[k] == '\n'))
            invariant
                k <= self.chars.len(),
                utf8_len(self.chars@) <= u32::MAX,
                at == utf8_len(self.chars@.take(k as int)),
                line + col <= at,
                index_walk(
                    self.chars@,
                    k as int,
                    line as nat,
                    col as nat,
                    position.line as nat,
                    position.character as nat,
                ) == char_index_at(self.chars@, position),
            decreases self.chars.len() - k,
        {
            let c = self.chars[k];
            proof {
                assert(self.chars@.take(k + 1).drop_last() =~= self.chars@.take(k as int));
                lemma_utf8_len_prefix(self.chars@, k + 1);
            }
            if c == '\n' {
                line = line + 1;
                col = 0;
                at = at + 1;
            } else {
                col = col + len_utf16(c);
                at = at + len_utf8(c);
            }
            k += 1;
        }
        (k, at)
    }

    /// The byte offset of a position.
    pub fn offset_lsp(&self, position: Position) -> (offset: u32)
        ensures
            offset == utf8_len(self.text().take(char_index_at(self.text(), position))),
    {
        self.locate(position).1
    }

    /// The byte offsets of the two ends of a range.
    pub fn offset_lsp_range(&self, range: Range) -> (r: TextRange)
        ensures
            r.start == utf8_len(self.text().take(char_index_at(self.text(), range.start))),
            r.end == utf8_len(self.text().take(char_index_at(self.text(), range.end))),
    {
        TextRange { start: self.offset_lsp(range.start), end: self.offset_lsp(range.end) }
    }
}

} // verus!
