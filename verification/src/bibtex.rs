//! The syntax of BibTeX documents.

use crate::syntax::{as_index, Kind, SyntaxTree};
use vstd::prelude::*;

verus! {

/// The kinds of tokens (up to `COMMAND_NAME`) and nodes of a BibTeX tree.
#[derive(Debug, PartialEq, Eq, Clone, Copy, Hash, PartialOrd, Ord, Structural)]
#[allow(non_camel_case_types)]
pub enum SyntaxKind {
    ERROR,
    MISSING,
    WHITESPACE,
    PREAMBLE_TYPE,
    STRING_TYPE,
    COMMENT_TYPE,
    ENTRY_TYPE,
    WORD,
    L_CURLY,
    R_CURLY,
    L_PAREN,
    R_PAREN,
    COMMA,
    HASH,
    QUOTE,
    EQUALITY_SIGN,
    NUMBER,
    COMMAND_NAME,
    JUNK,
    PREAMBLE,
    STRING,
    COMMENT,
    ENTRY,
    FIELD,
    VALUE,
    TOKEN,
    BRACE_GROUP,
    QUOTE_GROUP,
    ROOT,
}

/// A BibTeX syntax tree.
pub type Tree = SyntaxTree<SyntaxKind>;

impl Kind for SyntaxKind {
    open spec fn code(self) -> u16 {
        match self {
            SyntaxKind::ERROR => 0,
            SyntaxKind::MISSING => 1,
            SyntaxKind::WHITESPACE => 2,
            SyntaxKind::PREAMBLE_TYPE => 3,
            SyntaxKind::STRING_TYPE => 4,
            SyntaxKind::COMMENT_TYPE => 5,
            SyntaxKind::ENTRY_TYPE => 6,
            SyntaxKind::WORD => 7,
            SyntaxKind::L_CURLY => 8,
            SyntaxKind::R_CURLY => 9,
            SyntaxKind::L_PAREN => 10,
            SyntaxKind::R_PAREN => 11,
            SyntaxKind::COMMA => 12,
            SyntaxKind::HASH => 13,
            SyntaxKind::QUOTE => 14,
            SyntaxKind::EQUALITY_SIGN => 15,
            SyntaxKind::NUMBER => 16,
            SyntaxKind::COMMAND_NAME => 17,
            SyntaxKind::JUNK => 18,
            SyntaxKind::PREAMBLE => 19,
            SyntaxKind::STRING => 20,
            SyntaxKind::COMMENT => 21,
            SyntaxKind::ENTRY => 22,
            SyntaxKind::FIELD => 23,
            SyntaxKind::VALUE => 24,
            SyntaxKind::TOKEN => 25,
            SyntaxKind::BRACE_GROUP => 26,
            SyntaxKind::QUOTE_GROUP => 27,
            SyntaxKind::ROOT => 28,
        }
    }

    fn raw(self) -> (r: u16) {
        match self {
            SyntaxKind::ERROR => 0,
            SyntaxKind::MISSING => 1,
            SyntaxKind::WHITESPACE => 2,
            SyntaxKind::PREAMBLE_TYPE => 3,
            SyntaxKind::STRING_TYPE => 4,
            SyntaxKind::COMMENT_TYPE => 5,
            SyntaxKind::ENTRY_TYPE => 6,
            SyntaxKind::WORD => 7,
            SyntaxKind::L_CURLY => 8,
            SyntaxKind::R_CURLY => 9,
            SyntaxKind::L_PAREN => 10,
            SyntaxKind::R_PAREN => 11,
            SyntaxKind::COMMA => 12,
            SyntaxKind::HASH => 13,
            SyntaxKind::QUOTE => 14,
            SyntaxKind::EQUALITY_SIGN => 15,
            SyntaxKind::NUMBER => 16,
            SyntaxKind::COMMAND_NAME => 17,
            SyntaxKind::JUNK => 18,
            SyntaxKind::PREAMBLE => 19,
            SyntaxKind::STRING => 20,
            SyntaxKind::COMMENT => 21,
            SyntaxKind::ENTRY => 22,
            SyntaxKind::FIELD => 23,
            SyntaxKind::VALUE => 24,
            SyntaxKind::TOKEN => 25,
            SyntaxKind::BRACE_GROUP => 26,
            SyntaxKind::QUOTE_GROUP => 27,
            SyntaxKind::ROOT => 28,
        }
    }

    proof fn lemma_code_injective(a: Self, b: Self) {
    }
}

impl SyntaxKind {
    /// Whether the kind is that of a type token: `@preamble`, `@string`,
    /// `@comment` or the type of an entry.
    pub open spec fn spec_is_type(self) -> bool {
        self == SyntaxKind::PREAMBLE_TYPE || self == SyntaxKind::STRING_TYPE || self
            == SyntaxKind::COMMENT_TYPE || self == SyntaxKind::ENTRY_TYPE
    }

    /// Whether the kind is that of a type token.
    #[verifier::when_used_as_spec(spec_is_type)]
    pub fn is_type(self) -> (r: bool)
        ensures
            r == self.spec_is_type(),
    {
        match self {
            SyntaxKind::PREAMBLE_TYPE
            | SyntaxKind::STRING_TYPE
            | SyntaxKind::COMMENT_TYPE
            | SyntaxKind::ENTRY_TYPE => true,
            _ => false,
        }
    }
}

/// The kinds of an opening delimiter.
pub open spec fn left_delimiters() -> Seq<SyntaxKind> {
    seq![SyntaxKind::L_CURLY, SyntaxKind::L_PAREN]
}

/// The kinds of a closing delimiter.
pub open spec fn right_delimiters() -> Seq<SyntaxKind> {
    seq![SyntaxKind::R_CURLY, SyntaxKind::R_PAREN]
}

/// The kinds of a type token.
pub open spec fn type_kinds() -> Seq<SyntaxKind> {
    seq![
        SyntaxKind::PREAMBLE_TYPE,
        SyntaxKind::STRING_TYPE,
        SyntaxKind::COMMENT_TYPE,
        SyntaxKind::ENTRY_TYPE,
    ]
}

/// The opening delimiter of an entry, string or preamble.
pub fn left_delimiter(tree: &Tree, i: usize) -> (c: Option<usize>)
    requires
        i < tree.size(),
    ensures
        as_index(c) == tree.first_child_among(i as int, left_delimiters()),
        c matches Some(x) ==> x < tree.size(),
{
    let kinds = vec![SyntaxKind::L_CURLY, SyntaxKind::L_PAREN];
    proof {
        assert(kinds@ =~= left_delimiters());
    }
    tree.child_among(i, &kinds)
}

/// The closing delimiter of an entry, string or preamble.
pub fn right_delimiter(tree: &Tree, i: usize) -> (c: Option<usize>)
    requires
        i < tree.size(),
    ensures
        as_index(c) == tree.first_child_among(i as int, right_delimiters()),
        c matches Some(x) ==> x < tree.size(),
{
    let kinds = vec![SyntaxKind::R_CURLY, SyntaxKind::R_PAREN];
    proof {
        assert(kinds@ =~= right_delimiters());
    }
    tree.child_among(i, &kinds)
}

/// The type token of an entry, string, preamble or comment.
pub fn type_token(tree: &Tree, i: usize) -> (c: Option<usize>)
    requires
        i < tree.size(),
    ensures
        as_index(c) == tree.first_child_among(i as int, type_kinds()),
        c matches Some(x) ==> x < tree.size(),
{
    let kinds = vec![
        SyntaxKind::PREAMBLE_TYPE,
        SyntaxKind::STRING_TYPE,
        SyntaxKind::COMMENT_TYPE,
        SyntaxKind::ENTRY_TYPE,
    ];
    proof {
        assert(kinds@ =~= type_kinds());
    }
    tree.child_among(i, &kinds)
}

} // verus!
