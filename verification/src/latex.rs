//! The syntax of LaTeX documents.

use crate::syntax::{as_index, Kind, SyntaxTree, TextRange};
use crate::text::{chars_of, joined, string_of, trim_bounds, trim_end, trimmed};
use vstd::string::StringExecFns;
use vstd::prelude::*;

verus! {

/// The kinds of tokens (up to `TIKZ_LIBRARY_IMPORT_NAME`) and nodes of a
/// LaTeX tree. The kinds from `GENERIC_COMMAND_NAME` to
/// `TIKZ_LIBRARY_IMPORT_NAME` are those of command names.
#[derive(Debug, PartialEq, Eq, Clone, Copy, Hash, PartialOrd, Ord, Structural)]
#[allow(non_camel_case_types)]
pub enum SyntaxKind {
    ERROR,
    MISSING,
    WHITESPACE,
    COMMENT,
    L_CURLY,
    R_CURLY,
    L_BRACK,
    R_BRACK,
    L_PAREN,
    R_PAREN,
    PARAMETER,
    COMMA,
    EQUALITY_SIGN,
    WORD,
    DOLLAR,
    GENERIC_COMMAND_NAME,
    BEGIN_ENVIRONMENT_NAME,
    END_ENVIRONMENT_NAME,
    BEGIN_EQUATION_NAME,
    END_EQUATION_NAME,
    PART_NAME,
    CHAPTER_NAME,
    SECTION_NAME,
    SUBSECTION_NAME,
    SUBSUBSECTION_NAME,
    PARAGRAPH_NAME,
    SUBPARAGRAPH_NAME,
    ENUM_ITEM_NAME,
    CAPTION_NAME,
    CITATION_NAME,
    PACKAGE_INCLUDE_NAME,
    CLASS_INCLUDE_NAME,
    LATEX_INCLUDE_NAME,
    BIBLATEX_INCLUDE_NAME,
    BIBTEX_INCLUDE_NAME,
    GRAPHICS_INCLUDE_NAME,
    SVG_INCLUDE_NAME,
    INKSCAPE_INCLUDE_NAME,
    VERBATIM_INCLUDE_NAME,
    IMPORT_NAME,
    LABEL_DEFINITION_NAME,
    LABEL_REFERENCE_NAME,
    LABEL_REFERENCE_RANGE_NAME,
    LABEL_NUMBER_NAME,
    COMMAND_DEFINITION_NAME,
    MATH_OPERATOR_NAME,
    GLOSSARY_ENTRY_DEFINITION_NAME,
    GLOSSARY_ENTRY_REFERENCE_NAME,
    ACRONYM_DEFINITION_NAME,
    ACRONYM_DECLARATION_NAME,
    ACRONYM_REFERENCE_NAME,
    THEOREM_DEFINITION_NAME,
    COLOR_REFERENCE_NAME,
    COLOR_DEFINITION_NAME,
    COLOR_SET_DEFINITION_NAME,
    TIKZ_LIBRARY_IMPORT_NAME,
    PREAMBLE,
    TEXT,
    KEY,
    VALUE,
    KEY_VALUE_PAIR,
    KEY_VALUE_BODY,
    CURLY_GROUP,
    CURLY_GROUP_WORD,
    CURLY_GROUP_WORD_LIST,
    CURLY_GROUP_COMMAND,
    CURLY_GROUP_KEY_VALUE,
    BRACK_GROUP,
    BRACK_GROUP_WORD,
    BRACK_GROUP_KEY_VALUE,
    PAREN_GROUP,
    MIXED_GROUP,
    GENERIC_COMMAND,
    ENVIRONMENT,
    BEGIN,
    END,
    EQUATION,
    PART,
    CHAPTER,
    SECTION,
    SUBSECTION,
    SUBSUBSECTION,
    PARAGRAPH,
    SUBPARAGRAPH,
    ENUM_ITEM,
    FORMULA,
    CAPTION,
    CITATION,
    PACKAGE_INCLUDE,
    CLASS_INCLUDE,
    LATEX_INCLUDE,
    BIBLATEX_INCLUDE,
    BIBTEX_INCLUDE,
    GRAPHICS_INCLUDE,
    SVG_INCLUDE,
    INKSCAPE_INCLUDE,
    VERBATIM_INCLUDE,
    IMPORT,
    LABEL_DEFINITION,
    LABEL_REFERENCE,
    LABEL_REFERENCE_RANGE,
    LABEL_NUMBER,
    COMMAND_DEFINITION,
    MATH_OPERATOR,
    GLOSSARY_ENTRY_DEFINITION,
    GLOSSARY_ENTRY_REFERENCE,
    ACRONYM_DEFINITION,
    ACRONYM_DECLARATION,
    ACRONYM_REFERENCE,
    THEOREM_DEFINITION,
    COLOR_REFERENCE,
    COLOR_DEFINITION,
    COLOR_SET_DEFINITION,
    TIKZ_LIBRARY_IMPORT,
    ROOT,
}

/// A LaTeX syntax tree.
pub type Tree = SyntaxTree<SyntaxKind>;

impl Kind for SyntaxKind {
    open spec fn code(self) -> u16 {
        match self {
            SyntaxKind::ERROR => 0,
            SyntaxKind::MISSING => 1,
            SyntaxKind::WHITESPACE => 2,
            SyntaxKind::COMMENT => 3,
            SyntaxKind::L_CURLY => 4,
            SyntaxKind::R_CURLY => 5,
            SyntaxKind::L_BRACK => 6,
            SyntaxKind::R_BRACK => 7,
            SyntaxKind::L_PAREN => 8,
            SyntaxKind::R_PAREN => 9,
            SyntaxKind::PARAMETER => 10,
            SyntaxKind::COMMA => 11,
            SyntaxKind::EQUALITY_SIGN => 12,
            SyntaxKind::WORD => 13,
            SyntaxKind::DOLLAR => 14,
            SyntaxKind::GENERIC_COMMAND_NAME => 15,
            SyntaxKind::BEGIN_ENVIRONMENT_NAME => 16,
            SyntaxKind::END_ENVIRONMENT_NAME => 17,
            SyntaxKind::BEGIN_EQUATION_NAME => 18,
            SyntaxKind::END_EQUATION_NAME => 19,
            SyntaxKind::PART_NAME => 20,
            SyntaxKind::CHAPTER_NAME => 21,
            SyntaxKind::SECTION_NAME => 22,
            SyntaxKind::SUBSECTION_NAME => 23,
            SyntaxKind::SUBSUBSECTION_NAME => 24,
            SyntaxKind::PARAGRAPH_NAME => 25,
            SyntaxKind::SUBPARAGRAPH_NAME => 26,
            SyntaxKind::ENUM_ITEM_NAME => 27,
            SyntaxKind::CAPTION_NAME => 28,
            SyntaxKind::CITATION_NAME => 29,
            SyntaxKind::PACKAGE_INCLUDE_NAME => 30,
            SyntaxKind::CLASS_INCLUDE_NAME => 31,
            SyntaxKind::LATEX_INCLUDE_NAME => 32,
            SyntaxKind::BIBLATEX_INCLUDE_NAME => 33,
            SyntaxKind::BIBTEX_INCLUDE_NAME => 34,
            SyntaxKind::GRAPHICS_INCLUDE_NAME => 35,
            SyntaxKind::SVG_INCLUDE_NAME => 36,
            SyntaxKind::INKSCAPE_INCLUDE_NAME => 37,
            SyntaxKind::VERBATIM_INCLUDE_NAME => 38,
            SyntaxKind::IMPORT_NAME => 39,
            SyntaxKind::LABEL_DEFINITION_NAME => 40,
            SyntaxKind::LABEL_REFERENCE_NAME => 41,
            SyntaxKind::LABEL_REFERENCE_RANGE_NAME => 42,
            SyntaxKind::LABEL_NUMBER_NAME => 43,
            SyntaxKind::COMMAND_DEFINITION_NAME => 44,
            SyntaxKind::MATH_OPERATOR_NAME => 45,
            SyntaxKind::GLOSSARY_ENTRY_DEFINITION_NAME => 46,
            SyntaxKind::GLOSSARY_ENTRY_REFERENCE_NAME => 47,
            SyntaxKind::ACRONYM_DEFINITION_NAME => 48,
            SyntaxKind::ACRONYM_DECLARATION_NAME => 49,
            SyntaxKind::ACRONYM_REFERENCE_NAME => 50,
            SyntaxKind::THEOREM_DEFINITION_NAME => 51,
            SyntaxKind::COLOR_REFERENCE_NAME => 52,
            SyntaxKind::COLOR_DEFINITION_NAME => 53,
            SyntaxKind::COLOR_SET_DEFINITION_NAME => 54,
            SyntaxKind::TIKZ_LIBRARY_IMPORT_NAME => 55,
            SyntaxKind::PREAMBLE => 56,
            SyntaxKind::TEXT => 57,
            SyntaxKind::KEY => 58,
            SyntaxKind::VALUE => 59,
            SyntaxKind::KEY_VALUE_PAIR => 60,
            SyntaxKind::KEY_VALUE_BODY => 61,
            SyntaxKind::CURLY_GROUP => 62,
            SyntaxKind::CURLY_GROUP_WORD => 63,
            SyntaxKind::CURLY_GROUP_WORD_LIST => 64,
            SyntaxKind::CURLY_GROUP_COMMAND => 65,
            SyntaxKind::CURLY_GROUP_KEY_VALUE => 66,
            SyntaxKind::BRACK_GROUP => 67,
            SyntaxKind::BRACK_GROUP_WORD => 68,
            SyntaxKind::BRACK_GROUP_KEY_VALUE => 69,
            SyntaxKind::PAREN_GROUP => 70,
            SyntaxKind::MIXED_GROUP => 71,
            SyntaxKind::GENERIC_COMMAND => 72,
            SyntaxKind::ENVIRONMENT => 73,
            SyntaxKind::BEGIN => 74,
            SyntaxKind::END => 75,
            SyntaxKind::EQUATION => 76,
            SyntaxKind::PART => 77,
            SyntaxKind::CHAPTER => 78,
            SyntaxKind::SECTION => 79,
            SyntaxKind::SUBSECTION => 80,
            SyntaxKind::SUBSUBSECTION => 81,
            SyntaxKind::PARAGRAPH => 82,
            SyntaxKind::SUBPARAGRAPH => 83,
            SyntaxKind::ENUM_ITEM => 84,
            SyntaxKind::FORMULA => 85,
            SyntaxKind::CAPTION => 86,
            SyntaxKind::CITATION => 87,
            SyntaxKind::PACKAGE_INCLUDE => 88,
            SyntaxKind::CLASS_INCLUDE => 89,
            SyntaxKind::LATEX_INCLUDE => 90,
            SyntaxKind::BIBLATEX_INCLUDE => 91,
            SyntaxKind::BIBTEX_INCLUDE => 92,
            SyntaxKind::GRAPHICS_INCLUDE => 93,
            SyntaxKind::SVG_INCLUDE => 94,
            SyntaxKind::INKSCAPE_INCLUDE => 95,
            SyntaxKind::VERBATIM_INCLUDE => 96,
            SyntaxKind::IMPORT => 97,
            SyntaxKind::LABEL_DEFINITION => 98,
            SyntaxKind::LABEL_REFERENCE => 99,
            SyntaxKind::LABEL_REFERENCE_RANGE => 100,
            SyntaxKind::LABEL_NUMBER => 101,
            SyntaxKind::COMMAND_DEFINITION => 102,
            SyntaxKind::MATH_OPERATOR => 103,
            SyntaxKind::GLOSSARY_ENTRY_DEFINITION => 104,
            SyntaxKind::GLOSSARY_ENTRY_REFERENCE => 105,
            SyntaxKind::ACRONYM_DEFINITION => 106,
            SyntaxKind::ACRONYM_DECLARATION => 107,
            SyntaxKind::ACRONYM_REFERENCE => 108,
            SyntaxKind::THEOREM_DEFINITION => 109,
            SyntaxKind::COLOR_REFERENCE => 110,
            SyntaxKind::COLOR_DEFINITION => 111,
            SyntaxKind::COLOR_SET_DEFINITION => 112,
            SyntaxKind::TIKZ_LIBRARY_IMPORT => 113,
            SyntaxKind::ROOT => 114,
        }
    }

    fn raw(self) -> (r: u16) {
        match self {
            SyntaxKind::ERROR => 0,
            SyntaxKind::MISSING => 1,
            SyntaxKind::WHITESPACE => 2,
            SyntaxKind::COMMENT => 3,
            SyntaxKind::L_CURLY => 4,
            SyntaxKind::R_CURLY => 5,
            SyntaxKind::L_BRACK => 6,
            SyntaxKind::R_BRACK => 7,
            SyntaxKind::L_PAREN => 8,
            SyntaxKind::R_PAREN => 9,
            SyntaxKind::PARAMETER => 10,
            SyntaxKind::COMMA => 11,
            SyntaxKind::EQUALITY_SIGN => 12,
            SyntaxKind::WORD => 13,
            SyntaxKind::DOLLAR => 14,
            SyntaxKind::GENERIC_COMMAND_NAME => 15,
            SyntaxKind::BEGIN_ENVIRONMENT_NAME => 16,
            SyntaxKind::END_ENVIRONMENT_NAME => 17,
            SyntaxKind::BEGIN_EQUATION_NAME => 18,
            SyntaxKind::END_EQUATION_NAME => 19,
            SyntaxKind::PART_NAME => 20,
            SyntaxKind::CHAPTER_NAME => 21,
            SyntaxKind::SECTION_NAME => 22,
            SyntaxKind::SUBSECTION_NAME => 23,
            SyntaxKind::SUBSUBSECTION_NAME => 24,
            SyntaxKind::PARAGRAPH_NAME => 25,
            SyntaxKind::SUBPARAGRAPH_NAME => 26,
            SyntaxKind::ENUM_ITEM_NAME => 27,
            SyntaxKind::CAPTION_NAME => 28,
            SyntaxKind::CITATION_NAME => 29,
            SyntaxKind::PACKAGE_INCLUDE_NAME => 30,
            SyntaxKind::CLASS_INCLUDE_NAME => 31,
            SyntaxKind::LATEX_INCLUDE_NAME => 32,
            SyntaxKind::BIBLATEX_INCLUDE_NAME => 33,
            SyntaxKind::BIBTEX_INCLUDE_NAME => 34,
            SyntaxKind::GRAPHICS_INCLUDE_NAME => 35,
            SyntaxKind::SVG_INCLUDE_NAME => 36,
            SyntaxKind::INKSCAPE_INCLUDE_NAME => 37,
            SyntaxKind::VERBATIM_INCLUDE_NAME => 38,
            SyntaxKind::IMPORT_NAME => 39,
            SyntaxKind::LABEL_DEFINITION_NAME => 40,
            SyntaxKind::LABEL_REFERENCE_NAME => 41,
            SyntaxKind::LABEL_REFERENCE_RANGE_NAME => 42,
            SyntaxKind::LABEL_NUMBER_NAME => 43,
            SyntaxKind::COMMAND_DEFINITION_NAME => 44,
            SyntaxKind::MATH_OPERATOR_NAME => 45,
            SyntaxKind::GLOSSARY_ENTRY_DEFINITION_NAME => 46,
            SyntaxKind::GLOSSARY_ENTRY_REFERENCE_NAME => 47,
            SyntaxKind::ACRONYM_DEFINITION_NAME => 48,
            SyntaxKind::ACRONYM_DECLARATION_NAME => 49,
            SyntaxKind::ACRONYM_REFERENCE_NAME => 50,
            SyntaxKind::THEOREM_DEFINITION_NAME => 51,
            SyntaxKind::COLOR_REFERENCE_NAME => 52,
            SyntaxKind::COLOR_DEFINITION_NAME => 53,
            SyntaxKind::COLOR_SET_DEFINITION_NAME => 54,
            SyntaxKind::TIKZ_LIBRARY_IMPORT_NAME => 55,
            SyntaxKind::PREAMBLE => 56,
            SyntaxKind::TEXT => 57,
            SyntaxKind::KEY => 58,
            SyntaxKind::VALUE => 59,
            SyntaxKind::KEY_VALUE_PAIR => 60,
            SyntaxKind::KEY_VALUE_BODY => 61,
            SyntaxKind::CURLY_GROUP => 62,
            SyntaxKind::CURLY_GROUP_WORD => 63,
            SyntaxKind::CURLY_GROUP_WORD_LIST => 64,
            SyntaxKind::CURLY_GROUP_COMMAND => 65,
            SyntaxKind::CURLY_GROUP_KEY_VALUE => 66,
            SyntaxKind::BRACK_GROUP => 67,
            SyntaxKind::BRACK_GROUP_WORD => 68,
            SyntaxKind::BRACK_GROUP_KEY_VALUE => 69,
            SyntaxKind::PAREN_GROUP => 70,
            SyntaxKind::MIXED_GROUP => 71,
            SyntaxKind::GENERIC_COMMAND => 72,
            SyntaxKind::ENVIRONMENT => 73,
            SyntaxKind::BEGIN => 74,
            SyntaxKind::END => 75,
            SyntaxKind::EQUATION => 76,
            SyntaxKind::PART => 77,
            SyntaxKind::CHAPTER => 78,
            SyntaxKind::SECTION => 79,
            SyntaxKind::SUBSECTION => 80,
            SyntaxKind::SUBSUBSECTION => 81,
            SyntaxKind::PARAGRAPH => 82,
            SyntaxKind::SUBPARAGRAPH => 83,
            SyntaxKind::ENUM_ITEM => 84,
            SyntaxKind::FORMULA => 85,
            SyntaxKind::CAPTION => 86,
            SyntaxKind::CITATION => 87,
            SyntaxKind::PACKAGE_INCLUDE => 88,
            SyntaxKind::CLASS_INCLUDE => 89,
            SyntaxKind::LATEX_INCLUDE => 90,
            SyntaxKind::BIBLATEX_INCLUDE => 91,
            SyntaxKind::BIBTEX_INCLUDE => 92,
            SyntaxKind::GRAPHICS_INCLUDE => 93,
            SyntaxKind::SVG_INCLUDE => 94,
            SyntaxKind::INKSCAPE_INCLUDE => 95,
            SyntaxKind::VERBATIM_INCLUDE => 96,
            SyntaxKind::IMPORT => 97,
            SyntaxKind::LABEL_DEFINITION => 98,
            SyntaxKind::LABEL_REFERENCE => 99,
            SyntaxKind::LABEL_REFERENCE_RANGE => 100,
            SyntaxKind::LABEL_NUMBER => 101,
            SyntaxKind::COMMAND_DEFINITION => 102,
            SyntaxKind::MATH_OPERATOR => 103,
            SyntaxKind::GLOSSARY_ENTRY_DEFINITION => 104,
            SyntaxKind::GLOSSARY_ENTRY_REFERENCE => 105,
            SyntaxKind::ACRONYM_DEFINITION => 106,
            SyntaxKind::ACRONYM_DECLARATION => 107,
            SyntaxKind::ACRONYM_REFERENCE => 108,
            SyntaxKind::THEOREM_DEFINITION => 109,
            SyntaxKind::COLOR_REFERENCE => 110,
            SyntaxKind::COLOR_DEFINITION => 111,
            SyntaxKind::COLOR_SET_DEFINITION => 112,
            SyntaxKind::TIKZ_LIBRARY_IMPORT => 113,
            SyntaxKind::ROOT => 114,
        }
    }

    proof fn lemma_code_injective(a: Self, b: Self) {
    }
}

impl SyntaxKind {
    /// Whether the kind is that of a command's name.
    pub open spec fn spec_is_command_name(self) -> bool {
        15 <= self.code() <= 55
    }

    /// Whether the kind is that of a command's name.
    #[verifier::when_used_as_spec(spec_is_command_name)]
    pub fn is_command_name(self) -> (r: bool)
        ensures
            r == self.spec_is_command_name(),
    {
        let code = self.raw();
        15 <= code && code <= 55
    }
}

/// The texts of the elements of the given kind that `i` holds directly,
/// from `j` on, in order.
pub open spec fn child_texts_from(tree: &Tree, i: int, j: int, kind: SyntaxKind) -> Seq<Seq<char>>
    decreases tree.size() - j,
{
    match tree.child_from(i, j, kind) {
        Some(c) => if j <= c < tree.size() {
            seq![tree.text_of(c)] + child_texts_from(tree, i, c + 1, kind)
        } else {
            Seq::empty()
        },
        None => Seq::empty(),
    }
}

/// The text of a key: its words, with one blank between each two.
pub open spec fn key_text_of(tree: &Tree, key: int) -> Seq<char> {
    joined(child_texts_from(tree, key, key + 1, SyntaxKind::WORD), " "@)
}

/// The range of a node without the blanks and comments at its end.
pub open spec fn small_range_of(tree: &Tree, i: int) -> TextRange {
    tree.small_range_of(i, SyntaxKind::WHITESPACE, SyntaxKind::COMMENT)
}

/// The range of a node without the blanks and comments at its end.
pub fn small_range(tree: &Tree, i: usize) -> (r: TextRange)
    requires
        i < tree.size(),
    ensures
        r == small_range_of(tree, i as int),
{
    tree.small_range(i, SyntaxKind::WHITESPACE, SyntaxKind::COMMENT)
}

/// The text of a key: its words, with one blank between each two.
pub fn key_text(tree: &Tree, key: usize) -> (r: String)
    requires
        key < tree.size(),
    ensures
        r@ == key_text_of(tree, key as int),
{
    let mut out = String::new();
    let n = tree.len();
    let mut from: usize = key + 1;
    let mut first = true;
    let ghost mut done: Seq<Seq<char>> = Seq::empty();
    loop
        invariant
            key < from <= n == tree.size(),
            key < tree.size(),
            first == (done.len() == 0),
            out@ == joined(done, " "@),
            done + child_texts_from(tree, key as int, from as int, SyntaxKind::WORD)
                == child_texts_from(tree, key as int, key + 1, SyntaxKind::WORD),
        ensures
            out@ == key_text_of(tree, key as int),
        decreases tree.size() + 1 - from,
    {
        match tree.next_child(key, from, SyntaxKind::WORD) {
            Some(c) => {
                let word = tree.text(c);
                proof {
                    let rest = child_texts_from(tree, key as int, c + 1, SyntaxKind::WORD);
                    assert(done + (seq![word@] + rest) =~= done.push(word@) + rest);
                    assert(done.push(word@).drop_last() =~= done);
                    assert(Seq::<char>::empty() + word@ =~= word@);
                }
                if !first {
                    out.append(" ");
                }
                out.append(word.as_str());
                proof {
                    done = done.push(word@);
                }
                first = false;
                from = c + 1;
            },
            None => {
                proof {
                    assert(done + Seq::<Seq<char>>::empty() =~= done);
                }
                break ;
            },
        }
    }
    out
}

/// The key that names an environment: the key in the braces after `\begin`.
pub open spec fn environment_name_key(tree: &Tree, environment: int) -> Option<int> {
    tree.first_child_opt(
        tree.first_child_opt(
            tree.first_child(environment, SyntaxKind::BEGIN),
            SyntaxKind::CURLY_GROUP_WORD,
        ),
        SyntaxKind::KEY,
    )
}

/// The word that names an environment: the word in the braces after
/// `\begin`.
pub open spec fn environment_name_word(tree: &Tree, environment: int) -> Option<int> {
    tree.first_child_opt(
        tree.first_child_opt(
            tree.first_child(environment, SyntaxKind::BEGIN),
            SyntaxKind::CURLY_GROUP_WORD,
        ),
        SyntaxKind::WORD,
    )
}

/// The word that names an environment.
pub fn environment_word(tree: &Tree, environment: usize) -> (r: Option<usize>)
    requires
        environment < tree.size(),
    ensures
        as_index(r) == environment_name_word(tree, environment as int),
        r matches Some(w) ==> w < tree.size(),
{
    let begin = tree.child(environment, SyntaxKind::BEGIN);
    let group = tree.child_opt(begin, SyntaxKind::CURLY_GROUP_WORD);
    tree.child_opt(group, SyntaxKind::WORD)
}

/// The text of the tokens `from .. to` that are no comments, joined.
pub open spec fn plain_text_between(tree: &Tree, from: int, to: int) -> Seq<char>
    decreases to - from,
{
    if from >= to {
        Seq::empty()
    } else if tree.kind_of(to - 1) == SyntaxKind::COMMENT {
        plain_text_between(tree, from, to - 1)
    } else {
        plain_text_between(tree, from, to - 1) + tree.token_text(to - 1)
    }
}

/// The text of an element without its comments.
pub fn plain_text(tree: &Tree, i: usize) -> (t: String)
    requires
        i < tree.size(),
    ensures
        t@ == plain_text_between(tree, i as int, tree.subtree_end(i as int)),
{
    let e = tree.end(i);
    let mut out = String::new();
    let mut j: usize = i;
    while j < e
        invariant
            i <= j <= e <= tree.size(),
            out@ == plain_text_between(tree, i as int, j as int),
        decreases e - j,
    {
        if tree.kind(j) != SyntaxKind::COMMENT {
            let text = tree.own_text(j);
            out.append(text.as_str());
        }
        j += 1;
    }
    out
}

/// The text between the braces of a group, trimmed: the text of the group
/// without its comments and without the blanks at its end, then without its
/// first and last character and without the blanks around what is left.
/// `None` where the group lacks a brace.
pub open spec fn content_text_of(tree: &Tree, group: int) -> Option<Seq<char>> {
    let text = trim_end(plain_text_between(tree, group, tree.subtree_end(group)));
    if tree.first_child(group, SyntaxKind::L_CURLY) is Some && tree.first_child(
        group,
        SyntaxKind::R_CURLY,
    ) is Some && text.len() >= 2 {
        Some(trimmed(text.subrange(1, text.len() - 1)))
    } else {
        None
    }
}

/// The text between the braces of a group, trimmed.
pub fn content_text(tree: &Tree, group: usize) -> (r: Option<String>)
    requires
        group < tree.size(),
    ensures
        crate::text::opt_text(r) == content_text_of(tree, group as int),
{
    if tree.child(group, SyntaxKind::L_CURLY).is_none() {
        return None;
    }
    if tree.child(group, SyntaxKind::R_CURLY).is_none() {
        return None;
    }
    let text = plain_text(tree, group);
    let chars = chars_of(text.as_str());
    let end = crate::text::trim_end_bound(&chars);
    if end < 2 {
        return None;
    }
    let inner = string_of(&chars, 1, end - 1);
    let inner_chars = chars_of(inner.as_str());
    let (lo, hi) = trim_bounds(&inner_chars);
    proof {
        assert(chars@.subrange(0, end as int).subrange(1, end - 1) =~= chars@.subrange(
            1,
            end - 1,
        ));
    }
    Some(string_of(&inner_chars, lo, hi))
}

/// The node that holds element `i`, where there is an `i` and that node is
/// of the given kind.
pub open spec fn parent_of_kind(tree: &Tree, i: Option<int>, kind: SyntaxKind) -> Option<int> {
    match i {
        Some(x) => match tree.parent_of(x) {
            Some(p) => if 0 <= p < tree.size() && tree.kind_of(p) == kind {
                Some(p)
            } else {
                None
            },
            None => None,
        },
        None => None,
    }
}

/// The node that holds element `i`, where that node is of the given kind.
pub fn parent_cast(tree: &Tree, i: Option<usize>, kind: SyntaxKind) -> (r: Option<usize>)
    requires
        i matches Some(x) ==> x < tree.size(),
    ensures
        as_index(r) == parent_of_kind(tree, as_index(i), kind),
        r matches Some(p) ==> p < tree.size() && tree.kind_of(p as int) == kind,
{
    match i {
        Some(x) => match tree.parent(x) {
            Some(p) => if tree.kind(p) == kind {
                Some(p)
            } else {
                None
            },
            None => None,
        },
        None => None,
    }
}

/// The node that holds element `i`, where there is an `i`.
pub open spec fn parent_opt(tree: &Tree, i: Option<int>) -> Option<int> {
    match i {
        Some(x) => tree.parent_of(x),
        None => None,
    }
}

/// The node that holds element `i`, where there is an `i`.
pub fn parent_of_opt(tree: &Tree, i: Option<usize>) -> (r: Option<usize>)
    requires
        i matches Some(x) ==> x < tree.size(),
    ensures
        as_index(r) == parent_opt(tree, as_index(i)),
        r matches Some(p) ==> p < tree.size(),
{
    match i {
        Some(x) => tree.parent(x),
        None => None,
    }
}

/// A key's text and range, where there is a key.
pub open spec fn key_entry(tree: &Tree, key: Option<int>) -> Option<(Seq<char>, TextRange)> {
    match key {
        Some(k) => Some((key_text_of(tree, k), small_range_of(tree, k))),
        None => None,
    }
}

/// What a name with its range holds.
pub open spec fn entry_view(r: Option<(String, TextRange)>) -> Option<(Seq<char>, TextRange)> {
    match r {
        Some((name, range)) => Some((name@, range)),
        None => None,
    }
}

/// A key's text and range, where there is a key.
pub fn key_and_range(tree: &Tree, key: Option<usize>) -> (r: Option<(String, TextRange)>)
    requires
        key matches Some(k) ==> k < tree.size(),
    ensures
        entry_view(r) == key_entry(tree, as_index(key)),
{
    match key {
        Some(k) => Some((key_text(tree, k), small_range(tree, k))),
        None => None,
    }
}

} // verus!
