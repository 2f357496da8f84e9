//! What to show for a position in a bibliography.

use crate::bibtex::{self, SyntaxKind};
use crate::cancel::is_canceled;
use crate::document::{Document, DocumentData};
use crate::features::{FeatureRequest, HoverParams};
use crate::language::LanguageData;
use crate::line_index::{char_index_at, lsp_range, Position};
use crate::protocol::{Hover, MarkupContent, MarkupKind};
use crate::text::{chars_of, str_eq, string_of, utf8_len};
use cancellation::CancellationToken;
use vstd::prelude::*;

verus! {

/// What a hover holds.
pub ghost struct HoverView {
    pub kind: MarkupKind,
    pub value: Seq<char>,
    pub range: Option<crate::line_index::Range>,
}

/// What an optional hover holds.
pub open spec fn hover_view(h: Option<Hover>) -> Option<HoverView> {
    match h {
        Some(h) => Some(
            HoverView { kind: h.contents.kind, value: h.contents.value@, range: h.range },
        ),
        None => None,
    }
}

/// The byte offset of a position in a document.
pub open spec fn offset_in(doc: Document, position: Position) -> u32 {
    utf8_len(doc.line_index.text().take(char_index_at(doc.line_index.text(), position))) as u32
}

/// What to show for a type at `offset`: where the token to the right of the
/// offset is a type, what is known of the type of that name (the token's
/// text without its first character), as Markdown.
pub open spec fn entry_type_hover(doc: Document, language: &LanguageData, offset: u32) -> Option<
    HoverView,
> {
    match doc.data {
        DocumentData::Bibtex(data) => match data.root.right_biased(offset) {
            Some(t) => if data.root.kind_of(t).is_type() && data.root.token_text(t).len() > 0 {
                match language.documentation_of(data.root.token_text(t).drop_first()) {
                    Some(docs) => Some(
                        HoverView {
                            kind: MarkupKind::Markdown,
                            value: docs,
                            range: Some(lsp_range(doc.line_index.text(), data.root.range_of(t))),
                        },
                    ),
                    None => None,
                }
            } else {
                None
            },
            None => None,
        },
        _ => None,
    }
}

/// What to show for the type of an entry, string, preamble or comment at the
/// position.
pub fn find_entry_type_hover(
    request: &FeatureRequest<HoverParams>,
    language: &LanguageData,
    _token: &CancellationToken,
) -> (r: Option<Hover>)
    requires
        request.well_formed(),
    ensures
        hover_view(r) == entry_type_hover(
            *request.subset.documents@[0],
            language,
            offset_in(
                *request.subset.documents@[0],
                request.params.text_document_position_params.position,
            ),
        ),
{
    let main_document = request.main_document();
    let data = match main_document.data.as_bibtex() {
        Some(data) => data,
        None => {
            return None;
        },
    };
    let offset = main_document.line_index.offset_lsp(
        request.params.text_document_position_params.position,
    );
    let name = match data.root.token_at_offset(offset).1 {
        Some(t) => t,
        None => {
            return None;
        },
    };
    if !data.root.kind(name).is_type() {
        return None;
    }
    let text = data.root.own_text(name);
    let chars = chars_of(text.as_str());
    if chars.len() == 0 {
        return None;
    }
    let bare = string_of(&chars, 1, chars.len());
    proof {
        assert(chars@.subrange(1, chars.len() as int) =~= text@.drop_first());
    }
    let docs = match language.entry_type_documentation(bare.as_str()) {
        Some(docs) => docs,
        None => {
            return None;
        },
    };
    Some(
        Hover {
            contents: MarkupContent { kind: MarkupKind::Markdown, value: docs },
            range: Some(main_document.line_index.line_col_lsp_range(data.root.range(name))),
        },
    )
}

/// Whether node `i` is a string definition named `name`.
pub open spec fn defines_string(tree: &bibtex::Tree, i: int, name: Seq<char>) -> bool {
    tree.first_child(i, SyntaxKind::WORD) matches Some(w) && tree.token_text(w) == name
}

/// The first string definition named `name` among those that the root holds
/// from `j` on.
pub open spec fn string_from(tree: &bibtex::Tree, j: int, name: Seq<char>) -> Option<int>
    decreases tree.size() - j,
{
    match tree.child_from(0, j, SyntaxKind::STRING) {
        Some(s) => if j <= s < tree.size() {
            if defines_string(tree, s, name) {
                Some(s)
            } else {
                string_from(tree, s + 1, name)
            }
        } else {
            None
        },
        None => None,
    }
}

/// Whether token `t` can stand for a string: a word in a value or in a
/// string definition.
pub open spec fn is_string_name(tree: &bibtex::Tree, t: int) -> bool {
    tree.kind_of(t) == SyntaxKind::WORD && (tree.parent_of(t) matches Some(p) && 0 <= p
        < tree.size() && (tree.kind_of(p) == SyntaxKind::TOKEN || tree.kind_of(p)
        == SyntaxKind::STRING))
}

/// What to show for a string at `offset`: where the token to the right of
/// the offset can stand for a string and the bibliography defines that
/// string with a value, the value as plain text.
pub open spec fn string_reference_hover(doc: Document, offset: u32) -> Option<HoverView> {
    match doc.data {
        DocumentData::Bibtex(data) => match data.root.right_biased(offset) {
            Some(t) => if is_string_name(&data.root, t) {
                match string_from(&data.root, 1, data.root.token_text(t)) {
                    Some(s) => match data.root.first_child(s, SyntaxKind::VALUE) {
                        Some(v) => Some(
                            HoverView {
                                kind: MarkupKind::PlainText,
                                value: data.root.text_of(v),
                                range: Some(
                                    lsp_range(doc.line_index.text(), data.root.range_of(t)),
                                ),
                            },
                        ),
                        None => None,
                    },
                    None => None,
                }
            } else {
                None
            },
            None => None,
        },
        _ => None,
    }
}

/// What to show for a reference to a string at the position. `None` also
/// where cancellation was asked for before the string was found.
#[verifier::loop_isolation(false)]
pub fn find_string_reference_hover(
    request: &FeatureRequest<HoverParams>,
    token: &CancellationToken,
) -> (r: Option<Hover>)
    requires
        request.well_formed(),
    ensures
        r is Some ==> hover_view(r) == string_reference_hover(
            *request.subset.documents@[0],
            offset_in(
                *request.subset.documents@[0],
                request.params.text_document_position_params.position,
            ),
        ),
        string_reference_hover(
            *request.subset.documents@[0],
            offset_in(
                *request.subset.documents@[0],
                request.params.text_document_position_params.position,
            ),
        ) is None ==> r is None,
{
    let main_document = request.main_document();
    let data = match main_document.data.as_bibtex() {
        Some(data) => data,
        None => {
            return None;
        },
    };
    let tree = &data.root;
    let offset = main_document.line_index.offset_lsp(
        request.params.text_document_position_params.position,
    );
    let name = match tree.token_at_offset(offset).1 {
        Some(t) => t,
        None => {
            return None;
        },
    };
    if tree.kind(name) != SyntaxKind::WORD {
        return None;
    }
    match tree.parent(name) {
        Some(p) => {
            let kind = tree.kind(p);
            if kind != SyntaxKind::TOKEN && kind != SyntaxKind::STRING {
                return None;
            }
        },
        None => {
            return None;
        },
    }
    let wanted = tree.own_text(name);
    let n = tree.len();
    if n == 0 {
        return None;
    }
    let mut from: usize = 1;
    loop
        invariant
            0 < from <= n == tree.size(),
            name < tree.size(),
            wanted@ == tree.token_text(name as int),
            string_from(tree, from as int, wanted@) == string_from(tree, 1, wanted@),
        decreases n + 1 - from,
    {
        let string = match tree.next_child(0, from, SyntaxKind::STRING) {
            Some(s) => s,
            None => {
                return None;
            },
        };
        let canceled = is_canceled(token);
        match look_at_string(tree, &main_document.line_index, name, string, canceled) {
            StringLookup::End { hover } => {
                return hover;
            },
            StringLookup::GoOn => {},
        }
        from = string + 1;
    }
}

/// What looking at one string definition gives to the search for a string.
pub enum StringLookup {
    /// The definition is not the one looked for: the search goes on.
    GoOn,
    /// The search is over, with a hover or without one.
    End { hover: Option<Hover> },
}

/// What a [`StringLookup`] holds: `None` where the search goes on, else how
/// it ends.
pub open spec fn lookup_view(lookup: StringLookup) -> Option<Option<HoverView>> {
    match lookup {
        StringLookup::GoOn => None,
        StringLookup::End { hover } => Some(hover_view(hover)),
    }
}

/// What the string definition `string` gives to the search for the string
/// that token `name` names, given whether cancellation had been asked for
/// when the definition was come to. Cancellation ends the search without a
/// hover. Else a definition of another string lets the search go on, and the
/// definition of the string ends it: with the value as plain text, or
/// without a hover where the definition has no value.
pub open spec fn string_lookup(
    tree: &bibtex::Tree,
    text: Seq<char>,
    name: int,
    string: int,
    canceled: bool,
) -> Option<Option<HoverView>> {
    if canceled {
        Some(None)
    } else if defines_string(tree, string, tree.token_text(name)) {
        Some(
            match tree.first_child(string, SyntaxKind::VALUE) {
                Some(v) => Some(
                    HoverView {
                        kind: MarkupKind::PlainText,
                        value: tree.text_of(v),
                        range: Some(lsp_range(text, tree.range_of(name))),
                    },
                ),
                None => None,
            },
        )
    } else {
        None
    }
}

/// Looks at one string definition in the search for the string that token
/// `name` names. `canceled` tells whether cancellation had been asked for
/// when the definition was come to.
pub fn look_at_string(
    tree: &bibtex::Tree,
    line_index: &crate::line_index::LineIndex,
    name: usize,
    string: usize,
    canceled: bool,
) -> (r: StringLookup)
    requires
        name < tree.size(),
        string < tree.size(),
    ensures
        lookup_view(r) == string_lookup(
            tree,
            line_index.text(),
            name as int,
            string as int,
            canceled,
        ),
{
    if canceled {
        return StringLookup::End { hover: None };
    }
    let wanted = tree.own_text(name);
    let matches = match tree.child(string, SyntaxKind::WORD) {
        Some(w) => {
            let text = tree.own_text(w);
            str_eq(text.as_str(), wanted.as_str())
        },
        None => false,
    };
    if !matches {
        return StringLookup::GoOn;
    }
    let value = match tree.child(string, SyntaxKind::VALUE) {
        Some(v) => tree.text(v),
        None => {
            return StringLookup::End { hover: None };
        },
    };
    StringLookup::End {
        hover: Some(
            Hover {
                range: Some(line_index.line_col_lsp_range(tree.range(name))),
                contents: MarkupContent { kind: MarkupKind::PlainText, value },
            },
        ),
    }
}

} // verus!
