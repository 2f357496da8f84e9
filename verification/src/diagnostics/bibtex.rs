//! What is wrong with the structure of a bibliography.

use crate::bibtex::{self, left_delimiters, right_delimiters, type_kinds, SyntaxKind};
use crate::diagnostics::{entries_of, listed, multimap_insert};
use crate::document::{Document, DocumentData, Uri, UriView};
use crate::line_index::{lsp_range, LineIndex, Range};
use crate::protocol::{Diagnostic, DiagnosticSeverity, DiagnosticView};
use crate::syntax::TextRange;
use crate::workspace::{lookup, Workspace};
use multimap::MultiMap;
use std::sync::Arc;
use vstd::prelude::*;
use vstd::string::StringExecFns;

verus! {

/// An error of the given code, with its message.
pub open spec fn problem(range: Range, code: i32, message: Seq<char>) -> DiagnosticView {
    DiagnosticView {
        range,
        severity: DiagnosticSeverity::Error,
        code: Some(code),
        source: "texlab"@,
        message,
    }
}

/// The empty range at the end of a range.
pub open spec fn end_of(range: TextRange) -> TextRange {
    TextRange { start: range.end, end: range.end }
}

/// What is wrong with an entry, the first of: it has no opening delimiter
/// (said of its type, and only where it has one); it has no key (said of the
/// opening delimiter); it has no closing delimiter (said of its end).
pub open spec fn entry_problem(tree: &bibtex::Tree, text: Seq<char>, node: int) -> Option<
    DiagnosticView,
> {
    if tree.is_token(node) || tree.kind_of(node) != SyntaxKind::ENTRY {
        None
    } else {
        match tree.first_child_among(node, left_delimiters()) {
            None => match tree.first_child_among(node, type_kinds()) {
                Some(ty) => Some(
                    problem(
                        lsp_range(text, tree.range_of(ty)),
                        4,
                        "Expecting a curly bracket: \"{\""@,
                    ),
                ),
                None => None,
            },
            Some(left) => if tree.first_child(node, SyntaxKind::WORD) is None {
                Some(problem(lsp_range(text, tree.range_of(left)), 5, "Expecting a key"@))
            } else if tree.first_child_among(node, right_delimiters()) is None {
                Some(
                    problem(
                        lsp_range(text, end_of(tree.range_of(node))),
                        6,
                        "Expecting a curly bracket: \"}\""@,
                    ),
                )
            } else {
                None
            },
        }
    }
}

/// What is wrong with a field, the first of: it has no equality sign (said
/// of the end of its name, and only where it has one); it has no value (said
/// of the end of the equality sign).
pub open spec fn field_problem(tree: &bibtex::Tree, text: Seq<char>, node: int) -> Option<
    DiagnosticView,
> {
    if tree.is_token(node) || tree.kind_of(node) != SyntaxKind::FIELD {
        None
    } else {
        match tree.first_child(node, SyntaxKind::EQUALITY_SIGN) {
            None => match tree.first_child(node, SyntaxKind::WORD) {
                Some(name) => Some(
                    problem(
                        lsp_range(text, end_of(tree.range_of(name))),
                        7,
                        "Expecting an equality sign: \"=\""@,
                    ),
                ),
                None => None,
            },
            Some(sign) => if tree.first_child(node, SyntaxKind::VALUE) is None {
                Some(
                    problem(
                        lsp_range(text, end_of(tree.range_of(sign))),
                        8,
                        "Expecting a field value"@,
                    ),
                )
            } else {
                None
            },
        }
    }
}

/// What is wrong at one node.
pub open spec fn node_problem(tree: &bibtex::Tree, text: Seq<char>, node: int) -> Seq<
    DiagnosticView,
> {
    match entry_problem(tree, text, node) {
        Some(d) => seq![d],
        None => match field_problem(tree, text, node) {
            Some(d) => seq![d],
            None => Seq::empty(),
        },
    }
}

/// What is wrong at the first `n` elements of a tree, in document order.
pub open spec fn problems_before(tree: &bibtex::Tree, text: Seq<char>, n: int) -> Seq<
    DiagnosticView,
>
    decreases n,
{
    if n <= 0 {
        Seq::empty()
    } else {
        problems_before(tree, text, n - 1) + node_problem(tree, text, n - 1)
    }
}

/// What is wrong with the structure of a document: of a bibliography, what
/// is wrong at its nodes; of any other document, nothing.
pub open spec fn document_problems(doc: Document) -> Option<Seq<DiagnosticView>> {
    match doc.data {
        DocumentData::Bibtex(data) => Some(
            problems_before(&data.root, doc.line_index.text(), data.root.size() as int),
        ),
        _ => None,
    }
}

/// What is wrong with the structure of the document with the given
/// identity: nothing where the workspace does not hold it.
pub open spec fn static_diagnostics(docs: Seq<Arc<Document>>, uri: UriView) -> Seq<
    DiagnosticView,
> {
    match lookup(docs, uri) {
        Some(doc) => match document_problems(*doc) {
            Some(found) => found,
            None => Seq::empty(),
        },
        None => Seq::empty(),
    }
}

/// An error of the given code, with its message.
fn error(range: Range, code: i32, message: &str) -> (d: Diagnostic)
    ensures
        d@ == problem(range, code, message@),
{
    Diagnostic {
        range,
        severity: DiagnosticSeverity::Error,
        code: Some(code),
        source: String::from_str("texlab"),
        message: String::from_str(message),
    }
}

/// What an optional diagnostic holds.
pub open spec fn found_view(d: Option<Diagnostic>) -> Option<DiagnosticView> {
    match d {
        Some(d) => Some(d@),
        None => None,
    }
}

/// What is wrong with an entry.
pub fn analyze_entry(tree: &bibtex::Tree, line_index: &LineIndex, node: usize) -> (r: Option<
    Diagnostic,
>)
    requires
        node < tree.size(),
    ensures
        found_view(r) == entry_problem(tree, line_index.text(), node as int),
{
    if tree.token(node) || tree.kind(node) != SyntaxKind::ENTRY {
        return None;
    }
    let left = match bibtex::left_delimiter(tree, node) {
        Some(left) => left,
        None => {
            return match bibtex::type_token(tree, node) {
                Some(ty) => Some(
                    error(
                        line_index.line_col_lsp_range(tree.range(ty)),
                        4,
                        "Expecting a curly bracket: \"{\"",
                    ),
                ),
                None => None,
            };
        },
    };
    if tree.child(node, SyntaxKind::WORD).is_none() {
        return Some(error(line_index.line_col_lsp_range(tree.range(left)), 5, "Expecting a key"));
    }
    if bibtex::right_delimiter(tree, node).is_none() {
        let end = tree.range(node).end;
        return Some(
            error(
                line_index.line_col_lsp_range(TextRange::empty(end)),
                6,
                "Expecting a curly bracket: \"}\"",
            ),
        );
    }
    None
}

/// What is wrong with a field.
pub fn analyze_field(tree: &bibtex::Tree, line_index: &LineIndex, node: usize) -> (r: Option<
    Diagnostic,
>)
    requires
        node < tree.size(),
    ensures
        found_view(r) == field_problem(tree, line_index.text(), node as int),
{
    if tree.token(node) || tree.kind(node) != SyntaxKind::FIELD {
        return None;
    }
    let sign = match tree.child(node, SyntaxKind::EQUALITY_SIGN) {
        Some(sign) => sign,
        None => {
            return match tree.child(node, SyntaxKind::WORD) {
                Some(name) => {
                    let end = tree.range(name).end;
                    Some(
                        error(
                            line_index.line_col_lsp_range(TextRange::empty(end)),
                            7,
                            "Expecting an equality sign: \"=\"",
                        ),
                    )
                },
                None => None,
            };
        },
    };
    if tree.child(node, SyntaxKind::VALUE).is_none() {
        let end = tree.range(sign).end;
        return Some(
            error(
                line_index.line_col_lsp_range(TextRange::empty(end)),
                8,
                "Expecting a field value",
            ),
        );
    }
    None
}

/// Adds what is wrong with the structure of the bibliography with the given
/// identity to the diagnostics under that identity. `None`, and nothing
/// added, where the workspace does not hold the document or it is no
/// bibliography.
pub fn analyze_bibtex_static<W: Workspace>(
    workspace: &W,
    diagnostics_by_uri: &mut MultiMap<String, Diagnostic>,
    uri: &Uri,
) -> (r: Option<()>)
    requires
        workspace.inv(),
    ensures
        r is Some <==> (lookup(workspace.documents_of(), uri@) matches Some(doc)
            && document_problems(*doc) is Some),
        listed(entries_of(*final(diagnostics_by_uri)), uri@.text) == listed(
            entries_of(*old(diagnostics_by_uri)),
            uri@.text,
        ) + static_diagnostics(workspace.documents_of(), uri@),
        forall|other: Seq<char>|
            other != uri@.text ==> #[trigger] listed(
                entries_of(*final(diagnostics_by_uri)),
                other,
            ) == listed(entries_of(*old(diagnostics_by_uri)), other),
{
    let ghost before = listed(entries_of(*diagnostics_by_uri), uri@.text);
    let ghost start = entries_of(*diagnostics_by_uri);
    proof {
        assert(before + Seq::<DiagnosticView>::empty() =~= before);
    }
    let document = match workspace.get(uri) {
        Some(document) => document,
        None => {
            return None;
        },
    };
    proof {
        crate::workspace::lemma_position_bounds(workspace.documents_of(), uri@, 0);
    }
    let data = match document.data.as_bibtex() {
        Some(data) => data,
        None => {
            return None;
        },
    };
    let tree = &data.root;
    let n = tree.len();
    let mut node: usize = 0;
    while node < n
        invariant
            node <= n == tree.size(),
            document.uri@ == uri@,
            start == entries_of(*old(diagnostics_by_uri)),
            before == listed(start, uri@.text),
            listed(entries_of(*diagnostics_by_uri), uri@.text) == before + problems_before(
                tree,
                document.line_index.text(),
                node as int,
            ),
            forall|other: Seq<char>|
                other != uri@.text ==> #[trigger] listed(entries_of(*diagnostics_by_uri), other)
                    == listed(start, other),
        decreases n - node,
    {
        let ghost so_far = problems_before(tree, document.line_index.text(), node as int);
        let found = match analyze_entry(tree, &document.line_index, node) {
            Some(d) => Some(d),
            None => analyze_field(tree, &document.line_index, node),
        };
        match found {
            Some(d) => {
                let ghost prior = entries_of(*diagnostics_by_uri);
                multimap_insert(diagnostics_by_uri, document.uri.text.clone(), d);
                proof {
                    assert forall|other: Seq<char>| other != uri@.text implies #[trigger] listed(
                        entries_of(*diagnostics_by_uri),
                        other,
                    ) == listed(start, other) by {
                        assert(listed(prior, other) == listed(start, other));
                    }
                    assert((before + so_far).push(d@) =~= before + (so_far + seq![d@]));
                }
            },
            None => {
                proof {
                    assert(before + (so_far + Seq::<DiagnosticView>::empty()) =~= before + so_far);
                }
            },
        }
        node += 1;
    }
    Some(())
}

} // verus!
