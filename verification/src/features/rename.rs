//! Renaming a label throughout the documents that belong together.

use crate::cancel::is_canceled;
use crate::document::{Document, DocumentData, Uri, UriView};
use crate::features::cursor::{is_label_kind, Cursor, CursorContext, HasPosition};
use crate::features::RenameParams;
use crate::label::group_word;
use crate::latex::{self, SyntaxKind};
use crate::line_index::{lsp_range, LineIndex, Range};
use crate::protocol::{TextEdit, TextEditView};
use crate::text::str_eq;
use cancellation::CancellationToken;
use std::sync::Arc;
use vstd::prelude::*;

verus! {

/// Changes to documents: for each document named, the changes to make in
/// it. A list of pairs and no hash map: vstd has no key model for the
/// identity of a document, so nothing could be proved of what such a map
/// holds.
#[derive(Debug, PartialEq, Eq, Clone)]
pub struct WorkspaceEdit {
    pub changes: Vec<(Uri, Vec<TextEdit>)>,
}

/// What each change of a list holds.
pub open spec fn edit_views(edits: Seq<TextEdit>) -> Seq<TextEditView> {
    edits.map_values(|e: TextEdit| e@)
}

/// What the changes to documents hold.
pub open spec fn change_views(changes: Seq<(Uri, Vec<TextEdit>)>) -> Seq<
    (UriView, Seq<TextEditView>),
> {
    changes.map_values(|c: (Uri, Vec<TextEdit>)| (c.0@, edit_views(c.1@)))
}

/// The range of the token at the cursor, where that token stands two levels
/// below a node that defines or uses a label.
pub open spec fn prepared_rename(tree: &latex::Tree, text: Seq<char>, t: int) -> Option<Range> {
    match latex::parent_opt(tree, tree.parent_of(t)) {
        Some(node) => if 0 <= node < tree.size() && is_label_kind(tree.kind_of(node)) {
            Some(lsp_range(text, tree.range_of(t)))
        } else {
            None
        },
        None => None,
    }
}

/// The change of word `word` to `new_name`, where there is such a word and
/// it spells `name`.
pub open spec fn word_edit(
    tree: &latex::Tree,
    text: Seq<char>,
    word: Option<int>,
    name: Seq<char>,
    new_name: Seq<char>,
) -> Seq<TextEditView> {
    match word {
        Some(w) => if tree.token_text(w) == name {
            seq![TextEditView { range: lsp_range(text, tree.range_of(w)), new_text: new_name }]
        } else {
            Seq::empty()
        },
        None => Seq::empty(),
    }
}

/// The changes of the words that `list` holds from `j` on and that spell
/// `name`.
pub open spec fn list_edits_from(
    tree: &latex::Tree,
    text: Seq<char>,
    list: int,
    j: int,
    name: Seq<char>,
    new_name: Seq<char>,
) -> Seq<TextEditView>
    decreases tree.size() - j,
{
    match tree.child_from(list, j, SyntaxKind::WORD) {
        Some(w) => if j <= w < tree.size() {
            word_edit(tree, text, Some(w), name, new_name) + list_edits_from(
                tree,
                text,
                list,
                w + 1,
                name,
                new_name,
            )
        } else {
            Seq::empty()
        },
        None => Seq::empty(),
    }
}

/// The word that a range of labels ends with: the word in the second group
/// of the node.
pub open spec fn range_end_word(tree: &latex::Tree, node: int) -> Option<int> {
    match tree.first_child(node, SyntaxKind::CURLY_GROUP_WORD) {
        Some(from) => tree.first_child_opt(
            tree.child_from(node, from + 1, SyntaxKind::CURLY_GROUP_WORD),
            SyntaxKind::WORD,
        ),
        None => None,
    }
}

/// The changes that renaming the label `name` calls for at one node: at a
/// definition the name; at a reference every name in its list that is the
/// label's; at a range of labels each of its two ends that is.
pub open spec fn node_edits(
    tree: &latex::Tree,
    text: Seq<char>,
    node: int,
    name: Seq<char>,
    new_name: Seq<char>,
) -> Seq<TextEditView> {
    if tree.kind_of(node) == SyntaxKind::LABEL_DEFINITION {
        word_edit(tree, text, group_word(tree, node, SyntaxKind::CURLY_GROUP_WORD), name, new_name)
    } else if tree.kind_of(node) == SyntaxKind::LABEL_REFERENCE {
        match tree.first_child(node, SyntaxKind::CURLY_GROUP_WORD_LIST) {
            Some(list) => list_edits_from(tree, text, list, list + 1, name, new_name),
            None => Seq::empty(),
        }
    } else if tree.kind_of(node) == SyntaxKind::LABEL_REFERENCE_RANGE {
        word_edit(tree, text, group_word(tree, node, SyntaxKind::CURLY_GROUP_WORD), name, new_name)
            + word_edit(tree, text, range_end_word(tree, node), name, new_name)
    } else {
        Seq::empty()
    }
}

/// The changes at the first `n` elements of a tree, in document order.
pub open spec fn edits_before(
    tree: &latex::Tree,
    text: Seq<char>,
    n: int,
    name: Seq<char>,
    new_name: Seq<char>,
) -> Seq<TextEditView>
    decreases n,
{
    if n <= 0 {
        Seq::empty()
    } else {
        edits_before(tree, text, n - 1, name, new_name) + node_edits(
            tree,
            text,
            n - 1,
            name,
            new_name,
        )
    }
}

/// The changes that renaming the label `name` calls for in a LaTeX document.
pub open spec fn document_edits(doc: Document, name: Seq<char>, new_name: Seq<char>) -> Option<
    Seq<TextEditView>,
> {
    match doc.data {
        DocumentData::Latex(data) => Some(
            edits_before(
                &data.root,
                doc.line_index.text(),
                data.root.size() as int,
                name,
                new_name,
            ),
        ),
        _ => None,
    }
}

/// The changes in the LaTeX documents among the first `k`, each with its
/// document's identity.
pub open spec fn changes_before(
    docs: Seq<Arc<Document>>,
    k: int,
    name: Seq<char>,
    new_name: Seq<char>,
) -> Seq<(UriView, Seq<TextEditView>)>
    decreases k,
{
    if k <= 0 {
        Seq::empty()
    } else {
        match document_edits(*docs[k - 1], name, new_name) {
            Some(edits) => changes_before(docs, k - 1, name, new_name).push(
                (docs[k - 1].uri@, edits),
            ),
            None => changes_before(docs, k - 1, name, new_name),
        }
    }
}

/// Adds the change of a word, where the word spells `name`.
fn push_word_edit(
    edits: &mut Vec<TextEdit>,
    tree: &latex::Tree,
    line_index: &LineIndex,
    word: Option<usize>,
    name: &str,
    new_name: &str,
)
    requires
        word matches Some(w) ==> w < tree.size(),
    ensures
        edit_views(final(edits)@) == edit_views(old(edits)@) + word_edit(
            tree,
            line_index.text(),
            crate::syntax::as_index(word),
            name@,
            new_name@,
        ),
{
    let ghost before = edits@;
    match word {
        Some(w) => {
            let text = tree.own_text(w);
            if str_eq(text.as_str(), name) {
                let edit = TextEdit::new(
                    line_index.line_col_lsp_range(tree.range(w)),
                    new_name.to_owned(),
                );
                edits.push(edit);
                proof {
                    assert(edit_views(edits@) =~= edit_views(before) + seq![edit@]);
                }
            } else {
                proof {
                    assert(edit_views(before) + Seq::<TextEditView>::empty() =~= edit_views(
                        before,
                    ));
                }
            }
        },
        None => {
            proof {
                assert(edit_views(before) + Seq::<TextEditView>::empty() =~= edit_views(before));
            }
        },
    }
}

/// Adds the changes that renaming calls for at one node.
fn push_node_edits(
    edits: &mut Vec<TextEdit>,
    tree: &latex::Tree,
    line_index: &LineIndex,
    node: usize,
    name: &str,
    new_name: &str,
)
    requires
        node < tree.size(),
    ensures
        edit_views(final(edits)@) == edit_views(old(edits)@) + node_edits(
            tree,
            line_index.text(),
            node as int,
            name@,
            new_name@,
        ),
{
    let ghost before = edit_views(edits@);
    let ghost text = line_index.text();
    let kind = tree.kind(node);
    if kind == SyntaxKind::LABEL_DEFINITION {
        let word = crate::label::word_in_group(tree, node, SyntaxKind::CURLY_GROUP_WORD);
        push_word_edit(edits, tree, line_index, word, name, new_name);
    } else if kind == SyntaxKind::LABEL_REFERENCE {
        match tree.child(node, SyntaxKind::CURLY_GROUP_WORD_LIST) {
            Some(list) => {
                let n = tree.len();
                let mut from: usize = list + 1;
                proof {
                    assert(before + Seq::<TextEditView>::empty() =~= before);
                }
                let ghost mut done: Seq<TextEditView> = Seq::empty();
                loop
                    invariant
                        list < from <= n == tree.size(),
                        text == line_index.text(),
                        edit_views(edits@) == before + done,
                        done + list_edits_from(
                            tree,
                            text,
                            list as int,
                            from as int,
                            name@,
                            new_name@,
                        ) == list_edits_from(tree, text, list as int, list + 1, name@, new_name@),
                    ensures
                        edit_views(edits@) == before + list_edits_from(
                            tree,
                            text,
                            list as int,
                            list + 1,
                            name@,
                            new_name@,
                        ),
                    decreases n + 1 - from,
                {
                    match tree.next_child(list, from, SyntaxKind::WORD) {
                        Some(w) => {
                            let ghost one = word_edit(tree, text, Some(w as int), name@, new_name@);
                            let ghost rest = list_edits_from(
                                tree,
                                text,
                                list as int,
                                w + 1,
                                name@,
                                new_name@,
                            );
                            push_word_edit(edits, tree, line_index, Some(w), name, new_name);
                            proof {
                                assert((before + done) + one =~= before + (done + one));
                                assert(done + (one + rest) =~= (done + one) + rest);
                                assert(edit_views(edits@) == before + (done + one));
                                done = done + one;
                            }
                            from = w + 1;
                        },
                        None => {
                            proof {
                                assert(done + Seq::<TextEditView>::empty() =~= done);
                            }
                            break ;
                        },
                    }
                }
            },
            None => {
                proof {
                    assert(before + Seq::<TextEditView>::empty() =~= before);
                }
            },
        }
    } else if kind == SyntaxKind::LABEL_REFERENCE_RANGE {
        let n = tree.len();
        let from = tree.child(node, SyntaxKind::CURLY_GROUP_WORD);
        let first = tree.child_opt(from, SyntaxKind::WORD);
        let second = match from {
            Some(g) => {
                let to = tree.next_child(node, g + 1, SyntaxKind::CURLY_GROUP_WORD);
                tree.child_opt(to, SyntaxKind::WORD)
            },
            None => None,
        };
        let ghost one = word_edit(tree, text, crate::syntax::as_index(first), name@, new_name@);
        let ghost two = word_edit(tree, text, crate::syntax::as_index(second), name@, new_name@);
        push_word_edit(edits, tree, line_index, first, name, new_name);
        push_word_edit(edits, tree, line_index, second, name, new_name);
        proof {
            assert((before + one) + two =~= before + (one + two));
        }
    } else {
        proof {
            assert(before + Seq::<TextEditView>::empty() =~= before);
        }
    }
}

/// The changes that renaming the label `name` to `new_name` calls for in a
/// LaTeX document, in document order.
pub fn label_edits(tree: &latex::Tree, line_index: &LineIndex, name: &str, new_name: &str) -> (edits:
    Vec<TextEdit>)
    ensures
        edit_views(edits@) == edits_before(
            tree,
            line_index.text(),
            tree.size() as int,
            name@,
            new_name@,
        ),
{
    let mut edits: Vec<TextEdit> = Vec::new();
    let n = tree.len();
    let mut node: usize = 0;
    proof {
        assert(edit_views(edits@) =~= Seq::empty());
    }
    while node < n
        invariant
            node <= n == tree.size(),
            edit_views(edits@) == edits_before(
                tree,
                line_index.text(),
                node as int,
                name@,
                new_name@,
            ),
        decreases n - node,
    {
        push_node_edits(&mut edits, tree, line_index, node, name, new_name);
        node += 1;
    }
    edits
}

/// The range to rename, where the position is on the name of a label.
pub fn prepare_label_rename<P: HasPosition>(
    context: &CursorContext<P>,
    _cancellation_token: &CancellationToken,
) -> (r: Option<Range>)
    requires
        context.well_formed(),
    ensures
        r == (match context.latex_token() {
            Some((tree, t)) => prepared_rename(
                &tree,
                context.request.subset.documents@[0].line_index.text(),
                t,
            ),
            None => None,
        }),
{
    let main_document = context.request.main_document();
    match (context.cursor, &main_document.data) {
        (Cursor::Latex(t), DocumentData::Latex(d)) => {
            let tree = &d.root;
            let holder = tree.parent(t);
            match latex::parent_of_opt(tree, holder) {
                Some(node) => {
                    let kind = tree.kind(node);
                    if kind == SyntaxKind::LABEL_DEFINITION || kind == SyntaxKind::LABEL_REFERENCE
                        || kind == SyntaxKind::LABEL_REFERENCE_RANGE {
                        Some(main_document.line_index.line_col_lsp_range(tree.range(t)))
                    } else {
                        None
                    }
                },
                None => None,
            }
        },
        _ => None,
    }
}

/// The changes that rename the label at the position in the documents that
/// belong to the request. `None` where the position is not on the name of a
/// label, and where cancellation was asked for before the last document was
/// done.
pub fn rename_label(
    context: &CursorContext<RenameParams>,
    cancellation_token: &CancellationToken,
) -> (r: Option<WorkspaceEdit>)
    requires
        context.well_formed(),
    ensures
        (match context.latex_token() {
            Some((tree, t)) => prepared_rename(
                &tree,
                context.request.subset.documents@[0].line_index.text(),
                t,
            ) is None,
            None => true,
        }) ==> r is None,
        r matches Some(edit) ==> context.latex_token() matches Some((tree, t)) && change_views(
            edit.changes@,
        ) == changes_before(
            context.request.subset.documents@,
            context.request.subset.documents@.len() as int,
            tree.token_text(t),
            context.request.params.new_name@,
        ),
{
    if prepare_label_rename(context, cancellation_token).is_none() {
        return None;
    }
    let name_text = match (context.cursor, &context.request.main_document().data) {
        (Cursor::Latex(t), DocumentData::Latex(d)) => d.root.own_text(t),
        _ => {
            return None;
        },
    };
    let new_name = context.request.params.new_name.as_str();
    let docs = &context.request.subset.documents;
    let mut changes: Vec<(Uri, Vec<TextEdit>)> = Vec::new();
    let mut k: usize = 0;
    proof {
        assert(change_views(changes@) =~= Seq::empty());
    }
    while k < docs.len()
        invariant
            k <= docs.len(),
            change_views(changes@) == changes_before(docs@, k as int, name_text@, new_name@),
        decreases docs.len() - k,
    {
        let canceled = is_canceled(cancellation_token);
        match rename_in_document(&docs[k], name_text.as_str(), new_name, canceled) {
            RenameStep::Canceled => {
                return None;
            },
            RenameStep::Skipped => {},
            RenameStep::Changed { uri, edits } => {
                let ghost before = changes@;
                changes.push((uri, edits));
                proof {
                    assert(change_views(changes@) =~= change_views(before).push(
                        (uri@, edit_views(edits@)),
                    ));
                }
            },
        }
        k += 1;
    }
    Some(WorkspaceEdit { changes })
}

/// What one document gives to a rename.
pub enum RenameStep {
    /// Cancellation had been asked for: the rename is given up.
    Canceled,
    /// The document is no LaTeX document: it has no part in the rename.
    Skipped,
    /// The changes to make in the document, which may be none.
    Changed { uri: Uri, edits: Vec<TextEdit> },
}

/// One document's part in renaming the label `name` to `new_name`.
/// `canceled` tells whether cancellation had been asked for when the
/// document was come to: then the rename is given up. Else a LaTeX document
/// gives its changes, in document order, under its own identity, and any
/// other document is passed over.
pub fn rename_in_document(document: &Document, name: &str, new_name: &str, canceled: bool) -> (r:
    RenameStep)
    ensures
        canceled ==> r is Canceled,
        !canceled ==> (match document_edits(*document, name@, new_name@) {
            Some(wanted) => r matches RenameStep::Changed { uri, edits } && uri@ == document.uri@
                && edit_views(edits@) == wanted,
            None => r is Skipped,
        }),
{
    if canceled {
        return RenameStep::Canceled;
    }
    match document.data.as_latex() {
        Some(data) => RenameStep::Changed {
            uri: document.uri.duplicate(),
            edits: label_edits(&data.root, &document.line_index, name, new_name),
        },
        None => RenameStep::Skipped,
    }
}

} // verus!
