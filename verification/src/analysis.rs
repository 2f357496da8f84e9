//! What is gathered from a LaTeX tree when a document is read.

use crate::document::LatexExtras;
use crate::latex::{SyntaxKind, Tree};
use crate::label::group_word;
use vstd::prelude::*;

verus! {

/// What an analysis of a LaTeX document has gathered so far.
pub struct LatexAnalyzerContext {
    pub extras: LatexExtras,
}

/// The first node from `j` on, and before `end`, that is a text or a mixed
/// group.
pub open spec fn text_node_from(tree: &Tree, j: int, end: int) -> Option<int>
    decreases end - j,
{
    if j < 0 || j >= end || j >= tree.size() {
        None
    } else if !tree.is_token(j) && (tree.kind_of(j) == SyntaxKind::TEXT || tree.kind_of(j)
        == SyntaxKind::MIXED_GROUP) {
        Some(j)
    } else {
        text_node_from(tree, j + 1, end)
    }
}

/// The label and number that a node notes: the node records a label's
/// number, names the label by a word, and holds a group with a text or a
/// mixed group in it, whose text is the number.
pub open spec fn noted_number(tree: &Tree, node: int) -> Option<(Seq<char>, Seq<char>)> {
    if tree.kind_of(node) != SyntaxKind::LABEL_NUMBER {
        None
    } else {
        match group_word(tree, node, SyntaxKind::CURLY_GROUP_WORD) {
            Some(w) => match tree.first_child(node, SyntaxKind::CURLY_GROUP) {
                Some(g) => match text_node_from(tree, g, tree.subtree_end(g)) {
                    Some(t) => Some((tree.token_text(w), tree.text_of(t))),
                    None => None,
                },
                None => None,
            },
            None => None,
        }
    }
}

/// The first node from `from` on, and before `end`, that is a text or a
/// mixed group.
fn find_text_node(tree: &Tree, from: usize, end: usize) -> (found: Option<usize>)
    requires
        from <= end <= tree.size(),
    ensures
        crate::syntax::as_index(found) == text_node_from(tree, from as int, end as int),
        found matches Some(t) ==> t < tree.size(),
{
    let mut j: usize = from;
    while j < end
        invariant
            from <= j <= end <= tree.size(),
            text_node_from(tree, j as int, end as int) == text_node_from(
                tree,
                from as int,
                end as int,
            ),
        decreases end - j,
    {
        let kind = tree.kind(j);
        if !tree.token(j) && (kind == SyntaxKind::TEXT || kind == SyntaxKind::MIXED_GROUP) {
            return Some(j);
        }
        j += 1;
    }
    None
}

/// What a list of labels with their numbers holds.
pub open spec fn number_entries(list: Seq<(String, String)>) -> Seq<(Seq<char>, Seq<char>)> {
    list.map_values(|e: (String, String)| (e.0@, e.1@))
}

/// Takes note of the number of a label, where the node records one.
pub fn analyze_label_number(context: &mut LatexAnalyzerContext, tree: &Tree, node: usize) -> (r:
    Option<()>)
    requires
        node < tree.size(),
    ensures
        r is Some <==> noted_number(tree, node as int) is Some,
        number_entries(final(context).extras.label_numbers_by_name@) == (match noted_number(
            tree,
            node as int,
        ) {
            Some(entry) => number_entries(old(context).extras.label_numbers_by_name@).push(entry),
            None => number_entries(old(context).extras.label_numbers_by_name@),
        }),
        final(context).extras.implicit_links == old(context).extras.implicit_links,
        final(context).extras.explicit_links == old(context).extras.explicit_links,
        final(context).extras.has_document_environment == old(
            context,
        ).extras.has_document_environment,
        final(context).extras.theorem_environments == old(context).extras.theorem_environments,
{
    if tree.kind(node) != SyntaxKind::LABEL_NUMBER {
        return None;
    }
    let word = match crate::label::word_in_group(tree, node, SyntaxKind::CURLY_GROUP_WORD) {
        Some(w) => w,
        None => {
            return None;
        },
    };
    let name = tree.own_text(word);
    let group = match tree.child(node, SyntaxKind::CURLY_GROUP) {
        Some(g) => g,
        None => {
            return None;
        },
    };
    let found = find_text_node(tree, group, tree.end(group));
    let text = match found {
        Some(t) => tree.text(t),
        None => {
            return None;
        },
    };
    let ghost before = context.extras.label_numbers_by_name@;
    context.extras.label_numbers_by_name.push((name, text));
    proof {
        assert(number_entries(context.extras.label_numbers_by_name@) =~= number_entries(
            before,
        ).push((name@, text@)));
    }
    Some(())
}

} // verus!
