//! Completing the names of glossary entries and acronyms.

use crate::cancel::is_canceled;
use crate::document::{Document, DocumentData};
use crate::features::cursor::{inside_curly, Cursor, CursorContext};
use crate::features::CompletionParams;
use crate::label::group_word;
use crate::latex::{self, SyntaxKind};
use crate::syntax::TextRange;
use cancellation::CancellationToken;
use std::sync::Arc;
use vstd::prelude::*;

verus! {

/// What a completion offers.
#[derive(Debug, PartialEq, Eq, Clone)]
pub enum InternalCompletionItemData {
    GlossaryEntry { name: String },
    Acronym { name: String },
}

/// A completion: what it offers, and the range that it replaces.
#[derive(Debug, PartialEq, Eq, Clone)]
pub struct InternalCompletionItem {
    pub range: TextRange,
    pub data: InternalCompletionItemData,
}

impl InternalCompletionItem {
    /// The completion of `range` by `data`.
    pub fn new(range: TextRange, data: InternalCompletionItemData) -> (r: InternalCompletionItem)
        ensures
            r.range == range,
            r.data == data,
    {
        InternalCompletionItem { range, data }
    }
}

/// What a completion holds: its range, whether it is an acronym, and the
/// name.
pub open spec fn item_view(item: InternalCompletionItem) -> (TextRange, bool, Seq<char>) {
    match item.data {
        InternalCompletionItemData::GlossaryEntry { name } => (item.range, false, name@),
        InternalCompletionItemData::Acronym { name } => (item.range, true, name@),
    }
}

/// What each completion of a list holds.
pub open spec fn item_views(items: Seq<InternalCompletionItem>) -> Seq<
    (TextRange, bool, Seq<char>),
> {
    items.map_values(|i: InternalCompletionItem| item_view(i))
}

/// The range to complete: the position must be in the braces of a reference
/// to a glossary entry; the range is that of the word there, or empty, at
/// the position, where there is no word yet.
pub open spec fn glossary_range(tree: &latex::Tree, t: int, offset: u32) -> Option<TextRange> {
    match latex::parent_of_kind(tree, Some(t), SyntaxKind::CURLY_GROUP_WORD) {
        Some(group) => if inside_curly(tree, group, offset) && latex::parent_of_kind(
            tree,
            Some(group),
            SyntaxKind::GLOSSARY_ENTRY_REFERENCE,
        ) is Some {
            if tree.kind_of(t) == SyntaxKind::WORD {
                Some(tree.range_of(t))
            } else {
                Some(TextRange { start: offset, end: offset })
            }
        } else {
            None
        },
        None => None,
    }
}

/// The completion that a node gives: the name of the glossary entry or of
/// the acronym that it defines.
pub open spec fn node_item(tree: &latex::Tree, node: int, range: TextRange) -> Seq<
    (TextRange, bool, Seq<char>),
> {
    if tree.kind_of(node) == SyntaxKind::GLOSSARY_ENTRY_DEFINITION && group_word(
        tree,
        node,
        SyntaxKind::CURLY_GROUP_WORD,
    ) is Some {
        seq![
            (
                range,
                false,
                tree.token_text(group_word(tree, node, SyntaxKind::CURLY_GROUP_WORD)->0),
            ),
        ]
    } else if tree.kind_of(node) == SyntaxKind::ACRONYM_DEFINITION && group_word(
        tree,
        node,
        SyntaxKind::CURLY_GROUP_WORD,
    ) is Some {
        seq![
            (
                range,
                true,
                tree.token_text(group_word(tree, node, SyntaxKind::CURLY_GROUP_WORD)->0),
            ),
        ]
    } else {
        Seq::empty()
    }
}

/// The completions that the first `n` elements of a tree give.
pub open spec fn items_before(tree: &latex::Tree, n: int, range: TextRange) -> Seq<
    (TextRange, bool, Seq<char>),
>
    decreases n,
{
    if n <= 0 {
        Seq::empty()
    } else {
        items_before(tree, n - 1, range) + node_item(tree, n - 1, range)
    }
}

/// The completions that the first `k` documents give.
pub open spec fn items_of(docs: Seq<Arc<Document>>, k: int, range: TextRange) -> Seq<
    (TextRange, bool, Seq<char>),
>
    decreases k,
{
    if k <= 0 {
        Seq::empty()
    } else {
        items_of(docs, k - 1, range) + (match docs[k - 1].data {
            DocumentData::Latex(data) => items_before(&data.root, data.root.size() as int, range),
            _ => Seq::empty(),
        })
    }
}

/// Whether `part` is the start of `whole`.
pub open spec fn is_start_of<T>(part: Seq<T>, whole: Seq<T>) -> bool {
    part.len() <= whole.len() && whole.take(part.len() as int) == part
}

/// The completions that one document gives, in document order. `done` is
/// false where cancellation was asked for before the end; the completions
/// found until then are still added.
pub fn complete_in(
    tree: &latex::Tree,
    range: TextRange,
    items: &mut Vec<InternalCompletionItem>,
    cancellation_token: &CancellationToken,
) -> (done: bool)
    ensures
        done ==> item_views(final(items)@) == item_views(old(items)@) + items_before(
            tree,
            tree.size() as int,
            range,
        ),
        exists|n: int|
            0 <= n <= tree.size() && item_views(final(items)@) == item_views(old(items)@)
                + #[trigger] items_before(tree, n, range),
{
    let ghost before = item_views(items@);
    let n = tree.len();
    let mut node: usize = 0;
    proof {
        assert(before + Seq::<(TextRange, bool, Seq<char>)>::empty() =~= before);
    }
    while node < n
        invariant
            node <= n == tree.size(),
            before == item_views(old(items)@),
            item_views(items@) == before + items_before(tree, node as int, range),
        decreases n - node,
    {
        let canceled = is_canceled(cancellation_token);
        let ghost so_far = items@;
        let ghost found = items_before(tree, node as int, range);
        match complete_at_node(tree, node, range, canceled) {
            CompletionStep::Canceled => {
                proof {
                    assert(item_views(items@) == item_views(old(items)@) + items_before(
                        tree,
                        node as int,
                        range,
                    ));
                }
                return false;
            },
            CompletionStep::Found { item } => {
                items.push(item);
                proof {
                    assert(item_views(items@) =~= item_views(so_far).push(item_view(item)));
                    assert((before + found).push(item_view(item)) =~= before + (found
                        + node_item(tree, node as int, range)));
                }
            },
            CompletionStep::Nothing => {
                proof {
                    assert(before + (found + node_item(tree, node as int, range)) =~= before
                        + found);
                }
            },
        }
        node += 1;
    }
    true
}

/// What one node gives to a completion.
pub enum CompletionStep {
    /// Cancellation had been asked for: the completion is given up.
    Canceled,
    /// The node defines neither a glossary entry nor an acronym with a name.
    Nothing,
    /// The completion that the node gives.
    Found { item: InternalCompletionItem },
}

/// One node's part in a completion of `range`. `canceled` tells whether
/// cancellation had been asked for when the node was come to: then the
/// completion is given up. Else the node gives the name of the glossary
/// entry or of the acronym that it defines, if it defines one.
pub fn complete_at_node(tree: &latex::Tree, node: usize, range: TextRange, canceled: bool) -> (r:
    CompletionStep)
    requires
        node < tree.size(),
    ensures
        canceled ==> r is Canceled,
        !canceled ==> (if node_item(tree, node as int, range).len() == 0 {
            r is Nothing
        } else {
            r matches CompletionStep::Found { item } && seq![item_view(item)] == node_item(
                tree,
                node as int,
                range,
            )
        }),
{
    if canceled {
        return CompletionStep::Canceled;
    }
    let kind = tree.kind(node);
    if kind == SyntaxKind::GLOSSARY_ENTRY_DEFINITION || kind == SyntaxKind::ACRONYM_DEFINITION {
        match crate::label::word_in_group(tree, node, SyntaxKind::CURLY_GROUP_WORD) {
            Some(w) => {
                let name = tree.own_text(w);
                let data = if kind == SyntaxKind::GLOSSARY_ENTRY_DEFINITION {
                    InternalCompletionItemData::GlossaryEntry { name }
                } else {
                    InternalCompletionItemData::Acronym { name }
                };
                CompletionStep::Found { item: InternalCompletionItem::new(range, data) }
            },
            None => CompletionStep::Nothing,
        }
    } else {
        CompletionStep::Nothing
    }
}

/// Adds, for a position in the braces of a reference to a glossary entry,
/// the names of the glossary entries and acronyms that the documents of the
/// request define. `None` where the position is no such place, and where
/// cancellation was asked for before the end; completions found until then
/// stay.
pub fn complete_glossary_entries(
    context: &CursorContext<CompletionParams>,
    items: &mut Vec<InternalCompletionItem>,
    cancellation_token: &CancellationToken,
) -> (r: Option<()>)
    requires
        context.well_formed(),
    ensures
        is_start_of(item_views(old(items)@), item_views(final(items)@)),
        match context.latex_token() {
            Some((tree, t)) => match glossary_range(&tree, t, context.offset) {
                Some(range) => is_start_of(
                    item_views(final(items)@),
                    item_views(old(items)@) + items_of(
                        context.request.subset.documents@,
                        context.request.subset.documents@.len() as int,
                        range,
                    ),
                ) && (r is Some ==> item_views(final(items)@) == item_views(old(items)@)
                    + items_of(
                    context.request.subset.documents@,
                    context.request.subset.documents@.len() as int,
                    range,
                )),
                None => r is None && final(items)@ == old(items)@,
            },
            None => r is None && final(items)@ == old(items)@,
        },
{
    let canceled = is_canceled(cancellation_token);
    complete_glossary_entries_from(context, items, canceled, cancellation_token)
}

/// [`complete_glossary_entries`], given whether cancellation had been asked
/// for when the completion was begun: then it ends at once, without a
/// result, and the completions are as they were.
#[verifier::loop_isolation(false)]
pub fn complete_glossary_entries_from(
    context: &CursorContext<CompletionParams>,
    items: &mut Vec<InternalCompletionItem>,
    canceled: bool,
    cancellation_token: &CancellationToken,
) -> (r: Option<()>)
    requires
        context.well_formed(),
    ensures
        canceled ==> r is None && final(items)@ == old(items)@,
        is_start_of(item_views(old(items)@), item_views(final(items)@)),
        match context.latex_token() {
            Some((tree, t)) => match glossary_range(&tree, t, context.offset) {
                Some(range) => is_start_of(
                    item_views(final(items)@),
                    item_views(old(items)@) + items_of(
                        context.request.subset.documents@,
                        context.request.subset.documents@.len() as int,
                        range,
                    ),
                ) && (r is Some ==> item_views(final(items)@) == item_views(old(items)@)
                    + items_of(
                    context.request.subset.documents@,
                    context.request.subset.documents@.len() as int,
                    range,
                )),
                None => r is None && final(items)@ == old(items)@,
            },
            None => r is None && final(items)@ == old(items)@,
        },
{
    let ghost before = item_views(items@);
    proof {
        assert(before.take(before.len() as int) =~= before);
    }
    if canceled {
        proof {
            assert forall|more: Seq<(TextRange, bool, Seq<char>)>| #[trigger]
                is_start_of(before, before + more) by {
                assert((before + more).take(before.len() as int) =~= before);
            }
        }
        return None;
    }
    let (tree, t) = match (context.cursor, &context.request.main_document().data) {
        (Cursor::Latex(t), DocumentData::Latex(d)) => (&d.root, t),
        _ => {
            return None;
        },
    };
    let group = match latex::parent_cast(tree, Some(t), SyntaxKind::CURLY_GROUP_WORD) {
        Some(g) => g,
        None => {
            return None;
        },
    };
    if !context.is_inside_latex_curly(tree, group) {
        return None;
    }
    if latex::parent_cast(tree, Some(group), SyntaxKind::GLOSSARY_ENTRY_REFERENCE).is_none() {
        return None;
    }
    let range = if tree.kind(t) == SyntaxKind::WORD {
        tree.range(t)
    } else {
        TextRange::empty(context.offset)
    };
    let docs = &context.request.subset.documents;
    let ghost all = items_of(docs@, docs@.len() as int, range);
    proof {
        assert(before + Seq::<(TextRange, bool, Seq<char>)>::empty() =~= before);
        lemma_items_grow(docs@, 0, docs@.len() as int, range);
        assert((before + all).take(before.len() as int) =~= before);
    }
    let mut k: usize = 0;
    while k < docs.len()
        invariant
            k <= docs.len(),
            before == item_views(old(items)@),
            all == items_of(docs@, docs@.len() as int, range),
            item_views(items@) == before + items_of(docs@, k as int, range),
        decreases docs.len() - k,
    {
        let ghost found = items_of(docs@, k as int, range);
        match docs[k].data.as_latex() {
            Some(data) => {
                let done = complete_in(&data.root, range, items, cancellation_token);
                if !done {
                    proof {
                        let n = choose|n: int|
                            0 <= n <= data.root.size() && item_views(items@) == (before + found)
                                + #[trigger] items_before(&data.root, n, range);
                        let part = items_before(&data.root, n, range);
                        let whole = items_before(&data.root, data.root.size() as int, range);
                        lemma_items_before_grow(&data.root, n, data.root.size() as int, range);
                        lemma_items_grow(docs@, k + 1, docs@.len() as int, range);
                        let next = items_of(docs@, k + 1, range);
                        assert(next == found + whole);
                        assert((before + found) + part =~= before + (found + part));
                        assert((found + whole).take((found + part).len() as int) =~= found + part);
                        assert(all.take(next.len() as int).take((found + part).len() as int)
                            =~= all.take((found + part).len() as int));
                        assert((before + all).take((before + (found + part)).len() as int)
                            =~= before + (found + part));
                        assert((before + (found + part)).take(before.len() as int) =~= before);
                    }
                    return None;
                }
                proof {
                    let whole = items_before(&data.root, data.root.size() as int, range);
                    assert((before + found) + whole =~= before + (found + whole));
                }
            },
            None => {
                proof {
                    assert(found + Seq::<(TextRange, bool, Seq<char>)>::empty() =~= found);
                }
            },
        }
        k += 1;
    }
    proof {
        assert((before + all).take((before + all).len() as int) =~= before + all);
        assert((before + all).take(before.len() as int) =~= before);
    }
    Some(())
}

/// The completions of more elements start with those of fewer.
pub proof fn lemma_items_before_grow(tree: &latex::Tree, a: int, b: int, range: TextRange)
    requires
        0 <= a <= b,
    ensures
        is_start_of(items_before(tree, a, range), items_before(tree, b, range)),
    decreases b - a,
{
    if a == b {
        let s = items_before(tree, a, range);
        assert(s.take(s.len() as int) =~= s);
    } else {
        lemma_items_before_grow(tree, a, b - 1, range);
        let part = items_before(tree, a, range);
        let less = items_before(tree, b - 1, range);
        let more = items_before(tree, b, range);
        assert(more.take(part.len() as int) =~= less.take(part.len() as int));
    }
}

/// The completions of more documents start with those of fewer.
pub proof fn lemma_items_grow(docs: Seq<Arc<Document>>, a: int, b: int, range: TextRange)
    requires
        0 <= a <= b,
    ensures
        is_start_of(items_of(docs, a, range), items_of(docs, b, range)),
    decreases b - a,
{
    if a == b {
        let s = items_of(docs, a, range);
        assert(s.take(s.len() as int) =~= s);
    } else {
        lemma_items_grow(docs, a, b - 1, range);
        let part = items_of(docs, a, range);
        let less = items_of(docs, b - 1, range);
        let more = items_of(docs, b, range);
        assert(more.take(part.len() as int) =~= less.take(part.len() as int));
    }
}

} // verus!
