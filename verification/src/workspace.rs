//! The workspace: the documents that are known, which of them the editor has
//! opened, and which belong together.
//!
//! Two documents are linked where one names the other: an inclusion, a
//! bibliography, or the auxiliary and log files that go with a document. A
//! link resolves to the first of its candidates that is in the workspace.
//! The subset of a document is what can be reached from it over links, in
//! either direction.

use crate::document::{
    share, Document, DocumentData, ExplicitLink, Uri, UriView, WorkspaceSource,
};
use std::sync::Arc;
use vstd::prelude::*;

pub mod children_expand;
pub mod parent_expand;

verus! {

/// The index of the first document from `k` on with the given identity.
pub open spec fn position_from(docs: Seq<Arc<Document>>, uri: UriView, k: int) -> Option<int>
    decreases docs.len() - k,
{
    if k < 0 || k >= docs.len() {
        None
    } else if docs[k].uri@ == uri {
        Some(k)
    } else {
        position_from(docs, uri, k + 1)
    }
}

/// The index of the document with the given identity.
pub open spec fn position(docs: Seq<Arc<Document>>, uri: UriView) -> Option<int> {
    position_from(docs, uri, 0)
}

/// Whether no two documents share an identity.
pub open spec fn distinct(docs: Seq<Arc<Document>>) -> bool {
    forall|i: int, j: int|
        0 <= i < docs.len() && 0 <= j < docs.len() && (#[trigger] docs[i]).uri@ == (
        #[trigger] docs[j]).uri@ ==> i == j
}

/// The document that the candidates from `k` on resolve to: the one named by
/// the first candidate that is in the workspace.
pub open spec fn resolves_from(docs: Seq<Arc<Document>>, targets: Seq<Uri>, k: int) -> Option<
    int,
>
    decreases targets.len() - k,
{
    if k < 0 || k >= targets.len() {
        None
    } else {
        match position(docs, targets[k]@) {
            Some(i) => Some(i),
            None => resolves_from(docs, targets, k + 1),
        }
    }
}

/// The document that a list of candidates resolves to.
pub open spec fn resolves(docs: Seq<Arc<Document>>, targets: Seq<Uri>) -> Option<int> {
    resolves_from(docs, targets, 0)
}

/// The candidate lists of a document: those of its auxiliary file and of its
/// log, then that of each inclusion.
pub open spec fn link_lists(doc: Document) -> Seq<Seq<Uri>> {
    match doc.data {
        DocumentData::Latex(data) => seq![
            data.extras.implicit_links.aux@,
            data.extras.implicit_links.log@,
        ] + data.extras.explicit_links@.map_values(|l: ExplicitLink| l.targets@),
        _ => Seq::empty(),
    }
}

/// The candidate lists of document `a`.
pub open spec fn lists_at(docs: Seq<Arc<Document>>, a: int) -> Seq<Seq<Uri>> {
    link_lists(*docs[a])
}

/// Whether document `a` names document `b`.
pub open spec fn links(docs: Seq<Arc<Document>>, a: int, b: int) -> bool {
    0 <= a < docs.len() && exists|k: int|
        0 <= k < lists_at(docs, a).len() && resolves(docs, #[trigger] lists_at(docs, a)[k])
            == Some(b)
}

/// Whether one of the two documents names the other.
pub open spec fn adjacent(docs: Seq<Arc<Document>>, a: int, b: int) -> bool {
    links(docs, a, b) || links(docs, b, a)
}

/// Whether each document of the path is linked with the next.
pub open spec fn is_path(docs: Seq<Arc<Document>>, path: Seq<int>) -> bool {
    forall|i: int| 0 <= i < path.len() - 1 ==> adjacent(docs, #[trigger] path[i], path[i + 1])
}

/// Whether `b` can be reached from `a` over links.
pub open spec fn connected(docs: Seq<Arc<Document>>, a: int, b: int) -> bool {
    exists|path: Seq<int>|
        path.len() > 0 && path[0] == a && path.last() == b && #[trigger] is_path(docs, path)
}

/// `seen`, and after it the documents from `j` on that are linked with `v`
/// and not yet seen.
pub open spec fn discover(docs: Seq<Arc<Document>>, seen: Seq<int>, v: int, j: int) -> Seq<int>
    decreases docs.len() - j,
{
    if j < 0 || j >= docs.len() {
        seen
    } else if adjacent(docs, v, j) && !seen.contains(j) {
        discover(docs, seen.push(j), v, j + 1)
    } else {
        discover(docs, seen, v, j + 1)
    }
}

/// The documents in the order in which a breadth-first walk finds them, given
/// those seen so far, of which the first `head` have been visited.
pub open spec fn breadth_first(docs: Seq<Arc<Document>>, seen: Seq<int>, head: int) -> Seq<int>
    decreases docs.len() - head,
{
    if head < 0 || head >= seen.len() || head >= docs.len() {
        seen
    } else {
        breadth_first(docs, discover(docs, seen, seen[head], 0), head + 1)
    }
}

/// The subset of document `root`, as indices: the root first, then what is
/// linked with it, then what is linked with those, and so on; among the
/// documents found from one document, the order of the workspace.
pub open spec fn closure(docs: Seq<Arc<Document>>, root: int) -> Seq<int> {
    breadth_first(docs, seq![root], 0)
}

/// Whether `seen` can be the state of a walk from `root`: it starts with the
/// root, names documents of the workspace, none twice, and each can be
/// reached from the root.
pub open spec fn walk_inv(docs: Seq<Arc<Document>>, root: int, seen: Seq<int>) -> bool {
    &&& seen.len() > 0
    &&& seen[0] == root
    &&& seen.no_duplicates()
    &&& forall|i: int| 0 <= i < seen.len() ==> 0 <= #[trigger] seen[i] < docs.len()
    &&& forall|i: int| 0 <= i < seen.len() ==> connected(docs, root, #[trigger] seen[i])
}

/// Whether every document linked with one of the first `head` of `seen` is
/// in `seen`.
pub open spec fn visited_closed(docs: Seq<Arc<Document>>, seen: Seq<int>, head: int) -> bool {
    forall|i: int, j: int|
        0 <= i < head && i < seen.len() && 0 <= j < docs.len() && adjacent(
            docs,
            #[trigger] seen[i],
            j,
        ) ==> #[trigger] seen.contains(j)
}

/// A path can be extended by a document linked with its end.
pub proof fn lemma_connected_step(docs: Seq<Arc<Document>>, a: int, b: int, c: int)
    requires
        connected(docs, a, b),
        adjacent(docs, b, c),
    ensures
        connected(docs, a, c),
{
    let path = choose|path: Seq<int>|
        path.len() > 0 && path[0] == a && path.last() == b && #[trigger] is_path(docs, path);
    let longer = path.push(c);
    assert forall|i: int| 0 <= i < longer.len() - 1 implies adjacent(
        docs,
        #[trigger] longer[i],
        longer[i + 1],
    ) by {
        if i < path.len() - 1 {
            assert(adjacent(docs, path[i], path[i + 1]));
        }
    }
    assert(is_path(docs, longer));
    assert(longer[0] == a && longer.last() == c);
}

/// Every document is reached from itself.
pub proof fn lemma_connected_self(docs: Seq<Arc<Document>>, a: int)
    ensures
        connected(docs, a, a),
{
    let path = seq![a];
    assert(is_path(docs, path));
    assert(path[0] == a && path.last() == a);
}

/// A list of distinct indices of documents is no longer than the workspace.
pub proof fn lemma_distinct_indices_bounded(n: int, seen: Seq<int>)
    requires
        0 <= n,
        seen.no_duplicates(),
        forall|i: int| 0 <= i < seen.len() ==> 0 <= #[trigger] seen[i] < n,
    ensures
        seen.len() <= n,
{
    seen.unique_seq_to_set();
    let all = vstd::set_lib::set_int_range(0, n);
    vstd::set_lib::lemma_int_range(0, n);
    assert(seen.to_set().subset_of(all)) by {
        assert forall|x: int| seen.to_set().contains(x) implies all.contains(x) by {
            let i = choose|i: int| 0 <= i < seen.len() && seen[i] == x;
            assert(0 <= seen[i] < n);
        }
    }
    vstd::set_lib::lemma_len_subset(seen.to_set(), all);
}

/// What one visit adds: the walk stays a walk, what was seen stays seen and
/// in place, and every document from `j` on that is linked with `v` is seen
/// afterwards.
pub proof fn lemma_discover(docs: Seq<Arc<Document>>, root: int, seen: Seq<int>, v: int, j: int)
    requires
        walk_inv(docs, root, seen),
        connected(docs, root, v),
        0 <= j,
    ensures
        walk_inv(docs, root, discover(docs, seen, v, j)),
        seen.len() <= discover(docs, seen, v, j).len(),
        forall|i: int| 0 <= i < seen.len() ==> discover(docs, seen, v, j)[i] == seen[i],
        forall|k: int|
            j <= k < docs.len() && adjacent(docs, v, k) ==> #[trigger] discover(
                docs,
                seen,
                v,
                j,
            ).contains(k),
    decreases docs.len() - j,
{
    let after = discover(docs, seen, v, j);
    if j >= docs.len() {
    } else if adjacent(docs, v, j) && !seen.contains(j) {
        let next = seen.push(j);
        lemma_connected_step(docs, root, v, j);
        assert(walk_inv(docs, root, next)) by {
            assert forall|a: int, b: int|
                0 <= a < next.len() && 0 <= b < next.len() && a != b implies next[a] != next[b] by {
                if a == seen.len() {
                    assert(seen[b] != j);
                } else if b == seen.len() {
                    assert(seen[a] != j);
                }
            }
        }
        lemma_discover(docs, root, next, v, j + 1);
        assert forall|i: int| 0 <= i < seen.len() implies after[i] == seen[i] by {
            assert(after[i] == next[i]);
        }
        assert forall|k: int| j <= k < docs.len() && adjacent(docs, v, k) implies after.contains(
            k,
        ) by {
            if k == j {
                assert(after[seen.len() as int] == next[seen.len() as int]);
            }
        }
    } else {
        lemma_discover(docs, root, seen, v, j + 1);
        assert forall|k: int| j <= k < docs.len() && adjacent(docs, v, k) implies after.contains(
            k,
        ) by {
            if k == j {
                let i = choose|i: int| 0 <= i < seen.len() && seen[i] == j;
                assert(after[i] == j);
            }
        }
    }
}

/// The walk ends with all that was seen visited, and closed under links.
pub proof fn lemma_breadth_first(docs: Seq<Arc<Document>>, root: int, seen: Seq<int>, head: int)
    requires
        walk_inv(docs, root, seen),
        0 <= head <= seen.len(),
        visited_closed(docs, seen, head),
    ensures
        walk_inv(docs, root, breadth_first(docs, seen, head)),
        visited_closed(
            docs,
            breadth_first(docs, seen, head),
            breadth_first(docs, seen, head).len() as int,
        ),
    decreases docs.len() - head,
{
    lemma_distinct_indices_bounded(docs.len() as int, seen);
    if head >= seen.len() {
    } else {
        let v = seen[head];
        let next = discover(docs, seen, v, 0);
        lemma_discover(docs, root, seen, v, 0);
        assert(visited_closed(docs, next, head + 1)) by {
            assert forall|i: int, j: int|
                0 <= i < head + 1 && i < next.len() && 0 <= j < docs.len() && adjacent(
                    docs,
                    #[trigger] next[i],
                    j,
                ) implies #[trigger] next.contains(j) by {
                assert(next[i] == seen[i]);
                if i < head {
                    assert(seen.contains(j));
                    let k = choose|k: int| 0 <= k < seen.len() && seen[k] == j;
                    assert(next[k] == j);
                }
            }
        }
        lemma_breadth_first(docs, root, next, head + 1);
    }
}

/// What is closed under links and holds `a` holds all that `a` reaches.
pub proof fn lemma_closed_holds_connected(
    docs: Seq<Arc<Document>>,
    seen: Seq<int>,
    path: Seq<int>,
)
    requires
        visited_closed(docs, seen, seen.len() as int),
        path.len() > 0,
        seen.contains(path[0]),
        is_path(docs, path),
        forall|i: int| 0 <= i < path.len() ==> 0 <= #[trigger] path[i] < docs.len(),
    ensures
        seen.contains(path.last()),
    decreases path.len(),
{
    if path.len() > 1 {
        let shorter = path.drop_last();
        assert(is_path(docs, shorter)) by {
            assert forall|i: int| 0 <= i < shorter.len() - 1 implies adjacent(
                docs,
                #[trigger] shorter[i],
                shorter[i + 1],
            ) by {
                assert(adjacent(docs, path[i], path[i + 1]));
            }
        }
        assert(shorter[0] == path[0]);
        lemma_closed_holds_connected(docs, seen, shorter);
        let i = choose|i: int| 0 <= i < seen.len() && seen[i] == shorter.last();
        assert(adjacent(docs, path[path.len() - 2], path[path.len() - 2 + 1]));
        assert(seen.contains(path.last()));
    }
}

/// A link ends at a document of the workspace.
pub proof fn lemma_position_bounds(docs: Seq<Arc<Document>>, uri: UriView, k: int)
    requires
        0 <= k,
    ensures
        position_from(docs, uri, k) matches Some(i) ==> k <= i < docs.len() && docs[i].uri@ == uri,
        position_from(docs, uri, k) is None ==> forall|i: int|
            k <= i < docs.len() ==> (#[trigger] docs[i]).uri@ != uri,
    decreases docs.len() - k,
{
    if k < docs.len() && docs[k].uri@ != uri {
        lemma_position_bounds(docs, uri, k + 1);
    }
}

/// A list of candidates resolves to a document of the workspace.
pub proof fn lemma_resolves_bounds(docs: Seq<Arc<Document>>, targets: Seq<Uri>, k: int)
    requires
        0 <= k,
    ensures
        resolves_from(docs, targets, k) matches Some(i) ==> 0 <= i < docs.len(),
    decreases targets.len() - k,
{
    if k < targets.len() {
        lemma_position_bounds(docs, targets[k]@, 0);
        if position(docs, targets[k]@) is None {
            lemma_resolves_bounds(docs, targets, k + 1);
        }
    }
}

/// Linked documents are documents of the workspace.
pub proof fn lemma_adjacent_bounds(docs: Seq<Arc<Document>>, a: int, b: int)
    requires
        adjacent(docs, a, b),
    ensures
        0 <= a < docs.len(),
        0 <= b < docs.len(),
{
    if links(docs, a, b) {
        let k = choose|k: int|
            0 <= k < lists_at(docs, a).len() && resolves(
                docs,
                #[trigger] lists_at(docs, a)[k],
            ) == Some(b);
        lemma_resolves_bounds(docs, lists_at(docs, a)[k], 0);
    } else {
        let k = choose|k: int|
            0 <= k < lists_at(docs, b).len() && resolves(
                docs,
                #[trigger] lists_at(docs, b)[k],
            ) == Some(a);
        lemma_resolves_bounds(docs, lists_at(docs, b)[k], 0);
    }
}

/// The subset of a document holds the document, first; it holds every
/// document that can be reached from it over links, and no other; and it
/// holds none twice.
pub proof fn lemma_subset_is_closure(docs: Seq<Arc<Document>>, root: int)
    requires
        0 <= root < docs.len(),
    ensures
        closure(docs, root).len() > 0,
        closure(docs, root)[0] == root,
        closure(docs, root).no_duplicates(),
        forall|b: int| #[trigger]
            closure(docs, root).contains(b) <==> 0 <= b < docs.len() && connected(docs, root, b),
{
    let start = seq![root];
    lemma_connected_self(docs, root);
    assert(walk_inv(docs, root, start));
    assert(visited_closed(docs, start, 0));
    lemma_breadth_first(docs, root, start, 0);
    let result = closure(docs, root);
    assert forall|b: int| #[trigger]
        result.contains(b) <==> 0 <= b < docs.len() && connected(docs, root, b) by {
        if result.contains(b) {
            let i = choose|i: int| 0 <= i < result.len() && result[i] == b;
            assert(connected(docs, root, result[i]));
        }
        if 0 <= b < docs.len() && connected(docs, root, b) {
            let path = choose|path: Seq<int>|
                path.len() > 0 && path[0] == root && path.last() == b && #[trigger] is_path(
                    docs,
                    path,
                );
            assert forall|i: int| 0 <= i < path.len() implies 0 <= #[trigger] path[i]
                < docs.len() by {
                if i < path.len() - 1 {
                    assert(adjacent(docs, path[i], path[i + 1]));
                    lemma_adjacent_bounds(docs, path[i], path[i + 1]);
                } else if i > 0 {
                    assert(adjacent(docs, path[i - 1], path[i - 1 + 1]));
                    lemma_adjacent_bounds(docs, path[i - 1], path[i]);
                }
            }
            assert(result[0] == root);
            lemma_closed_holds_connected(docs, result, path);
        }
    }
}

/// The documents after one more is opened: it takes the place of the
/// document with its identity, or comes last where there is none.
pub open spec fn with_document(docs: Seq<Arc<Document>>, document: Arc<Document>) -> Seq<
    Arc<Document>,
> {
    match position(docs, document.uri@) {
        Some(i) => docs.update(i, document),
        None => docs.push(document),
    }
}

/// The documents at the given indices.
pub open spec fn documents_at(docs: Seq<Arc<Document>>, indices: Seq<int>) -> Seq<Arc<Document>> {
    Seq::new(indices.len(), |i: int| docs[indices[i]])
}

/// Indices as numbers.
pub open spec fn ints(indices: Seq<usize>) -> Seq<int> {
    indices.map_values(|i: usize| i as int)
}

/// The documents that belong to one document, that document first.
pub struct WorkspaceSubset {
    pub documents: Vec<Arc<Document>>,
}

/// Whether `x` is in the list.
fn contains_index(list: &Vec<usize>, x: usize) -> (r: bool)
    ensures
        r == list@.contains(x),
{
    let mut i: usize = 0;
    while i < list.len()
        invariant
            i <= list.len(),
            forall|k: int| 0 <= k < i ==> list@[k] != x,
        decreases list.len() - i,
    {
        if list[i] == x {
            return true;
        }
        i += 1;
    }
    false
}

/// The index of the document with the given identity.
pub fn index_of(docs: &Vec<Arc<Document>>, uri: &Uri) -> (r: Option<usize>)
    ensures
        crate::syntax::as_index(r) == position(docs@, uri@),
        r matches Some(i) ==> i < docs.len() && docs@[i as int].uri@ == uri@,
        r is None ==> forall|i: int| 0 <= i < docs.len() ==> (#[trigger] docs@[i]).uri@ != uri@,
{
    let mut k: usize = 0;
    proof {
        lemma_position_bounds(docs@, uri@, 0);
    }
    while k < docs.len()
        invariant
            k <= docs.len(),
            position_from(docs@, uri@, k as int) == position(docs@, uri@),
        decreases docs.len() - k,
    {
        if docs[k].uri.same(uri) {
            return Some(k);
        }
        k += 1;
    }
    None
}

/// The document that a list of candidates resolves to.
pub fn resolve(docs: &Vec<Arc<Document>>, targets: &Vec<Uri>) -> (r: Option<usize>)
    ensures
        crate::syntax::as_index(r) == resolves(docs@, targets@),
        r matches Some(i) ==> i < docs.len(),
{
    let mut k: usize = 0;
    while k < targets.len()
        invariant
            k <= targets.len(),
            resolves_from(docs@, targets@, k as int) == resolves(docs@, targets@),
        decreases targets.len() - k,
    {
        match index_of(docs, &targets[k]) {
            Some(i) => {
                return Some(i);
            },
            None => {},
        }
        k += 1;
    }
    None
}

/// The documents that document `a` names.
pub fn links_of(docs: &Vec<Arc<Document>>, a: usize) -> (out: Vec<usize>)
    requires
        a < docs.len(),
    ensures
        forall|b: usize| out@.contains(b) <==> links(docs@, a as int, b as int),
{
    let mut out: Vec<usize> = Vec::new();
    let ghost lists = lists_at(docs@, a as int);
    match &docs[a].data {
        DocumentData::Latex(data) => {
            let extras = &data.extras;
            let ghost explicit = extras.explicit_links@.map_values(|l: ExplicitLink| l.targets@);
            proof {
                assert(lists =~= seq![extras.implicit_links.aux@, extras.implicit_links.log@]
                    + explicit);
            }
            match resolve(docs, &extras.implicit_links.aux) {
                Some(b) => {
                    out.push(b);
                },
                None => {},
            }
            let ghost after_aux = out@;
            match resolve(docs, &extras.implicit_links.log) {
                Some(b) => {
                    out.push(b);
                },
                None => {},
            }
            proof {
                assert forall|b: usize| out@.contains(b) <==> exists|k: int|
                    0 <= k < 2 && resolves(docs@, #[trigger] lists[k]) == Some(b as int) by {
                    if out@.contains(b) {
                        let i = choose|i: int| 0 <= i < out@.len() && out@[i] == b;
                        if i < after_aux.len() {
                            assert(resolves(docs@, lists[0]) == Some(b as int));
                        } else {
                            assert(resolves(docs@, lists[1]) == Some(b as int));
                        }
                    }
                    if exists|k: int|
                        0 <= k < 2 && resolves(docs@, #[trigger] lists[k]) == Some(b as int) {
                        let k = choose|k: int|
                            0 <= k < 2 && resolves(docs@, #[trigger] lists[k]) == Some(b as int);
                        if k == 0 {
                            assert(after_aux[0] == b);
                            assert(out@[0] == b);
                        } else {
                            assert(out@[out@.len() - 1] == b);
                        }
                    }
                }
            }
            let mut n: usize = 0;
            while n < extras.explicit_links.len()
                invariant
                    n <= extras.explicit_links.len(),
                    lists.len() == 2 + extras.explicit_links.len(),
                    forall|k: int|
                        0 <= k < extras.explicit_links.len() ==> lists[2 + k]
                            == #[trigger] extras.explicit_links@[k].targets@,
                    forall|b: usize|
                        out@.contains(b) <==> exists|k: int|
                            0 <= k < 2 + n && resolves(docs@, #[trigger] lists[k]) == Some(
                                b as int,
                            ),
                decreases extras.explicit_links.len() - n,
            {
                let ghost before = out@;
                let found = resolve(docs, &extras.explicit_links[n].targets);
                match found {
                    Some(b) => {
                        out.push(b);
                    },
                    None => {},
                }
                proof {
                    assert(lists[2 + n] == extras.explicit_links@[n as int].targets@);
                    assert forall|b: usize| out@.contains(b) <==> exists|k: int|
                        0 <= k < 2 + n + 1 && resolves(docs@, #[trigger] lists[k]) == Some(
                            b as int,
                        ) by {
                        if out@.contains(b) {
                            let i = choose|i: int| 0 <= i < out@.len() && out@[i] == b;
                            if i < before.len() {
                                assert(before.contains(b));
                            } else {
                                assert(resolves(docs@, lists[2 + n]) == Some(b as int));
                            }
                        }
                        if exists|k: int|
                            0 <= k < 2 + n + 1 && resolves(docs@, #[trigger] lists[k]) == Some(
                                b as int,
                            ) {
                            let k = choose|k: int|
                                0 <= k < 2 + n + 1 && resolves(docs@, #[trigger] lists[k])
                                    == Some(b as int);
                            if k < 2 + n {
                                assert(before.contains(b));
                                let i = choose|i: int| 0 <= i < before.len() && before[i] == b;
                                assert(out@[i] == b);
                            } else {
                                assert(out@[out@.len() - 1] == b);
                            }
                        }
                    }
                }
                n += 1;
            }
        },
        _ => {
            proof {
                assert(lists.len() == 0);
            }
        },
    }
    out
}

/// For each document, the documents that it names.
pub fn all_links(docs: &Vec<Arc<Document>>) -> (edges: Vec<Vec<usize>>)
    ensures
        edges.len() == docs.len(),
        forall|a: int, b: usize|
            0 <= a < docs.len() ==> (#[trigger] edges@[a]@.contains(b) <==> links(
                docs@,
                a,
                b as int,
            )),
{
    let mut edges: Vec<Vec<usize>> = Vec::new();
    let mut a: usize = 0;
    while a < docs.len()
        invariant
            a <= docs.len(),
            edges.len() == a,
            forall|x: int, b: usize|
                0 <= x < a ==> (#[trigger] edges@[x]@.contains(b) <==> links(
                    docs@,
                    x,
                    b as int,
                )),
        decreases docs.len() - a,
    {
        let out = links_of(docs, a);
        edges.push(out);
        a += 1;
    }
    edges
}

/// The subset of document `root`, as indices.
pub fn closure_of(docs: &Vec<Arc<Document>>, root: usize) -> (seen: Vec<usize>)
    requires
        root < docs.len(),
    ensures
        ints(seen@) == closure(docs@, root as int),
        forall|i: int| 0 <= i < seen.len() ==> (#[trigger] seen@[i]) < docs.len(),
{
    let n = docs.len();
    let edges = all_links(docs);
    let mut seen: Vec<usize> = Vec::new();
    let mut marked: Vec<bool> = Vec::new();
    let mut m: usize = 0;
    while m < n
        invariant
            m <= n,
            marked.len() == m,
            forall|j: int| 0 <= j < m ==> !(#[trigger] marked@[j]),
        decreases n - m,
    {
        marked.push(false);
        m += 1;
    }
    seen.push(root);
    marked.set(root, true);
    proof {
        assert(ints(seen@) =~= seq![root as int]);
        assert forall|j: int| 0 <= j < n implies (#[trigger] marked@[j] <==> ints(
            seen@,
        ).contains(j)) by {
            if j == root {
                assert(ints(seen@)[0] == j);
            }
        }
    }
    let mut head: usize = 0;
    while head < seen.len() && head < n
        invariant
            n == docs.len(),
            edges.len() == n,
            marked.len() == n,
            forall|a: int, b: usize|
                0 <= a < n ==> (#[trigger] edges@[a]@.contains(b) <==> links(docs@, a, b as int)),
            forall|i: int| 0 <= i < seen.len() ==> (#[trigger] seen@[i]) < n,
            forall|j: int| 0 <= j < n ==> (#[trigger] marked@[j] <==> ints(seen@).contains(j)),
            breadth_first(docs@, ints(seen@), head as int) == closure(docs@, root as int),
        decreases n - head,
    {
        let v = seen[head];
        let mut j: usize = 0;
        proof {
            assert(ints(seen@)[head as int] == v);
        }
        while j < n
            invariant
                j <= n == docs.len(),
                edges.len() == n,
                marked.len() == n,
                v < n,
                head < n,
                forall|a: int, b: usize|
                    0 <= a < n ==> (#[trigger] edges@[a]@.contains(b) <==> links(
                        docs@,
                        a,
                        b as int,
                    )),
                forall|i: int| 0 <= i < seen.len() ==> (#[trigger] seen@[i]) < n,
                forall|k: int| 0 <= k < n ==> (#[trigger] marked@[k] <==> ints(seen@).contains(k)),
                breadth_first(
                    docs@,
                    discover(docs@, ints(seen@), v as int, j as int),
                    head + 1,
                ) == closure(docs@, root as int),
            decreases n - j,
        {
            let linked = contains_index(&edges[v], j) || contains_index(&edges[j], v);
            proof {
                assert(edges@[v as int]@.contains(j) <==> links(docs@, v as int, j as int));
                assert(edges@[j as int]@.contains(v) <==> links(docs@, j as int, v as int));
                assert(linked == adjacent(docs@, v as int, j as int));
            }
            if linked && !marked[j] {
                let ghost before = seen@;
                seen.push(j);
                marked.set(j, true);
                proof {
                    assert(ints(seen@) =~= ints(before).push(j as int));
                    assert forall|k: int| 0 <= k < n implies (#[trigger] marked@[k] <==> ints(
                        seen@,
                    ).contains(k)) by {
                        if k == j {
                            assert(ints(seen@)[before.len() as int] == k);
                        } else if ints(before).contains(k) {
                            let i = choose|i: int| 0 <= i < before.len() && ints(before)[i] == k;
                            assert(ints(seen@)[i] == k);
                        } else if ints(seen@).contains(k) {
                            let i = choose|i: int| 0 <= i < seen@.len() && ints(seen@)[i] == k;
                            assert(ints(before)[i] == k);
                        }
                    }
                }
            }
            j += 1;
        }
        head += 1;
    }
    seen
}

/// Whether document `d` is still needed: it can be reached from a document
/// that the editor has open (an open document is reached from itself).
pub open spec fn needed(docs: Seq<Arc<Document>>, opened: Set<UriView>, d: int) -> bool {
    exists|o: int|
        0 <= o < docs.len() && opened.contains((#[trigger] docs[o]).uri@) && connected(docs, o, d)
}

/// The documents among the first `k` that are still needed, in order.
pub open spec fn kept(docs: Seq<Arc<Document>>, opened: Set<UriView>, k: int) -> Seq<
    Arc<Document>,
>
    decreases k,
{
    if k <= 0 {
        Seq::empty()
    } else if needed(docs, opened, k - 1) {
        kept(docs, opened, k - 1).push(docs[k - 1])
    } else {
        kept(docs, opened, k - 1)
    }
}

/// The identities in a list.
pub open spec fn uri_set(uris: Seq<Uri>) -> Set<UriView> {
    Set::new(|u: UriView| exists|i: int| 0 <= i < uris.len() && (#[trigger] uris[i])@ == u)
}

/// What is kept of distinct documents is distinct, and each kept document is
/// one of the first `k`.
pub proof fn lemma_kept_distinct(docs: Seq<Arc<Document>>, opened: Set<UriView>, k: int)
    requires
        distinct(docs),
        0 <= k <= docs.len(),
    ensures
        distinct(kept(docs, opened, k)),
        forall|i: int|
            0 <= i < kept(docs, opened, k).len() ==> exists|j: int|
                0 <= j < k && docs[j] == #[trigger] kept(docs, opened, k)[i],
    decreases k,
{
    if k > 0 {
        lemma_kept_distinct(docs, opened, k - 1);
        let before = kept(docs, opened, k - 1);
        let after = kept(docs, opened, k);
        if needed(docs, opened, k - 1) {
            assert forall|i: int| 0 <= i < after.len() implies exists|j: int|
                0 <= j < k && docs[j] == #[trigger] after[i] by {
                if i < before.len() {
                    let j = choose|j: int| 0 <= j < k - 1 && docs[j] == before[i];
                    assert(docs[j] == after[i]);
                } else {
                    assert(docs[k - 1] == after[i]);
                }
            }
            assert forall|a: int, b: int|
                0 <= a < after.len() && 0 <= b < after.len() && (#[trigger] after[a]).uri@ == (
                #[trigger] after[b]).uri@ implies a == b by {
                let ja = choose|j: int| 0 <= j < k && docs[j] == after[a];
                let jb = choose|j: int| 0 <= j < k && docs[j] == after[b];
                if a < before.len() && b < before.len() {
                    assert(before[a] == after[a] && before[b] == after[b]);
                } else if a < before.len() {
                    let j = choose|j: int| 0 <= j < k - 1 && docs[j] == before[a];
                    assert(docs[j].uri@ == docs[k - 1].uri@);
                } else if b < before.len() {
                    let j = choose|j: int| 0 <= j < k - 1 && docs[j] == before[b];
                    assert(docs[j].uri@ == docs[k - 1].uri@);
                }
            }
        } else {
            assert forall|i: int| 0 <= i < after.len() implies exists|j: int|
                0 <= j < k && docs[j] == #[trigger] after[i] by {
                let j = choose|j: int| 0 <= j < k - 1 && docs[j] == before[i];
                assert(docs[j] == after[i]);
            }
        }
    }
}

/// What a workspace offers. Each layer of a workspace offers the same.
pub trait Workspace {
    /// The documents of the workspace, in the order in which their
    /// identities came in.
    spec fn documents_of(&self) -> Seq<Arc<Document>>;

    /// The identities of the documents that the editor has open.
    spec fn opened_of(&self) -> Set<UriView>;

    /// What holds of a workspace between calls; among it, that no two
    /// documents share an identity.
    spec fn inv(&self) -> bool;

    /// No two documents of a workspace share an identity.
    proof fn lemma_distinct(&self)
        requires
            self.inv(),
        ensures
            distinct(self.documents_of()),
    ;

    /// Takes a snapshot in. It replaces the snapshot with the same identity,
    /// if there is one; the editor's documents are marked as open.
    fn open(&mut self, document: Arc<Document>, source: WorkspaceSource) -> (r: Arc<Document>)
        requires
            old(self).inv(),
        ensures
            final(self).inv(),
            r == document,
            final(self).documents_of() == with_document(old(self).documents_of(), document),
            final(self).opened_of() == (if source == WorkspaceSource::Client {
                old(self).opened_of().insert(document.uri@)
            } else {
                old(self).opened_of()
            }),
    ;

    /// The snapshots of all documents.
    fn documents(&self) -> (r: Vec<Arc<Document>>)
        requires
            self.inv(),
        ensures
            r@ == self.documents_of(),
    ;

    /// Whether a document with this identity is in the workspace.
    fn has(&self, uri: &Uri) -> (r: bool)
        requires
            self.inv(),
        ensures
            r == position(self.documents_of(), uri@) is Some,
    ;

    /// The current snapshot of the document with this identity.
    fn get(&self, uri: &Uri) -> (r: Option<Arc<Document>>)
        requires
            self.inv(),
        ensures
            r == (match position(self.documents_of(), uri@) {
                Some(i) => Some(self.documents_of()[i]),
                None => None,
            }),
    ;

    /// Takes note that the editor has closed a document. Documents that
    /// cannot be reached from an open document any more leave the workspace.
    fn close(&mut self, uri: &Uri)
        requires
            old(self).inv(),
        ensures
            final(self).inv(),
            final(self).opened_of() == old(self).opened_of().remove(uri@),
            final(self).documents_of() == kept(
                old(self).documents_of(),
                old(self).opened_of().remove(uri@),
                old(self).documents_of().len() as int,
            ),
    ;

    /// Whether the editor has the document open.
    fn is_open(&self, uri: &Uri) -> (r: bool)
        requires
            self.inv(),
        ensures
            r == self.opened_of().contains(uri@),
    ;

    /// The documents that belong to the document with this identity.
    fn subset(&self, uri: &Uri) -> (r: Option<WorkspaceSubset>)
        requires
            self.inv(),
        ensures
            r is Some <==> position(self.documents_of(), uri@) is Some,
            r matches Some(s) ==> s.documents@ == documents_at(
                self.documents_of(),
                closure(self.documents_of(), position(self.documents_of(), uri@)->0),
            ),
    ;
}

/// The base of a workspace: it keeps the snapshots.
pub struct Storage {
    documents: Vec<Arc<Document>>,
    opened: Vec<Uri>,
}

impl Storage {
    /// A workspace without documents.
    pub fn new() -> (r: Storage)
        ensures
            r.inv(),
            r.documents_of().len() == 0,
            r.opened_of() == Set::<UriView>::empty(),
    {
        let r = Storage { documents: Vec::new(), opened: Vec::new() };
        proof {
            assert(r.opened_of() =~= Set::<UriView>::empty());
        }
        r
    }
}

impl Workspace for Storage {
    closed spec fn documents_of(&self) -> Seq<Arc<Document>> {
        self.documents@
    }

    closed spec fn opened_of(&self) -> Set<UriView> {
        uri_set(self.opened@)
    }

    closed spec fn inv(&self) -> bool {
        distinct(self.documents@)
    }

    proof fn lemma_distinct(&self) {
    }

    fn open(&mut self, document: Arc<Document>, source: WorkspaceSource) -> (r: Arc<Document>) {
        let found = index_of(&self.documents, &document.uri);
        let result = share(&document);
        let ghost before = self.documents@;
        let ghost opened_before = self.opened@;
        match source {
            WorkspaceSource::Client => {
                self.opened.push(document.uri.duplicate());
                proof {
                    assert(uri_set(self.opened@) =~= uri_set(opened_before).insert(
                        document.uri@,
                    )) by {
                        assert forall|u: UriView|
                            uri_set(self.opened@).contains(u) <==> uri_set(opened_before).insert(
                                document.uri@,
                            ).contains(u) by {
                            if uri_set(self.opened@).contains(u) {
                                let i = choose|i: int|
                                    0 <= i < self.opened@.len() && (#[trigger] self.opened@[i])@
                                        == u;
                                if i < opened_before.len() {
                                    assert(opened_before[i]@ == u);
                                }
                            }
                            if uri_set(opened_before).contains(u) {
                                let i = choose|i: int|
                                    0 <= i < opened_before.len() && (
                                    #[trigger] opened_before[i])@ == u;
                                assert(self.opened@[i]@ == u);
                            }
                            if u == document.uri@ {
                                assert(self.opened@[opened_before.len() as int]@ == u);
                            }
                        }
                    }
                }
            },
            WorkspaceSource::Server => {},
        }
        match found {
            Some(i) => {
                self.documents.set(i, document);
                proof {
                    assert forall|a: int, b: int|
                        0 <= a < self.documents@.len() && 0 <= b < self.documents@.len() && (
                        #[trigger] self.documents@[a]).uri@ == (
                        #[trigger] self.documents@[b]).uri@ implies a == b by {
                        assert(self.documents@[a].uri@ == before[a].uri@);
                        assert(self.documents@[b].uri@ == before[b].uri@);
                    }
                }
            },
            None => {
                self.documents.push(document);
                proof {
                    assert forall|a: int, b: int|
                        0 <= a < self.documents@.len() && 0 <= b < self.documents@.len() && (
                        #[trigger] self.documents@[a]).uri@ == (
                        #[trigger] self.documents@[b]).uri@ implies a == b by {
                        if a < before.len() {
                            assert(self.documents@[a] == before[a]);
                        }
                        if b < before.len() {
                            assert(self.documents@[b] == before[b]);
                        }
                    }
                }
            },
        }
        result
    }

    fn documents(&self) -> (r: Vec<Arc<Document>>) {
        let mut out: Vec<Arc<Document>> = Vec::new();
        let mut i: usize = 0;
        while i < self.documents.len()
            invariant
                i <= self.documents.len(),
                out@ == self.documents@.take(i as int),
            decreases self.documents.len() - i,
        {
            out.push(share(&self.documents[i]));
            proof {
                assert(out@ =~= self.documents@.take(i + 1));
            }
            i += 1;
        }
        proof {
            assert(self.documents@.take(self.documents.len() as int) =~= self.documents@);
        }
        out
    }

    fn has(&self, uri: &Uri) -> (r: bool) {
        index_of(&self.documents, uri).is_some()
    }

    fn get(&self, uri: &Uri) -> (r: Option<Arc<Document>>) {
        match index_of(&self.documents, uri) {
            Some(i) => Some(share(&self.documents[i])),
            None => None,
        }
    }

    fn close(&mut self, uri: &Uri) {
        let ghost docs = self.documents@;
        let ghost opened_before = self.opened@;
        let mut still: Vec<Uri> = Vec::new();
        let mut k: usize = 0;
        proof {
            assert(uri_set(still@) =~= uri_set(self.opened@.take(0)).remove(uri@));
        }
        while k < self.opened.len()
            invariant
                k <= self.opened.len(),
                uri_set(still@) == uri_set(self.opened@.take(k as int)).remove(uri@),
            decreases self.opened.len() - k,
        {
            let ghost before = still@;
            let ghost upto = self.opened@.take(k as int);
            let ghost next = self.opened@.take(k + 1);
            let ghost current = self.opened@[k as int]@;
            let closing = self.opened[k].same(uri);
            if !closing {
                still.push(self.opened[k].duplicate());
            }
            proof {
                assert(next[k as int]@ == current);
                assert forall|u: UriView|
                    uri_set(still@).contains(u) implies u != uri@ && uri_set(next).contains(u) by {
                    let i = choose|i: int| 0 <= i < still@.len() && (#[trigger] still@[i])@ == u;
                    if i < before.len() {
                        assert(before[i]@ == u);
                        assert(uri_set(before).contains(u));
                        assert(uri_set(upto).contains(u));
                        let j = choose|j: int| 0 <= j < upto.len() && (#[trigger] upto[j])@ == u;
                        assert(next[j]@ == u);
                    } else {
                        assert(!closing);
                        assert(u == current);
                    }
                }
                assert forall|u: UriView|
                    u != uri@ && uri_set(next).contains(u) implies uri_set(still@).contains(u) by {
                    let j = choose|j: int| 0 <= j < next.len() && (#[trigger] next[j])@ == u;
                    if j < k {
                        assert(upto[j]@ == u);
                        assert(uri_set(upto).contains(u));
                        assert(uri_set(before).contains(u));
                        let i = choose|i: int|
                            0 <= i < before.len() && (#[trigger] before[i])@ == u;
                        assert(still@[i]@ == u);
                    } else {
                        assert(u == current);
                        assert(!closing);
                        assert(still@[before.len() as int]@ == u);
                    }
                }
                assert(uri_set(still@) =~= uri_set(next).remove(uri@));
            }
            k += 1;
        }
        proof {
            assert(self.opened@.take(self.opened.len() as int) =~= self.opened@);
            assert(uri_set(still@) =~= uri_set(opened_before).remove(uri@));
        }
        self.opened = still;
        let ghost opened = uri_set(self.opened@);
        let n = self.documents.len();
        let mut keep: Vec<bool> = Vec::new();
        let mut m: usize = 0;
        while m < n
            invariant
                m <= n,
                keep.len() == m,
                forall|j: int| 0 <= j < m ==> !(#[trigger] keep@[j]),
            decreases n - m,
        {
            keep.push(false);
            m += 1;
        }
        let mut o: usize = 0;
        while o < n
            invariant
                o <= n == self.documents.len(),
                keep.len() == n,
                self.documents@ == docs,
                opened == uri_set(self.opened@),
                forall|d: int|
                    0 <= d < n ==> (#[trigger] keep@[d] <==> exists|x: int|
                        0 <= x < o && opened.contains((#[trigger] docs[x]).uri@) && connected(
                            docs,
                            x,
                            d,
                        )),
            decreases n - o,
        {
            if contains_uri(&self.opened, &self.documents[o].uri) {
                let reach = closure_of(&self.documents, o);
                proof {
                    lemma_subset_is_closure(docs, o as int);
                }
                let ghost keep_before = keep@;
                let mut i: usize = 0;
                while i < reach.len()
                    invariant
                        i <= reach.len(),
                        keep.len() == n,
                        keep_before.len() == n,
                        n == docs.len(),
                        forall|t: int| 0 <= t < reach.len() ==> (#[trigger] reach@[t]) < n,
                        forall|d: int|
                            0 <= d < n ==> (#[trigger] keep@[d] <==> keep_before[d] || exists|
                                t: int,
                            |
                                0 <= t < i && (#[trigger] reach@[t]) == d),
                    decreases reach.len() - i,
                {
                    keep.set(reach[i], true);
                    i += 1;
                }
                proof {
                    assert forall|d: int| 0 <= d < n implies (#[trigger] keep@[d] <==> exists|
                        x: int,
                    |
                        0 <= x < o + 1 && opened.contains((#[trigger] docs[x]).uri@) && connected(
                            docs,
                            x,
                            d,
                        )) by {
                        if keep@[d] {
                            if keep_before[d] {
                                let x = choose|x: int|
                                    0 <= x < o && opened.contains((#[trigger] docs[x]).uri@)
                                        && connected(docs, x, d);
                                assert(0 <= x < o + 1);
                            } else {
                                let t = choose|t: int|
                                    0 <= t < reach.len() && (#[trigger] reach@[t]) == d;
                                assert(ints(reach@)[t] == d);
                                assert(closure(docs, o as int).contains(d));
                                assert(opened.contains(docs[o as int].uri@));
                            }
                        }
                        if exists|x: int|
                            0 <= x < o + 1 && opened.contains((#[trigger] docs[x]).uri@)
                                && connected(docs, x, d) {
                            let x = choose|x: int|
                                0 <= x < o + 1 && opened.contains((#[trigger] docs[x]).uri@)
                                    && connected(docs, x, d);
                            if x < o {
                                assert(keep_before[d]);
                            } else {
                                assert(closure(docs, o as int).contains(d));
                                let t = choose|t: int|
                                    0 <= t < ints(reach@).len() && ints(reach@)[t] == d;
                                assert(reach@[t] == d);
                            }
                        }
                    }
                }
            } else {
                proof {
                    assert forall|d: int| 0 <= d < n implies (#[trigger] keep@[d] <==> exists|
                        x: int,
                    |
                        0 <= x < o + 1 && opened.contains((#[trigger] docs[x]).uri@) && connected(
                            docs,
                            x,
                            d,
                        )) by {
                        if keep@[d] {
                            let x = choose|x: int|
                                0 <= x < o && opened.contains((#[trigger] docs[x]).uri@)
                                    && connected(docs, x, d);
                            assert(0 <= x < o + 1);
                        }
                    }
                }
            }
            o += 1;
        }
        let mut rest: Vec<Arc<Document>> = Vec::new();
        let mut d: usize = 0;
        while d < n
            invariant
                d <= n == self.documents.len(),
                keep.len() == n,
                self.documents@ == docs,
                forall|x: int| 0 <= x < n ==> (#[trigger] keep@[x] <==> needed(docs, opened, x)),
                rest@ == kept(docs, opened, d as int),
            decreases n - d,
        {
            if keep[d] {
                rest.push(share(&self.documents[d]));
            }
            d += 1;
        }
        proof {
            lemma_kept_distinct(docs, opened, n as int);
        }
        self.documents = rest;
    }

    fn is_open(&self, uri: &Uri) -> (r: bool) {
        contains_uri(&self.opened, uri)
    }

    fn subset(&self, uri: &Uri) -> (r: Option<WorkspaceSubset>) {
        let root = match index_of(&self.documents, uri) {
            Some(i) => i,
            None => {
                return None;
            },
        };
        let order = closure_of(&self.documents, root);
        let mut documents: Vec<Arc<Document>> = Vec::new();
        let mut i: usize = 0;
        let ghost want = documents_at(self.documents@, closure(self.documents@, root as int));
        while i < order.len()
            invariant
                i <= order.len(),
                ints(order@) == closure(self.documents@, root as int),
                forall|t: int| 0 <= t < order.len() ==> (#[trigger] order@[t]) < self.documents.len(),
                want == documents_at(self.documents@, closure(self.documents@, root as int)),
                documents@ == want.take(i as int),
            decreases order.len() - i,
        {
            documents.push(share(&self.documents[order[i]]));
            proof {
                assert(ints(order@)[i as int] == order@[i as int]);
                assert(documents@ =~= want.take(i + 1));
            }
            i += 1;
        }
        proof {
            assert(want.take(order.len() as int) =~= want);
        }
        Some(WorkspaceSubset { documents })
    }
}

/// Whether an identity is in the list.
pub fn contains_uri(uris: &Vec<Uri>, uri: &Uri) -> (r: bool)
    ensures
        r == uri_set(uris@).contains(uri@),
{
    let mut i: usize = 0;
    while i < uris.len()
        invariant
            i <= uris.len(),
            forall|k: int| 0 <= k < i ==> (#[trigger] uris@[k])@ != uri@,
        decreases uris.len() - i,
    {
        if uris[i].same(uri) {
            return true;
        }
        i += 1;
    }
    false
}

/// The current snapshot of the document with the given identity.
pub open spec fn lookup(docs: Seq<Arc<Document>>, uri: UriView) -> Option<Arc<Document>> {
    match position(docs, uri) {
        Some(i) => Some(docs[i]),
        None => None,
    }
}

/// The documents after each of `opened` was opened in turn.
pub open spec fn open_all(docs: Seq<Arc<Document>>, opened: Seq<Arc<Document>>) -> Seq<
    Arc<Document>,
>
    decreases opened.len(),
{
    if opened.len() == 0 {
        docs
    } else {
        with_document(open_all(docs, opened.drop_last()), opened.last())
    }
}

/// The last of `opened` with the given identity.
pub open spec fn last_opened(opened: Seq<Arc<Document>>, uri: UriView) -> Option<Arc<Document>>
    decreases opened.len(),
{
    if opened.len() == 0 {
        None
    } else if opened.last().uri@ == uri {
        Some(opened.last())
    } else {
        last_opened(opened.drop_last(), uri)
    }
}

/// Two positions from `k` on agree where the documents from `k` on have the
/// same identities.
proof fn lemma_position_same_identities(
    a: Seq<Arc<Document>>,
    b: Seq<Arc<Document>>,
    uri: UriView,
    k: int,
)
    requires
        0 <= k,
        a.len() == b.len(),
        forall|i: int| k <= i < a.len() ==> (#[trigger] a[i]).uri@ == b[i].uri@,
    ensures
        position_from(a, uri, k) == position_from(b, uri, k),
    decreases a.len() - k,
{
    if k < a.len() {
        assert(a[k].uri@ == b[k].uri@);
        if a[k].uri@ != uri {
            lemma_position_same_identities(a, b, uri, k + 1);
        }
    }
}

/// The position in a list with one more document at its end.
proof fn lemma_position_push(docs: Seq<Arc<Document>>, d: Arc<Document>, uri: UriView, k: int)
    requires
        0 <= k <= docs.len(),
    ensures
        position_from(docs.push(d), uri, k) == (match position_from(docs, uri, k) {
            Some(i) => Some(i),
            None => if d.uri@ == uri {
                Some(docs.len() as int)
            } else {
                None
            },
        }),
    decreases docs.len() - k,
{
    let longer = docs.push(d);
    if k < docs.len() {
        assert(longer[k] == docs[k]);
        if docs[k].uri@ != uri {
            lemma_position_push(docs, d, uri, k + 1);
        }
    } else {
        assert(longer[k] == d);
        assert(position_from(longer, uri, k + 1) is None);
    }
}

/// After a document was opened, a lookup by its identity gives that very
/// snapshot, and a lookup by any other identity gives what it gave before.
pub proof fn lemma_lookup_with_document(
    docs: Seq<Arc<Document>>,
    document: Arc<Document>,
    uri: UriView,
)
    ensures
        lookup(with_document(docs, document), uri) == (if uri == document.uri@ {
            Some(document)
        } else {
            lookup(docs, uri)
        }),
{
    let after = with_document(docs, document);
    lemma_position_bounds(docs, document.uri@, 0);
    lemma_position_bounds(docs, uri, 0);
    match position(docs, document.uri@) {
        Some(i) => {
            assert forall|j: int| 0 <= j < docs.len() implies (#[trigger] after[j]).uri@
                == docs[j].uri@ by {}
            lemma_position_same_identities(after, docs, uri, 0);
        },
        None => {
            lemma_position_push(docs, document, uri, 0);
        },
    }
}

/// Whatever documents were opened in whatever order, a lookup gives a whole
/// snapshot that was supplied: the last one opened under that identity, or,
/// where none was, what the workspace held before.
pub proof fn lemma_lookup_after_opens(
    docs: Seq<Arc<Document>>,
    opened: Seq<Arc<Document>>,
    uri: UriView,
)
    ensures
        lookup(open_all(docs, opened), uri) == (match last_opened(opened, uri) {
            Some(d) => Some(d),
            None => lookup(docs, uri),
        }),
    decreases opened.len(),
{
    if opened.len() > 0 {
        lemma_lookup_after_opens(docs, opened.drop_last(), uri);
        lemma_lookup_with_document(open_all(docs, opened.drop_last()), opened.last(), uri);
    }
}

} // verus!
