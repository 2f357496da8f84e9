//! The requests that are under way: those that the editor sent and that are
//! not answered yet, and those that were sent to the editor.
//!
//! lsp_server has a queue of this kind, `ReqQueue`; the tables here are the
//! crate's own, for three reasons.
//! - What is kept for a request is for the owner to choose, so the tables
//!   have a type parameter. Verus can be told what an outside table holds
//!   only through an uninterpreted function, and such a function takes no
//!   type parameters.
//! - `Outgoing::complete` of lsp_server panics for an identifier that is not
//!   in its table, `Outgoing::register` adds one to a counter that may be at
//!   its limit, and neither the table nor the counter can be asked. An
//!   answer of the editor may name any identifier, so a server that must not
//!   panic would have to keep a second table beside that one to decide.
//! - Its tables are hash maps keyed by the identifier, a type that vstd has
//!   no key model for: nothing could be proved of what they hold.

use crate::text::str_eq;
use vstd::prelude::*;

verus! {

/// The identifier of a request.
#[derive(Debug, PartialEq, Eq, Clone, Hash)]
pub enum RequestId {
    Number(i32),
    Text(String),
}

/// What a [`RequestId`] holds.
pub ghost enum RequestIdView {
    Number(i32),
    Text(Seq<char>),
}

impl View for RequestId {
    type V = RequestIdView;

    open spec fn view(&self) -> RequestIdView {
        match self {
            RequestId::Number(n) => RequestIdView::Number(*n),
            RequestId::Text(s) => RequestIdView::Text(s@),
        }
    }
}

impl RequestId {
    /// Whether two identifiers are the same.
    pub fn same(&self, other: &RequestId) -> (r: bool)
        ensures
            r == (self@ == other@),
    {
        match (self, other) {
            (RequestId::Number(a), RequestId::Number(b)) => *a == *b,
            (RequestId::Text(a), RequestId::Text(b)) => str_eq(a.as_str(), b.as_str()),
            _ => false,
        }
    }

    /// A copy of the identifier.
    pub fn duplicate(&self) -> (r: RequestId)
        ensures
            r@ == self@,
    {
        match self {
            RequestId::Number(n) => RequestId::Number(*n),
            RequestId::Text(s) => RequestId::Text(s.clone()),
        }
    }
}

/// The index of the first entry from `k` on with the given identifier.
pub open spec fn entry_from<T>(entries: Seq<(RequestId, T)>, id: RequestIdView, k: int) -> Option<
    int,
>
    decreases entries.len() - k,
{
    if k < 0 || k >= entries.len() {
        None
    } else if entries[k].0@ == id {
        Some(k)
    } else {
        entry_from(entries, id, k + 1)
    }
}

/// Whether no two entries share an identifier.
pub open spec fn ids_distinct<T>(entries: Seq<(RequestId, T)>) -> bool {
    forall|i: int, j: int|
        0 <= i < entries.len() && 0 <= j < entries.len() && (#[trigger] entries[i]).0@ == (
        #[trigger] entries[j]).0@ ==> i == j
}

/// What is known of where an entry is.
pub proof fn lemma_entry_from<T>(entries: Seq<(RequestId, T)>, id: RequestIdView, k: int)
    requires
        0 <= k,
    ensures
        entry_from(entries, id, k) matches Some(i) ==> k <= i < entries.len() && entries[i].0@
            == id,
        entry_from(entries, id, k) is None ==> forall|i: int|
            k <= i < entries.len() ==> (#[trigger] entries[i]).0@ != id,
    decreases entries.len() - k,
{
    if k < entries.len() && entries[k].0@ != id {
        lemma_entry_from(entries, id, k + 1);
    }
}

/// The index of the entry with the given identifier.
fn find_entry<T>(entries: &Vec<(RequestId, T)>, id: &RequestId) -> (r: Option<usize>)
    ensures
        crate::syntax::as_index(r) == entry_from(entries@, id@, 0),
        r matches Some(i) ==> i < entries.len() && entries@[i as int].0@ == id@,
        r is None ==> forall|i: int| 0 <= i < entries.len() ==> (#[trigger] entries@[i]).0@ != id@,
{
    proof {
        lemma_entry_from(entries@, id@, 0);
    }
    let mut k: usize = 0;
    while k < entries.len()
        invariant
            k <= entries.len(),
            entry_from(entries@, id@, k as int) == entry_from(entries@, id@, 0),
        decreases entries.len() - k,
    {
        if entries[k].0.same(id) {
            return Some(k);
        }
        k += 1;
    }
    None
}

/// A table of requests, each with what is kept for it. No two entries share
/// an identifier.
pub struct Pending<T> {
    entries: Vec<(RequestId, T)>,
}

impl<T> Pending<T> {
    /// What holds of a table between calls: no two entries share an
    /// identifier.
    pub closed spec fn inv(&self) -> bool {
        ids_distinct(self.entries@)
    }

    /// The entries of the table.
    pub closed spec fn entries_of(&self) -> Seq<(RequestId, T)> {
        self.entries@
    }

    /// Whether the table has an entry for the identifier.
    pub open spec fn holds(&self, id: RequestIdView) -> bool {
        entry_from(self.entries_of(), id, 0) is Some
    }

    /// What the table keeps for the identifier.
    pub open spec fn kept(&self, id: RequestIdView) -> T {
        self.entries_of()[entry_from(self.entries_of(), id, 0)->0].1
    }

    /// The table as a map: each identifier that it has an entry for, with
    /// what it keeps for it.
    pub open spec fn table(&self) -> Map<RequestIdView, T> {
        Map::new(|id: RequestIdView| self.holds(id), |id: RequestIdView| self.kept(id))
    }

    /// A table without entries.
    pub fn new() -> (r: Pending<T>)
        ensures
            r.inv(),
            forall|id: RequestIdView| !#[trigger] r.holds(id),
            r.entries_of().len() == 0,
            r.table() == Map::<RequestIdView, T>::empty(),
    {
        let r = Pending { entries: Vec::new() };
        proof {
            assert(r.table() =~= Map::<RequestIdView, T>::empty());
        }
        r
    }

    /// Whether the table has an entry for the identifier.
    pub fn contains(&self, id: &RequestId) -> (r: bool)
        ensures
            r == self.holds(id@),
    {
        find_entry(&self.entries, id).is_some()
    }

    /// The number of entries.
    pub fn len(&self) -> (n: usize)
        ensures
            n == self.entries_of().len(),
    {
        self.entries.len()
    }

    /// Puts an entry in; it takes the place of an entry with the same
    /// identifier.
    pub fn insert(&mut self, id: RequestId, data: T)
        requires
            old(self).inv(),
        ensures
            final(self).inv(),
            final(self).holds(id@),
            final(self).kept(id@) == data,
            forall|other: RequestIdView|
                other != id@ ==> (#[trigger] final(self).holds(other) == old(self).holds(other)),
            forall|other: RequestIdView|
                other != id@ && old(self).holds(other) ==> #[trigger] final(self).kept(other)
                    == old(self).kept(other),
            final(self).table() == old(self).table().insert(id@, data),
    {
        let ghost before = self.entries@;
        let ghost key = id@;
        let ghost kept_data = data;
        let ghost table_before = self.table();
        match find_entry(&self.entries, &id) {
            Some(i) => {
                self.entries.set(i, (id, data));
                proof {
                    let after = self.entries@;
                    assert forall|a: int, b: int|
                        0 <= a < after.len() && 0 <= b < after.len() && (#[trigger] after[a]).0@ == (
                        #[trigger] after[b]).0@ implies a == b by {
                        assert(after[a].0@ == before[a].0@);
                        assert(after[b].0@ == before[b].0@);
                    }
                    assert forall|other: RequestIdView|
                        entry_from(after, other, 0) == entry_from(before, other, 0) by {
                        lemma_same_ids(after, before, other, 0);
                    }
                    assert forall|other: RequestIdView|
                        other != key && entry_from(before, other, 0) is Some implies after[entry_from(
                            after,
                            other,
                            0,
                        )->0].1 == before[entry_from(before, other, 0)->0].1 by {
                        lemma_entry_from(before, other, 0);
                    }
                    lemma_entry_from(before, key, 0);
                }
            },
            None => {
                self.entries.push((id, data));
                proof {
                    let after = self.entries@;
                    assert forall|a: int, b: int|
                        0 <= a < after.len() && 0 <= b < after.len() && (#[trigger] after[a]).0@ == (
                        #[trigger] after[b]).0@ implies a == b by {
                        if a < before.len() {
                            assert(after[a] == before[a]);
                        }
                        if b < before.len() {
                            assert(after[b] == before[b]);
                        }
                    }
                    assert forall|other: RequestIdView|
                        entry_from(after, other, 0) == (match entry_from(before, other, 0) {
                            Some(i) => Some(i),
                            None => if other == key {
                                Some(before.len() as int)
                            } else {
                                None
                            },
                        }) by {
                        lemma_pushed(before, after.last(), other, 0);
                    }
                    assert forall|other: RequestIdView|
                        other != key && entry_from(before, other, 0) is Some implies after[entry_from(
                            after,
                            other,
                            0,
                        )->0].1 == before[entry_from(before, other, 0)->0].1 by {
                        lemma_entry_from(before, other, 0);
                    }
                    lemma_entry_from(before, key, 0);
                }
            },
        }
        proof {
            assert(self.table() =~= table_before.insert(key, kept_data));
        }
    }

    /// Takes the entry for the identifier out.
    pub fn remove(&mut self, id: &RequestId) -> (r: Option<T>)
        requires
            old(self).inv(),
        ensures
            final(self).inv(),
            r is Some <==> old(self).holds(id@),
            r matches Some(data) ==> data == old(self).kept(id@),
            !final(self).holds(id@),
            forall|other: RequestIdView|
                other != id@ ==> (#[trigger] final(self).holds(other) == old(self).holds(other)),
            forall|other: RequestIdView|
                other != id@ && old(self).holds(other) ==> #[trigger] final(self).kept(other)
                    == old(self).kept(other),
            final(self).table() == old(self).table().remove(id@),
    {
        let ghost before = self.entries@;
        let ghost table_before = self.table();
        match find_entry(&self.entries, id) {
            Some(i) => {
                let (_, data) = self.entries.remove(i);
                proof {
                    let after = self.entries@;
                    assert forall|a: int, b: int|
                        0 <= a < after.len() && 0 <= b < after.len() && (#[trigger] after[a]).0@ == (
                        #[trigger] after[b]).0@ implies a == b by {
                        let x = if a < i {
                            a
                        } else {
                            a + 1
                        };
                        let y = if b < i {
                            b
                        } else {
                            b + 1
                        };
                        assert(after[a] == before[x]);
                        assert(after[b] == before[y]);
                    }
                    assert forall|other: RequestIdView|
                        entry_from(after, other, 0) == (match entry_from(before, other, 0) {
                            Some(j) => if j < i {
                                Some(j)
                            } else if j == i {
                                None
                            } else {
                                Some(j - 1)
                            },
                            None => None,
                        }) by {
                        lemma_removed(before, i as int, other, 0);
                    }
                    assert forall|other: RequestIdView|
                        other != id@ && entry_from(before, other, 0) is Some implies after[entry_from(
                            after,
                            other,
                            0,
                        )->0].1 == before[entry_from(before, other, 0)->0].1 by {
                        lemma_entry_from(before, other, 0);
                    }
                    assert forall|other: RequestIdView| other != id@ implies (entry_from(
                        after,
                        other,
                        0,
                    ) is Some) == (entry_from(before, other, 0) is Some) by {
                        lemma_entry_from(before, other, 0);
                    }
                    lemma_entry_from(before, id@, 0);
                    assert(self.table() =~= table_before.remove(id@));
                }
                Some(data)
            },
            None => {
                proof {
                    assert(self.table() =~= table_before.remove(id@));
                }
                None
            },
        }
    }
}

/// Positions agree in two lists with the same identifiers.
proof fn lemma_same_ids<T>(
    a: Seq<(RequestId, T)>,
    b: Seq<(RequestId, T)>,
    id: RequestIdView,
    k: int,
)
    requires
        0 <= k,
        a.len() == b.len(),
        forall|i: int| 0 <= i < a.len() ==> (#[trigger] a[i]).0@ == b[i].0@,
    ensures
        entry_from(a, id, k) == entry_from(b, id, k),
    decreases a.len() - k,
{
    if k < a.len() {
        assert(a[k].0@ == b[k].0@);
        lemma_same_ids(a, b, id, k + 1);
    }
}

/// The position in a list with one more entry at its end.
proof fn lemma_pushed<T>(
    entries: Seq<(RequestId, T)>,
    entry: (RequestId, T),
    id: RequestIdView,
    k: int,
)
    requires
        0 <= k <= entries.len(),
    ensures
        entry_from(entries.push(entry), id, k) == (match entry_from(entries, id, k) {
            Some(i) => Some(i),
            None => if entry.0@ == id {
                Some(entries.len() as int)
            } else {
                None
            },
        }),
    decreases entries.len() - k,
{
    let longer = entries.push(entry);
    if k < entries.len() {
        assert(longer[k] == entries[k]);
        lemma_pushed(entries, entry, id, k + 1);
    } else {
        assert(longer[k] == entry);
        assert(entry_from(longer, id, k + 1) is None);
    }
}

/// The position in a list with entry `i` taken out, where no two entries
/// share an identifier.
proof fn lemma_removed<T>(entries: Seq<(RequestId, T)>, i: int, id: RequestIdView, k: int)
    requires
        0 <= i < entries.len(),
        0 <= k <= entries.len(),
        ids_distinct(entries),
    ensures
        entry_from(entries.remove(i), id, if k <= i {
            k
        } else {
            k - 1
        }) == (match entry_from(entries, id, k) {
            Some(j) => if j < i {
                Some(j)
            } else if j == i {
                if k <= i {
                    None::<int>
                } else {
                    Some(j - 1)
                }
            } else {
                Some(j - 1)
            },
            None => None,
        }),
    decreases entries.len() - k,
{
    let shorter = entries.remove(i);
    lemma_entry_from(entries, id, k);
    lemma_entry_from(shorter, id, if k <= i {
        k
    } else {
        k - 1
    });
    let got = entry_from(shorter, id, if k <= i {
        k
    } else {
        k - 1
    });
    match entry_from(entries, id, k) {
        Some(j) => {
            if j == i {
                if got is Some {
                    let g = got->0;
                    let orig = if g < i {
                        g
                    } else {
                        g + 1
                    };
                    assert(shorter[g] == entries[orig]);
                    assert(entries[orig].0@ == entries[i].0@);
                }
            } else {
                let at = if j < i {
                    j
                } else {
                    j - 1
                };
                assert(shorter[at] == entries[j]);
                if got is Some {
                    let g = got->0;
                    let orig = if g < i {
                        g
                    } else {
                        g + 1
                    };
                    assert(shorter[g] == entries[orig]);
                    assert(entries[orig].0@ == entries[j].0@);
                } else {
                    assert(shorter[at].0@ != id);
                }
            }
        },
        None => {
            if got is Some {
                let g = got->0;
                let orig = if g < i {
                    g
                } else {
                    g + 1
                };
                assert(shorter[g] == entries[orig]);
            }
        },
    }
}

/// The requests of the editor that are not answered yet.
pub struct Incoming<I> {
    pub pending: Pending<I>,
}

/// The requests that were sent to the editor and are not answered yet.
pub struct Outgoing<O> {
    pub next_id: i32,
    pub pending: Pending<O>,
}

/// The requests that are under way, in both directions.
pub struct ReqQueue<I, O> {
    pub incoming: Incoming<I>,
    pub outgoing: Outgoing<O>,
}

impl<I> Incoming<I> {
    /// Takes note of a request of the editor, with what is kept for it. The
    /// other requests stay as they are.
    pub fn register(&mut self, id: RequestId, data: I)
        requires
            old(self).pending.inv(),
        ensures
            final(self).pending.inv(),
            final(self).pending.table() == old(self).pending.table().insert(id@, data),
    {
        self.pending.insert(id, data);
    }

    /// Takes a request out of the table, and hands out what was kept for
    /// it; `None` for a request that is not in the table. The other
    /// requests stay as they are.
    pub fn complete(&mut self, id: &RequestId) -> (r: Option<I>)
        requires
            old(self).pending.inv(),
        ensures
            final(self).pending.inv(),
            r == (if old(self).pending.holds(id@) {
                Some(old(self).pending.kept(id@))
            } else {
                None
            }),
            final(self).pending.table() == old(self).pending.table().remove(id@),
    {
        self.pending.remove(id)
    }
}

impl<O> Outgoing<O> {
    /// Takes note of a request to the editor, and gives it its identifier:
    /// the next number. `None`, and nothing noted, when the numbers have run
    /// out. The other requests stay as they are.
    pub fn register(&mut self, data: O) -> (r: Option<RequestId>)
        requires
            old(self).pending.inv(),
        ensures
            final(self).pending.inv(),
            r is Some <==> old(self).next_id < i32::MAX,
            r matches Some(id) ==> {
                &&& id@ == RequestIdView::Number(old(self).next_id)
                &&& final(self).next_id == old(self).next_id + 1
                &&& final(self).pending.table() == old(self).pending.table().insert(id@, data)
            },
            r is None ==> *final(self) == *old(self),
    {
        if self.next_id == i32::MAX {
            return None;
        }
        let id = RequestId::Number(self.next_id);
        self.pending.insert(id.duplicate(), data);
        self.next_id = self.next_id + 1;
        Some(id)
    }

    /// Takes a request out of the table, and hands out what was kept for
    /// it; `None` for a request that is not in the table. The other
    /// requests stay as they are, and so does the next number.
    pub fn complete(&mut self, id: &RequestId) -> (r: Option<O>)
        requires
            old(self).pending.inv(),
        ensures
            final(self).pending.inv(),
            r == (if old(self).pending.holds(id@) {
                Some(old(self).pending.kept(id@))
            } else {
                None
            }),
            final(self).pending.table() == old(self).pending.table().remove(id@),
            final(self).next_id == old(self).next_id,
    {
        self.pending.remove(id)
    }
}

impl<I, O> ReqQueue<I, O> {
    /// What holds of a queue between calls.
    pub open spec fn inv(&self) -> bool {
        self.incoming.pending.inv() && self.outgoing.pending.inv()
    }

    /// A queue without requests.
    pub fn new() -> (r: ReqQueue<I, O>)
        ensures
            r.inv(),
            r.incoming.pending.entries_of().len() == 0,
            r.outgoing.pending.entries_of().len() == 0,
            r.outgoing.next_id == 0,
            r.incoming.pending.table() == Map::<RequestIdView, I>::empty(),
            r.outgoing.pending.table() == Map::<RequestIdView, O>::empty(),
    {
        ReqQueue {
            incoming: Incoming { pending: Pending::new() },
            outgoing: Outgoing { next_id: 0, pending: Pending::new() },
        }
    }
}

} // verus!
