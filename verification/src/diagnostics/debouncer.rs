//! Holding back work on a document until the document has been left alone
//! for a while.
//!
//! A message for a document waits for the length of the window. A later
//! message for the same document takes its place and starts the wait anew,
//! so of a burst of messages only the last is acted on.

use crate::text::str_eq;
use vstd::prelude::*;

verus! {

/// A message that waits.
pub struct Waiting<T> {
    /// What the message is about.
    pub key: String,
    pub payload: T,
    /// The time from which the message is to be acted on: the time at
    /// which it came in and the window, which together may lie beyond any
    /// time that a clock of 64 bits reaches.
    pub due: u128,
}

/// The messages among the first `k` that are not about `key`, in order.
pub open spec fn others_before<T>(entries: Seq<Waiting<T>>, k: int, key: Seq<char>) -> Seq<
    Waiting<T>,
>
    decreases k,
{
    if k <= 0 {
        Seq::empty()
    } else if entries[k - 1].key@ == key {
        others_before(entries, k - 1, key)
    } else {
        others_before(entries, k - 1, key).push(entries[k - 1])
    }
}

/// The messages among the first `k` that are due at `now`, in order.
pub open spec fn due_before<T>(entries: Seq<Waiting<T>>, k: int, now: u64) -> Seq<Waiting<T>>
    decreases k,
{
    if k <= 0 {
        Seq::empty()
    } else if entries[k - 1].due <= now {
        due_before(entries, k - 1, now).push(entries[k - 1])
    } else {
        due_before(entries, k - 1, now)
    }
}

/// The messages among the first `k` that are not due at `now`, in order.
pub open spec fn late_before<T>(entries: Seq<Waiting<T>>, k: int, now: u64) -> Seq<Waiting<T>>
    decreases k,
{
    if k <= 0 {
        Seq::empty()
    } else if entries[k - 1].due <= now {
        late_before(entries, k - 1, now)
    } else {
        late_before(entries, k - 1, now).push(entries[k - 1])
    }
}

/// The time from which a message that came in at `now` is to be acted on.
pub open spec fn due_time(now: u64, window: u64) -> u128 {
    (now + window) as u128
}

/// A time, or the last time that a clock of 64 bits reaches where it lies
/// beyond that.
pub open spec fn capped(time: u128) -> u64 {
    if time <= u64::MAX {
        time as u64
    } else {
        u64::MAX
    }
}

/// The messages that wait after one about `key` came in at `now`: it takes
/// the place of any message about `key`, and waits for the whole window.
pub open spec fn submitted<T>(
    entries: Seq<Waiting<T>>,
    window: u64,
    now: u64,
    key: String,
    payload: T,
) -> Seq<Waiting<T>> {
    others_before(entries, entries.len() as int, key@).push(
        Waiting { key, payload, due: due_time(now, window) },
    )
}

/// The messages that are acted on at `now`.
pub open spec fn fired<T>(entries: Seq<Waiting<T>>, now: u64) -> Seq<Waiting<T>> {
    due_before(entries, entries.len() as int, now)
}

/// The messages that still wait after `now`.
pub open spec fn remaining<T>(entries: Seq<Waiting<T>>, now: u64) -> Seq<Waiting<T>> {
    late_before(entries, entries.len() as int, now)
}

/// The payloads of the messages about `key`, in order.
pub open spec fn payloads_for<T>(entries: Seq<Waiting<T>>, key: Seq<char>) -> Seq<T>
    decreases entries.len(),
{
    if entries.len() == 0 {
        Seq::empty()
    } else if entries.last().key@ == key {
        payloads_for(entries.drop_last(), key).push(entries.last().payload)
    } else {
        payloads_for(entries.drop_last(), key)
    }
}

/// A burst: messages about one document, each with the time at which it
/// came in.
pub open spec fn is_burst<T>(burst: Seq<(u64, T)>, window: u64) -> bool {
    &&& burst.len() > 0
    &&& forall|i: int|
        0 <= i < burst.len() - 1 ==> (#[trigger] burst[i]).0 <= burst[i + 1].0 && burst[i + 1].0
            < burst[i].0 + window
}

/// What a burst about `key` leaves: before each message comes in, what is
/// due at that time is acted on. The result holds the messages that wait
/// after the burst, and the payloads about `key` that were acted on while
/// it lasted.
pub open spec fn after_burst<T>(
    entries: Seq<Waiting<T>>,
    window: u64,
    key: String,
    burst: Seq<(u64, T)>,
) -> (Seq<Waiting<T>>, Seq<T>)
    decreases burst.len(),
{
    if burst.len() == 0 {
        (entries, Seq::empty())
    } else {
        let (before, acted) = after_burst(entries, window, key, burst.drop_last());
        let now = burst.last().0;
        (
            submitted(remaining(before, now), window, now, key, burst.last().1),
            acted + payloads_for(fired(before, now), key@),
        )
    }
}

/// Messages not about `key` hold no payload for `key`.
proof fn lemma_others_hold_none<T>(entries: Seq<Waiting<T>>, k: int, key: Seq<char>)
    requires
        0 <= k <= entries.len(),
    ensures
        payloads_for(others_before(entries, k, key), key) == Seq::<T>::empty(),
    decreases k,
{
    if k > 0 {
        lemma_others_hold_none(entries, k - 1, key);
        if entries[k - 1].key@ != key {
            let s = others_before(entries, k, key);
            assert(s.drop_last() =~= others_before(entries, k - 1, key));
        }
    }
}

/// What waits holds no payload for `key`, and so neither does what is due
/// of it nor what is left of it.
proof fn lemma_parts_hold_none<T>(entries: Seq<Waiting<T>>, k: int, now: u64, key: Seq<char>)
    requires
        0 <= k <= entries.len(),
        payloads_for(entries, key) == Seq::<T>::empty(),
    ensures
        payloads_for(due_before(entries, k, now), key) == Seq::<T>::empty(),
        payloads_for(late_before(entries, k, now), key) == Seq::<T>::empty(),
    decreases k,
{
    if k > 0 {
        lemma_parts_hold_none(entries, k - 1, now, key);
        lemma_no_payload_no_key(entries, k - 1, key);
        let d = due_before(entries, k, now);
        let l = late_before(entries, k, now);
        if entries[k - 1].due <= now {
            assert(d.drop_last() =~= due_before(entries, k - 1, now));
        } else {
            assert(l.drop_last() =~= late_before(entries, k - 1, now));
        }
    }
}

/// Where no payload is held for `key`, no message is about `key`.
proof fn lemma_no_payload_no_key<T>(entries: Seq<Waiting<T>>, i: int, key: Seq<char>)
    requires
        0 <= i < entries.len(),
        payloads_for(entries, key) == Seq::<T>::empty(),
    ensures
        entries[i].key@ != key,
    decreases entries.len(),
{
    if entries.last().key@ == key {
        assert(payloads_for(entries, key).len() > 0);
    } else if i < entries.len() - 1 {
        lemma_no_payload_no_key(entries.drop_last(), i, key);
    }
}

/// After a message about `key` came in, the one payload held for `key` is
/// that message's, and it is due when its window has passed.
proof fn lemma_submitted_holds_one<T>(
    entries: Seq<Waiting<T>>,
    window: u64,
    now: u64,
    key: String,
    payload: T,
)
    ensures
        payloads_for(submitted(entries, window, now, key, payload), key@) == seq![payload],
        forall|later: u64|
            payloads_for(
                #[trigger] fired(submitted(entries, window, now, key, payload), later),
                key@,
            ) == (if due_time(now, window) <= later {
                seq![payload]
            } else {
                Seq::<T>::empty()
            }),
{
    let others = others_before(entries, entries.len() as int, key@);
    let all = submitted(entries, window, now, key, payload);
    lemma_others_hold_none(entries, entries.len() as int, key@);
    assert(all.drop_last() =~= others);
    assert(Seq::<T>::empty().push(payload) =~= seq![payload]);
    assert forall|later: u64|
        payloads_for(#[trigger] fired(all, later), key@) == (if due_time(now, window) <= later {
            seq![payload]
        } else {
            Seq::<T>::empty()
        }) by {
        let n = all.len() as int;
        assert(all.take(n - 1) =~= others);
        lemma_due_of_prefix(all, n - 1, later);
        lemma_parts_hold_none(others, others.len() as int, later, key@);
        let d = due_before(all, n, later);
        if all[n - 1].due <= later {
            assert(d.drop_last() =~= due_before(all, n - 1, later));
        }
    }
}

/// What is due among the first `k` messages depends on those alone.
proof fn lemma_due_of_prefix<T>(entries: Seq<Waiting<T>>, k: int, now: u64)
    requires
        0 <= k <= entries.len(),
    ensures
        due_before(entries, k, now) == due_before(entries.take(k), k, now),
    decreases k,
{
    if k > 0 {
        lemma_due_of_prefix(entries, k - 1, now);
        lemma_due_of_prefix(entries.take(k), k - 1, now);
        assert(entries.take(k).take(k - 1) =~= entries.take(k - 1));
    }
}

/// After a burst of messages about one document, each coming in before the
/// window of the one before it has passed, none was acted on while the
/// burst lasted, and at any later time what is acted on for the document is
/// the last message alone, once its window has passed, and nothing before.
pub proof fn lemma_burst_waits<T>(
    entries: Seq<Waiting<T>>,
    window: u64,
    key: String,
    burst: Seq<(u64, T)>,
)
    requires
        is_burst(burst, window),
        payloads_for(entries, key@) == Seq::<T>::empty(),
    ensures
        after_burst(entries, window, key, burst).1 == Seq::<T>::empty(),
        forall|later: u64|
            payloads_for(
                #[trigger] fired(after_burst(entries, window, key, burst).0, later),
                key@,
            ) == (if burst.last().0 + window <= later {
                seq![burst.last().1]
            } else {
                Seq::<T>::empty()
            }),
    decreases burst.len(),
{
    let last = burst.last();
    let earlier = burst.drop_last();
    let (before, acted) = after_burst(entries, window, key, earlier);
    if earlier.len() == 0 {
        lemma_parts_hold_none(entries, entries.len() as int, last.0, key@);
    } else {
        assert(is_burst(earlier, window)) by {
            assert forall|i: int| 0 <= i < earlier.len() - 1 implies (#[trigger] earlier[i]).0
                <= earlier[i + 1].0 && earlier[i + 1].0 < earlier[i].0 + window by {
                assert(earlier[i] == burst[i]);
                assert(earlier[i + 1] == burst[i + 1]);
            }
        }
        let previous = earlier.last();
        assert(previous == burst[burst.len() - 2]);
        assert(burst[burst.len() - 2 + 1].0 < burst[burst.len() - 2].0 + window);
        lemma_burst_waits(entries, window, key, earlier);
        assert(payloads_for(fired(before, last.0), key@) == Seq::<T>::empty());
    }
    lemma_submitted_holds_one(remaining(before, last.0), window, last.0, key, last.1);
    assert(acted + payloads_for(fired(before, last.0), key@) =~= Seq::<T>::empty());
}

/// Of a burst of messages about one document, each coming in before the
/// window of the one before it has passed, none is acted on while the burst
/// lasts; when the window of the last has passed, exactly one is acted on,
/// and it is the last.
pub proof fn lemma_burst_coalesces<T>(
    entries: Seq<Waiting<T>>,
    window: u64,
    key: String,
    burst: Seq<(u64, T)>,
    now: u64,
)
    requires
        is_burst(burst, window),
        payloads_for(entries, key@) == Seq::<T>::empty(),
        now >= burst.last().0 + window,
    ensures
        after_burst(entries, window, key, burst).1 == Seq::<T>::empty(),
        payloads_for(fired(after_burst(entries, window, key, burst).0, now), key@) == seq![
            burst.last().1,
        ],
{
    lemma_burst_waits(entries, window, key, burst);
}

/// The messages that wait, each for its document to be left alone.
pub struct Debouncer<T> {
    pub window: u64,
    pub waiting: Vec<Waiting<T>>,
}

impl<T> Debouncer<T> {
    /// A debouncer without messages.
    pub fn new(window: u64) -> (r: Debouncer<T>)
        ensures
            r.window == window,
            r.waiting@.len() == 0,
    {
        Debouncer { window, waiting: Vec::new() }
    }

    /// Takes a message in.
    pub fn submit(&mut self, now: u64, key: String, payload: T)
        ensures
            final(self).window == old(self).window,
            final(self).waiting@ == submitted(
                old(self).waiting@,
                old(self).window,
                now,
                key,
                payload,
            ),
    {
        let due: u128 = now as u128 + self.window as u128;
        let mut rest: Vec<Waiting<T>> = Vec::new();
        let ghost all = self.waiting@;
        let ghost mut done: int = 0;
        while self.waiting.len() > 0
            invariant
                0 <= done <= all.len(),
                self.window == old(self).window,
                self.waiting@ == all.skip(done),
                rest@ == others_before(all, done, key@),
            decreases self.waiting.len(),
        {
            let w = self.waiting.remove(0);
            proof {
                assert(w == all[done]);
                assert(self.waiting@ =~= all.skip(done + 1));
                done = done + 1;
            }
            if !str_eq(w.key.as_str(), key.as_str()) {
                rest.push(w);
            }
        }
        rest.push(Waiting { key, payload, due });
        self.waiting = rest;
    }

    /// Hands out the messages that are due at `now`, in the order in which
    /// they came in; the others go on waiting.
    pub fn take_due(&mut self, now: u64) -> (due: Vec<Waiting<T>>)
        ensures
            final(self).window == old(self).window,
            due@ == fired(old(self).waiting@, now),
            final(self).waiting@ == remaining(old(self).waiting@, now),
    {
        let mut due: Vec<Waiting<T>> = Vec::new();
        let mut rest: Vec<Waiting<T>> = Vec::new();
        let ghost all = self.waiting@;
        let ghost mut done: int = 0;
        while self.waiting.len() > 0
            invariant
                0 <= done <= all.len(),
                self.window == old(self).window,
                self.waiting@ == all.skip(done),
                due@ == due_before(all, done, now),
                rest@ == late_before(all, done, now),
            decreases self.waiting.len(),
        {
            let w = self.waiting.remove(0);
            proof {
                assert(w == all[done]);
                assert(self.waiting@ =~= all.skip(done + 1));
                done = done + 1;
            }
            if w.due <= now as u128 {
                due.push(w);
            } else {
                rest.push(w);
            }
        }
        self.waiting = rest;
        due
    }

    /// Hands out every message that waits, due or not, and leaves none.
    pub fn shutdown(&mut self) -> (all: Vec<Waiting<T>>)
        ensures
            final(self).window == old(self).window,
            all@ == old(self).waiting@,
            final(self).waiting@.len() == 0,
    {
        let mut all: Vec<Waiting<T>> = Vec::new();
        all.append(&mut self.waiting);
        all
    }

    /// The earliest time from which a message is due, or the last time that
    /// the clock reaches where that lies beyond it; `None` where none waits.
    pub fn next_due(&self) -> (r: Option<u64>)
        ensures
            r is None <==> self.waiting@.len() == 0,
            r matches Some(t) ==> (forall|i: int|
                0 <= i < self.waiting@.len() ==> t <= capped((#[trigger] self.waiting@[i]).due))
                && (exists|i: int|
                0 <= i < self.waiting@.len() && capped((#[trigger] self.waiting@[i]).due) == t),
    {
        if self.waiting.len() == 0 {
            return None;
        }
        let mut best: u64 = cap(self.waiting[0].due);
        let mut i: usize = 1;
        while i < self.waiting.len()
            invariant
                1 <= i <= self.waiting.len(),
                forall|k: int| 0 <= k < i ==> best <= capped((#[trigger] self.waiting@[k]).due),
                exists|k: int| 0 <= k < i && capped((#[trigger] self.waiting@[k]).due) == best,
            decreases self.waiting.len() - i,
        {
            let due = cap(self.waiting[i].due);
            if due < best {
                best = due;
            }
            i += 1;
        }
        Some(best)
    }
}

/// A time, or the last time that a clock of 64 bits reaches where it lies
/// beyond that.
fn cap(time: u128) -> (r: u64)
    ensures
        r == capped(time),
{
    if time <= 0xffff_ffff_ffff_ffff {
        time as u64
    } else {
        u64::MAX
    }
}

} // verus!
