//! Lossless syntax trees.
//!
//! A tree is kept as the list of its elements in document order (a node
//! before what it holds), each with its depth. An element is a token, which
//! carries text, or a node, which holds the elements that follow it at a
//! greater depth. Elements are named by their index in that list.

use crate::text::{byte_len, utf8_len};
use vstd::prelude::*;
use vstd::string::StringExecFns;

verus! {

/// A range of byte offsets in a text, `start` included and `end` not.
#[derive(Debug, PartialEq, Eq, Clone, Copy, Structural)]
pub struct TextRange {
    pub start: u32,
    pub end: u32,
}

impl TextRange {
    /// The range from `start` to `end`.
    pub fn new(start: u32, end: u32) -> (r: TextRange)
        ensures
            r == (TextRange { start, end }),
    {
        TextRange { start, end }
    }

    /// The empty range at `offset`.
    pub fn empty(offset: u32) -> (r: TextRange)
        ensures
            r == (TextRange { start: offset, end: offset }),
    {
        TextRange { start: offset, end: offset }
    }

    /// Whether `offset` lies in the range.
    pub open spec fn holds(self, offset: u32) -> bool {
        self.start <= offset < self.end
    }

    /// Whether `offset` lies in the range.
    pub fn contains(&self, offset: u32) -> (r: bool)
        ensures
            r == self.holds(offset),
    {
        self.start <= offset && offset < self.end
    }
}

/// An optional index, as a number.
pub open spec fn as_index(c: Option<usize>) -> Option<int> {
    match c {
        Some(x) => Some(x as int),
        None => None,
    }
}

/// The kinds of elements of one language.
pub trait Kind: Copy {
    /// The number that stands for the kind.
    spec fn code(self) -> u16;

    /// The number that stands for the kind.
    fn raw(self) -> (r: u16)
        ensures
            r == self.code(),
    ;

    /// Two kinds with one number are one kind.
    proof fn lemma_code_injective(a: Self, b: Self)
        ensures
            a.code() == b.code() ==> a == b,
    ;
}

/// One element of a tree.
#[derive(Debug, PartialEq, Eq, Clone)]
pub struct Element<K> {
    pub kind: K,
    /// How many nodes enclose the element.
    pub depth: usize,
    /// The text of a token; `None` for a node.
    pub token: Option<String>,
    /// The byte offset at which the element starts.
    pub start: u32,
}

/// A syntax tree over kinds `K`.
#[derive(Debug, PartialEq, Eq, Clone)]
pub struct SyntaxTree<K> {
    pub elements: Vec<Element<K>>,
    /// The length of the text in bytes.
    pub total: u32,
}

/// The number of bytes of an element's own text: 0 for a node.
pub open spec fn own_len<K>(e: Element<K>) -> nat {
    match e.token {
        Some(t) => utf8_len(t@),
        None => 0,
    }
}

/// Whether the elements, in this order, can be the start of a tree: the
/// first is a node at depth 0, every other lies inside a node, at most one
/// level below its predecessor and below it only if that is a node; and each
/// starts where the text before it ends.
pub open spec fn well_nested<K>(elements: Seq<Element<K>>) -> bool {
    &&& elements.len() > 0 ==> elements[0].depth == 0 && elements[0].token is None
        && elements[0].start == 0
    &&& forall|i: int|
        #![trigger elements[i]]
        1 <= i < elements.len() ==> {
            &&& 1 <= elements[i].depth <= elements[i - 1].depth + 1
            &&& elements[i].depth == elements[i - 1].depth + 1 ==> elements[i - 1].token is None
            &&& elements[i].start == elements[i - 1].start + own_len(elements[i - 1])
        }
}

impl<K: Kind> SyntaxTree<K> {
    /// The number of elements.
    pub open spec fn size(&self) -> nat {
        self.elements@.len()
    }

    /// Whether the value is a tree: it has a root, its elements are well
    /// nested, and the text ends where the last element ends.
    pub open spec fn well_formed(&self) -> bool {
        &&& self.elements@.len() > 0
        &&& well_nested(self.elements@)
        &&& self.total == self.elements@.last().start + own_len(self.elements@.last())
    }

    /// The kind of element `i`.
    pub open spec fn kind_of(&self, i: int) -> K {
        self.elements@[i].kind
    }

    /// The depth of element `i`.
    pub open spec fn depth_of(&self, i: int) -> nat {
        self.elements@[i].depth as nat
    }

    /// Whether element `i` is a token.
    pub open spec fn is_token(&self, i: int) -> bool {
        self.elements@[i].token is Some
    }

    /// The text of token `i`; empty for a node.
    pub open spec fn token_text(&self, i: int) -> Seq<char> {
        match self.elements@[i].token {
            Some(t) => t@,
            None => Seq::empty(),
        }
    }

    /// The first index from `j` on that is no longer inside element `i`.
    pub open spec fn end_from(&self, i: int, j: int) -> int
        decreases self.size() - j,
    {
        if 0 <= i < j < self.size() && self.depth_of(j) > self.depth_of(i) {
            self.end_from(i, j + 1)
        } else {
            j
        }
    }

    /// The index just past the last element inside element `i`; the elements
    /// `i + 1 .. subtree_end(i)` are what `i` holds.
    pub open spec fn subtree_end(&self, i: int) -> int {
        self.end_from(i, i + 1)
    }

    /// Whether element `j` lies inside element `i`, or is `i`.
    pub open spec fn within(&self, i: int, j: int) -> bool {
        i <= j < self.subtree_end(i)
    }

    /// The nearest element at or before `j` that is less deep than `depth`.
    pub open spec fn enclosing_from(&self, j: int, depth: nat) -> Option<int>
        decreases j + 1,
    {
        if j < 0 || j >= self.size() {
            None
        } else if self.depth_of(j) < depth {
            Some(j)
        } else {
            self.enclosing_from(j - 1, depth)
        }
    }

    /// The node that holds element `i` directly; the root has none.
    pub open spec fn parent_of(&self, i: int) -> Option<int> {
        self.enclosing_from(i - 1, self.depth_of(i))
    }

    /// Whether `c` is held directly by `i`.
    pub open spec fn is_child(&self, i: int, c: int) -> bool {
        i < c < self.subtree_end(i) && self.depth_of(c) == self.depth_of(i) + 1
    }

    /// The text of the tokens `from .. to`, joined.
    pub open spec fn text_between(&self, from: int, to: int) -> Seq<char>
        decreases to - from,
    {
        if from >= to {
            Seq::empty()
        } else {
            self.text_between(from, to - 1) + self.token_text(to - 1)
        }
    }

    /// The text that element `i` covers.
    pub open spec fn text_of(&self, i: int) -> Seq<char> {
        self.text_between(i, self.subtree_end(i))
    }

    /// The byte offset at which element `j` starts; the length of the text
    /// for the index past the last element.
    pub open spec fn offset_at(&self, j: int) -> u32 {
        if 0 <= j < self.size() {
            self.elements@[j].start
        } else {
            self.total
        }
    }

    /// The range of bytes that element `i` covers.
    pub open spec fn range_of(&self, i: int) -> TextRange {
        TextRange { start: self.offset_at(i), end: self.offset_at(self.subtree_end(i)) }
    }

    /// The first element from `j` on that `i` holds directly and that is of
    /// the given kind.
    pub open spec fn child_from(&self, i: int, j: int, kind: K) -> Option<int>
        decreases self.size() - j,
    {
        if !(0 <= i < j < self.size()) || self.depth_of(j) <= self.depth_of(i) {
            None
        } else if self.depth_of(j) == self.depth_of(i) + 1 && self.kind_of(j) == kind {
            Some(j)
        } else {
            self.child_from(i, j + 1, kind)
        }
    }

    /// The first element of the given kind that `i` holds directly.
    pub open spec fn first_child(&self, i: int, kind: K) -> Option<int> {
        self.child_from(i, i + 1, kind)
    }

    /// Whether token `t` holds the byte at `offset`.
    pub open spec fn token_covers(&self, t: int, offset: u32) -> bool {
        0 <= t < self.size() && self.is_token(t) && self.offset_at(t) <= offset < self.offset_at(
            t + 1,
        )
    }

    /// Whether token `t` holds the byte before `offset`.
    pub open spec fn token_reaches(&self, t: int, offset: u32) -> bool {
        0 <= t < self.size() && self.is_token(t) && self.offset_at(t) < offset <= self.offset_at(
            t + 1,
        )
    }

    /// The first token from `j` on that holds the byte at `offset`.
    pub open spec fn covering_from(&self, j: int, offset: u32) -> Option<int>
        decreases self.size() - j,
    {
        if j < 0 || j >= self.size() {
            None
        } else if self.token_covers(j, offset) {
            Some(j)
        } else {
            self.covering_from(j + 1, offset)
        }
    }

    /// The last token before `j` that holds the byte before `offset`.
    pub open spec fn reaching_before(&self, j: int, offset: u32) -> Option<int>
        decreases j,
    {
        if j <= 0 || j > self.size() {
            None
        } else if self.token_reaches(j - 1, offset) {
            Some(j - 1)
        } else {
            self.reaching_before(j - 1, offset)
        }
    }

    /// The token to the right of `offset`: the one that holds the byte at
    /// it.
    pub open spec fn right_token(&self, offset: u32) -> Option<int> {
        self.covering_from(0, offset)
    }

    /// The token to the left of `offset`: the one that holds the byte before
    /// it.
    pub open spec fn left_token(&self, offset: u32) -> Option<int> {
        self.reaching_before(self.size() as int, offset)
    }

    /// The token at `offset`, the left one of two: the token to the left,
    /// or, at the start of the text, the one to the right.
    pub open spec fn left_biased(&self, offset: u32) -> Option<int> {
        match self.left_token(offset) {
            Some(t) => Some(t),
            None => self.right_token(offset),
        }
    }

    /// The token at `offset`, the right one of two: the token to the right,
    /// or, at the end of the text, the one to the left.
    pub open spec fn right_biased(&self, offset: u32) -> Option<int> {
        match self.right_token(offset) {
            Some(t) => Some(t),
            None => self.left_token(offset),
        }
    }

    /// The first element of the given kind that the element `i` holds
    /// directly, where there is an `i`.
    pub open spec fn first_child_opt(&self, i: Option<int>, kind: K) -> Option<int> {
        match i {
            Some(x) => self.first_child(x, kind),
            None => None,
        }
    }

    /// The first element from `j` on that `i` holds directly and whose kind
    /// is one of `kinds`.
    pub open spec fn child_among_from(&self, i: int, j: int, kinds: Seq<K>) -> Option<int>
        decreases self.size() - j,
    {
        if !(0 <= i < j < self.size()) || self.depth_of(j) <= self.depth_of(i) {
            None
        } else if self.depth_of(j) == self.depth_of(i) + 1 && kinds.contains(self.kind_of(j)) {
            Some(j)
        } else {
            self.child_among_from(i, j + 1, kinds)
        }
    }

    /// The first element that `i` holds directly and whose kind is one of
    /// `kinds`.
    pub open spec fn first_child_among(&self, i: int, kinds: Seq<K>) -> Option<int> {
        self.child_among_from(i, i + 1, kinds)
    }

    /// The last token at or before `j`, and not before `i`, whose kind is
    /// neither `a` nor `b`.
    pub open spec fn last_solid_token(&self, i: int, j: int, a: K, b: K) -> Option<int>
        decreases j - i + 1,
    {
        if j < i || j < 0 || j >= self.size() {
            None
        } else if self.is_token(j) && self.kind_of(j) != a && self.kind_of(j) != b {
            Some(j)
        } else {
            self.last_solid_token(i, j - 1, a, b)
        }
    }

    /// The range of element `i` without the tokens of kind `a` or `b` at its
    /// end; empty, at the start of `i`, where it holds no other token.
    pub open spec fn small_range_of(&self, i: int, a: K, b: K) -> TextRange {
        match self.last_solid_token(i, self.subtree_end(i) - 1, a, b) {
            Some(t) => TextRange { start: self.offset_at(i), end: self.offset_at(t + 1) },
            None => TextRange { start: self.offset_at(i), end: self.offset_at(i) },
        }
    }

    /// The number of bytes of element `i`'s own text, where that fits a
    /// `u32`.
    fn own_len_at(&self, i: usize) -> (r: Option<u32>)
        requires
            i < self.size(),
        ensures
            r == (if own_len(self.elements@[i as int]) <= u32::MAX {
                Some(own_len(self.elements@[i as int]) as u32)
            } else {
                None::<u32>
            }),
    {
        match &self.elements[i].token {
            Some(t) => byte_len(t.as_str()),
            None => Some(0),
        }
    }

    /// Whether the value is a tree.
    pub fn check(&self) -> (r: bool)
        ensures
            r == self.well_formed(),
    {
        let n = self.elements.len();
        if n == 0 {
            return false;
        }
        let first = &self.elements[0];
        if first.depth != 0 || first.token.is_some() || first.start != 0 {
            return false;
        }
        let mut i: usize = 1;
        while i < n
            invariant
                1 <= i <= n == self.size(),
                well_nested(self.elements@.take(i as int)),
            decreases n - i,
        {
            let here = &self.elements[i];
            let before = &self.elements[i - 1];
            let fits = here.depth >= 1 && here.depth - 1 <= before.depth && (here.depth - 1
                < before.depth || before.token.is_none());
            let starts = match self.own_len_at(i - 1) {
                Some(len) => here.start >= before.start && here.start - before.start == len,
                None => false,
            };
            if !fits || !starts {
                proof {
                    assert(self.elements@[i as int] == *here);
                    assert(self.elements@[i - 1] == *before);
                }
                return false;
            }
            proof {
                let prefix = self.elements@.take(i as int);
                let longer = self.elements@.take(i + 1);
                assert forall|j: int| #![trigger longer[j]] 1 <= j < longer.len() implies {
                    &&& 1 <= longer[j].depth <= longer[j - 1].depth + 1
                    &&& longer[j].depth == longer[j - 1].depth + 1 ==> longer[j - 1].token is None
                    &&& longer[j].start == longer[j - 1].start + own_len(longer[j - 1])
                } by {
                    if j < i {
                        assert(longer[j] == prefix[j]);
                        assert(longer[j - 1] == prefix[j - 1]);
                    }
                }
            }
            i += 1;
        }
        proof {
            assert(self.elements@.take(n as int) =~= self.elements@);
        }
        match self.own_len_at(n - 1) {
            Some(len) => self.total >= self.elements[n - 1].start && self.total
                - self.elements[n - 1].start == len,
            None => false,
        }
    }

    /// The number of elements.
    pub fn len(&self) -> (n: usize)
        ensures
            n == self.size(),
    {
        self.elements.len()
    }

    /// The kind of element `i`.
    pub fn kind(&self, i: usize) -> (k: K)
        requires
            i < self.size(),
        ensures
            k == self.kind_of(i as int),
    {
        self.elements[i].kind
    }

    /// Whether element `i` is a token.
    pub fn token(&self, i: usize) -> (r: bool)
        requires
            i < self.size(),
        ensures
            r == self.is_token(i as int),
    {
        self.elements[i].token.is_some()
    }

    /// The index just past the last element inside element `i`.
    pub fn end(&self, i: usize) -> (e: usize)
        requires
            i < self.size(),
        ensures
            e == self.subtree_end(i as int),
            i < e <= self.size(),
    {
        let n = self.elements.len();
        let depth = self.elements[i].depth;
        let mut j: usize = i + 1;
        while j < n && self.elements[j].depth > depth
            invariant
                i < j <= n == self.size(),
                depth == self.depth_of(i as int),
                self.end_from(i as int, j as int) == self.subtree_end(i as int),
            decreases n - j,
        {
            j += 1;
        }
        j
    }

    /// The node that holds element `i` directly.
    pub fn parent(&self, i: usize) -> (p: Option<usize>)
        requires
            i < self.size(),
        ensures
            p matches Some(q) ==> q < i && self.parent_of(i as int) == Some(q as int),
            p is None ==> self.parent_of(i as int) is None,
    {
        let depth = self.elements[i].depth;
        let mut j: usize = i;
        while j > 0
            invariant
                j <= i < self.size(),
                depth == self.depth_of(i as int),
                self.enclosing_from(j - 1, depth as nat) == self.parent_of(i as int),
            decreases j,
        {
            j -= 1;
            if self.elements[j].depth < depth {
                return Some(j);
            }
        }
        None
    }

    /// The range of bytes that element `i` covers.
    pub fn range(&self, i: usize) -> (r: TextRange)
        requires
            i < self.size(),
        ensures
            r == self.range_of(i as int),
    {
        let e = self.end(i);
        let stop = if e < self.elements.len() {
            self.elements[e].start
        } else {
            self.total
        };
        TextRange { start: self.elements[i].start, end: stop }
    }

    /// The text of token `i`; empty for a node.
    pub fn own_text(&self, i: usize) -> (t: String)
        requires
            i < self.size(),
        ensures
            t@ == self.token_text(i as int),
    {
        match &self.elements[i].token {
            Some(t) => t.clone(),
            None => String::new(),
        }
    }

    /// The text that element `i` covers.
    pub fn text(&self, i: usize) -> (t: String)
        requires
            i < self.size(),
        ensures
            t@ == self.text_of(i as int),
    {
        let e = self.end(i);
        let mut out = String::new();
        let mut j: usize = i;
        while j < e
            invariant
                i <= j <= e <= self.size(),
                out@ == self.text_between(i as int, j as int),
            decreases e - j,
        {
            match &self.elements[j].token {
                Some(t) => {
                    out.append(t.as_str());
                },
                None => {
                    proof {
                        assert(out@ + Seq::<char>::empty() =~= out@);
                    }
                },
            }
            j += 1;
        }
        out
    }
    /// The first element from `from` on that `i` holds directly and that is
    /// of the given kind.
    pub fn next_child(&self, i: usize, from: usize, kind: K) -> (c: Option<usize>)
        requires
            i < from,
            i < self.size(),
        ensures
            as_index(c) == self.child_from(i as int, from as int, kind),
            c matches Some(x) ==> from <= x < self.size() && self.kind_of(x as int) == kind
                && self.depth_of(x as int) == self.depth_of(i as int) + 1,
    {
        let n = self.elements.len();
        if from >= n {
            return None;
        }
        let depth = self.elements[i].depth;
        let mut j: usize = from;
        while j < n && self.elements[j].depth > depth
            invariant
                i < from <= j <= n == self.size(),
                depth == self.depth_of(i as int),
                self.child_from(i as int, j as int, kind) == self.child_from(
                    i as int,
                    from as int,
                    kind,
                ),
            decreases n - j,
        {
            proof {
                K::lemma_code_injective(self.elements@[j as int].kind, kind);
            }
            if self.elements[j].depth == depth + 1 && self.elements[j].kind.raw() == kind.raw() {
                return Some(j);
            }
            j += 1;
        }
        None
    }

    /// The first element of the given kind that `i` holds directly.
    pub fn child(&self, i: usize, kind: K) -> (c: Option<usize>)
        requires
            i < self.size(),
        ensures
            as_index(c) == self.first_child(i as int, kind),
            c matches Some(x) ==> i < x < self.size() && self.kind_of(x as int) == kind
                && self.depth_of(x as int) == self.depth_of(i as int) + 1,
    {
        let n = self.elements.len();
        self.next_child(i, i + 1, kind)
    }

    /// The first element of the given kind that the element `i` holds
    /// directly, where there is an `i`.
    pub fn child_opt(&self, i: Option<usize>, kind: K) -> (c: Option<usize>)
        requires
            i matches Some(x) ==> x < self.size(),
        ensures
            as_index(c) == self.first_child_opt(as_index(i), kind),
            c matches Some(x) ==> x < self.size() && self.kind_of(x as int) == kind,
    {
        match i {
            Some(x) => self.child(x, kind),
            None => None,
        }
    }

    /// The byte offset at which element `j` starts; the length of the text
    /// for the index past the last element.
    pub fn offset(&self, j: usize) -> (r: u32)
        ensures
            r == self.offset_at(j as int),
    {
        if j < self.elements.len() {
            self.elements[j].start
        } else {
            self.total
        }
    }

    /// The token to the right of `offset`.
    fn find_right(&self, offset: u32) -> (r: Option<usize>)
        ensures
            as_index(r) == self.right_token(offset),
            r matches Some(t) ==> t < self.size() && self.is_token(t as int),
    {
        let n = self.elements.len();
        let mut j: usize = 0;
        while j < n
            invariant
                j <= n == self.size(),
                self.covering_from(j as int, offset) == self.right_token(offset),
            decreases n - j,
        {
            if self.elements[j].token.is_some() && self.elements[j].start <= offset && offset
                < self.offset(j + 1) {
                return Some(j);
            }
            j += 1;
        }
        None
    }

    /// The token to the left of `offset`.
    fn find_left(&self, offset: u32) -> (r: Option<usize>)
        ensures
            as_index(r) == self.left_token(offset),
            r matches Some(t) ==> t < self.size() && self.is_token(t as int),
    {
        let n = self.elements.len();
        let mut k: usize = n;
        while k > 0
            invariant
                k <= n == self.size(),
                self.reaching_before(k as int, offset) == self.left_token(offset),
            decreases k,
        {
            k -= 1;
            if self.elements[k].token.is_some() && self.elements[k].start < offset && offset
                <= self.offset(k + 1) {
                return Some(k);
            }
        }
        None
    }

    /// The tokens at `offset`: the left one of two, and the right one.
    pub fn token_at_offset(&self, offset: u32) -> (r: (Option<usize>, Option<usize>))
        ensures
            as_index(r.0) == self.left_biased(offset),
            as_index(r.1) == self.right_biased(offset),
            r.0 matches Some(t) ==> t < self.size() && self.is_token(t as int),
            r.1 matches Some(t) ==> t < self.size() && self.is_token(t as int),
    {
        let left = self.find_left(offset);
        let right = self.find_right(offset);
        let l = match left {
            Some(t) => Some(t),
            None => right,
        };
        let r = match right {
            Some(t) => Some(t),
            None => left,
        };
        (l, r)
    }

    /// Whether `kind` is one of `kinds`.
    pub fn kind_among(kind: K, kinds: &Vec<K>) -> (r: bool)
        ensures
            r == kinds@.contains(kind),
    {
        let mut k: usize = 0;
        while k < kinds.len()
            invariant
                k <= kinds.len(),
                forall|m: int| 0 <= m < k ==> kinds@[m] != kind,
            decreases kinds.len() - k,
        {
            proof {
                K::lemma_code_injective(kinds@[k as int], kind);
            }
            if kinds[k].raw() == kind.raw() {
                return true;
            }
            k += 1;
        }
        false
    }

    /// The first element that `i` holds directly and whose kind is one of
    /// `kinds`.
    pub fn child_among(&self, i: usize, kinds: &Vec<K>) -> (c: Option<usize>)
        requires
            i < self.size(),
        ensures
            as_index(c) == self.first_child_among(i as int, kinds@),
            c matches Some(x) ==> i < x < self.size() && kinds@.contains(self.kind_of(x as int))
                && self.depth_of(x as int) == self.depth_of(i as int) + 1,
    {
        let n = self.elements.len();
        let depth = self.elements[i].depth;
        let mut j: usize = i + 1;
        while j < n && self.elements[j].depth > depth
            invariant
                i < j <= n == self.size(),
                depth == self.depth_of(i as int),
                self.child_among_from(i as int, j as int, kinds@) == self.first_child_among(
                    i as int,
                    kinds@,
                ),
            decreases n - j,
        {
            if self.elements[j].depth == depth + 1 && Self::kind_among(
                self.elements[j].kind,
                kinds,
            ) {
                return Some(j);
            }
            j += 1;
        }
        None
    }

    /// The range of element `i` without the tokens of kind `a` or `b` at its
    /// end.
    pub fn small_range(&self, i: usize, a: K, b: K) -> (r: TextRange)
        requires
            i < self.size(),
        ensures
            r == self.small_range_of(i as int, a, b),
    {
        let e = self.end(i);
        let start = self.elements[i].start;
        let mut j: usize = e;
        while j > i
            invariant
                i <= j <= e <= self.size(),
                e == self.subtree_end(i as int),
                start == self.offset_at(i as int),
                self.last_solid_token(i as int, j - 1, a, b) == self.last_solid_token(
                    i as int,
                    e - 1,
                    a,
                    b,
                ),
            decreases j,
        {
            j -= 1;
            let k = self.elements[j].kind;
            proof {
                K::lemma_code_injective(k, a);
                K::lemma_code_injective(k, b);
            }
            if self.elements[j].token.is_some() && k.raw() != a.raw() && k.raw() != b.raw() {
                proof {
                    assert(self.last_solid_token(i as int, j as int, a, b) == Some(j as int));
                }
                let stop = if j + 1 < self.elements.len() {
                    self.elements[j + 1].start
                } else {
                    self.total
                };
                return TextRange { start, end: stop };
            }
        }
        TextRange { start, end: start }
    }
}

/// Builds a tree from the calls that walk it: `start_node`, then what the
/// node holds, then `finish_node`.
pub struct TreeBuilder<K> {
    pub elements: Vec<Element<K>>,
    /// How many nodes are open.
    pub depth: usize,
    /// The length in bytes of the text so far.
    pub at: u32,
}

impl<K: Kind> TreeBuilder<K> {
    /// What holds between any two calls.
    pub open spec fn inv(&self) -> bool {
        &&& well_nested(self.elements@)
        &&& self.elements@.len() == 0 ==> self.depth == 0 && self.at == 0
        &&& self.elements@.len() > 0 ==> {
            let last = self.elements@.last();
            &&& self.at == last.start + own_len(last)
            &&& self.depth <= last.depth + 1
            &&& self.depth == last.depth + 1 ==> last.token is None
        }
    }

    /// Whether a node can be started: nothing was built yet, or a node is
    /// open.
    pub open spec fn can_start(&self) -> bool {
        (self.elements@.len() == 0 || self.depth > 0) && self.depth < usize::MAX
    }

    /// Whether a token with this text can be added: a node is open, and the
    /// text still fits.
    pub open spec fn can_add(&self, text: Seq<char>) -> bool {
        self.depth > 0 && self.at + utf8_len(text) <= u32::MAX
    }

    /// A builder that has built nothing.
    pub fn new() -> (b: TreeBuilder<K>)
        ensures
            b.inv(),
            b.elements@.len() == 0,
            b.depth == 0,
    {
        TreeBuilder { elements: Vec::new(), depth: 0, at: 0 }
    }

    /// Whether a node can be started.
    pub fn startable(&self) -> (r: bool)
        ensures
            r == self.can_start(),
    {
        (self.elements.len() == 0 || self.depth > 0) && self.depth < usize::MAX
    }

    /// Whether a token with this text can be added.
    pub fn fits(&self, text: &str) -> (r: bool)
        ensures
            r == self.can_add(text@),
    {
        if self.depth == 0 {
            return false;
        }
        match byte_len(text) {
            Some(n) => n <= u32::MAX - self.at,
            None => false,
        }
    }

    /// Opens a node of the given kind.
    pub fn start_node(&mut self, kind: K)
        requires
            old(self).inv(),
            old(self).can_start(),
        ensures
            final(self).inv(),
            final(self).elements@ == old(self).elements@.push(
                Element { kind, depth: old(self).depth, token: None, start: old(self).at },
            ),
            final(self).depth == old(self).depth + 1,
    {
        let e = Element { kind, depth: self.depth, token: None, start: self.at };
        self.elements.push(e);
        self.depth = self.depth + 1;
    }

    /// Adds a token to the open node.
    pub fn token(&mut self, kind: K, text: &str)
        requires
            old(self).inv(),
            old(self).can_add(text@),
        ensures
            final(self).inv(),
            final(self).depth == old(self).depth,
            final(self).elements@.len() == old(self).elements@.len() + 1,
            final(self).elements@.drop_last() == old(self).elements@,
            final(self).elements@.last().kind == kind,
            final(self).elements@.last().depth == old(self).depth,
            final(self).elements@.last().token matches Some(t) && t@ == text@,
    {
        let n = match byte_len(text) {
            Some(n) => n,
            None => 0,
        };
        let e = Element {
            kind,
            depth: self.depth,
            token: Some(String::from_str(text)),
            start: self.at,
        };
        self.elements.push(e);
        self.at = self.at + n;
        proof {
            assert(self.elements@.drop_last() =~= old(self).elements@);
        }
    }

    /// Closes the node opened last.
    pub fn finish_node(&mut self)
        requires
            old(self).inv(),
            old(self).depth > 0,
        ensures
            final(self).inv(),
            final(self).elements@ == old(self).elements@,
            final(self).depth == old(self).depth - 1,
    {
        self.depth = self.depth - 1;
    }

    /// The tree that was built.
    pub fn finish(self) -> (tree: SyntaxTree<K>)
        requires
            self.inv(),
            self.elements@.len() > 0,
        ensures
            tree.well_formed(),
            tree.elements@ == self.elements@,
    {
        SyntaxTree { elements: self.elements, total: self.at }
    }
}

} // verus!
