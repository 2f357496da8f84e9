//! The token that a position in a document is about.

use crate::bibtex;
use crate::document::DocumentData;
use crate::features::{
    CompletionParams, DocumentHighlightParams, FeatureRequest, GotoDefinitionParams, HoverParams,
    ReferenceParams, RenameParams, TextDocumentPositionParams,
};
use crate::latex;
use crate::line_index::Position;
use crate::syntax::TextRange;
use crate::text::{str_eq, utf8_len};
use std::collections::HashSet;
use vstd::prelude::*;

verus! {

/// The token that a position is about, by its index in the document's tree.
#[derive(Debug, PartialEq, Eq, Clone, Copy, Structural)]
pub enum Cursor {
    Latex(usize),
    Bibtex(usize),
    Nothing,
}

/// Whether a name is that of an environment whose content is not LaTeX.
pub open spec fn is_verbatim_name(name: Seq<char>) -> bool {
    name == "asy"@ || name == "asycode"@ || name == "luacode"@ || name == "lstlisting"@ || name
        == "minted"@ || name == "verbatim"@
}

/// Whether node `env` is a verbatim environment for a walk that has passed
/// the nodes `visited`: an environment with such a name, whose `\begin` and
/// `\end` parts are not among the nodes passed.
pub open spec fn is_verbatim_environment(tree: &latex::Tree, env: int, visited: Set<usize>)
    -> bool {
    &&& tree.kind_of(env) == latex::SyntaxKind::ENVIRONMENT
    &&& latex::environment_name_key(tree, env) matches Some(key) && is_verbatim_name(
        latex::key_text_of(tree, key),
    )
    &&& (tree.first_child(env, latex::SyntaxKind::BEGIN) matches Some(b) ==> !visited.contains(
        b as usize,
    ))
    &&& (tree.first_child(env, latex::SyntaxKind::END) matches Some(e) ==> !visited.contains(
        e as usize,
    ))
}

/// Whether node `cur` or a node above it is a verbatim environment, for a
/// walk that has passed the nodes `visited` below `cur`.
pub open spec fn verbatim_above(tree: &latex::Tree, cur: int, visited: Set<usize>) -> bool
    decreases cur + 1,
{
    if cur < 0 || cur >= tree.size() {
        false
    } else {
        let seen = visited.insert(cur as usize);
        is_verbatim_environment(tree, cur, seen) || match tree.parent_of(cur) {
            Some(p) => if 0 <= p < cur {
                verbatim_above(tree, p, seen)
            } else {
                false
            },
            None => false,
        }
    }
}

/// Where the walk upwards from an element starts: at the element, if it is a
/// node, else at the node that holds it.
pub open spec fn walk_start(tree: &latex::Tree, elem: int) -> int {
    if tree.is_token(elem) {
        match tree.parent_of(elem) {
            Some(p) => p,
            None => -1,
        }
    } else {
        elem
    }
}

/// Whether an element lies in the body of a verbatim environment.
pub open spec fn in_verbatim(tree: &latex::Tree, elem: int) -> bool {
    verbatim_above(tree, walk_start(tree, elem), Set::empty())
}

/// Whether the text is the name of a verbatim environment.
fn verbatim_name(name: &str) -> (r: bool)
    ensures
        r == is_verbatim_name(name@),
{
    str_eq(name, "asy") || str_eq(name, "asycode") || str_eq(name, "luacode") || str_eq(
        name,
        "lstlisting",
    ) || str_eq(name, "minted") || str_eq(name, "verbatim")
}

/// Whether node `env` is a verbatim environment for a walk that has passed
/// the nodes `visited`.
fn verbatim_environment(tree: &latex::Tree, env: usize, visited: &HashSet<usize>) -> (r: bool)
    requires
        env < tree.size(),
    ensures
        r == is_verbatim_environment(tree, env as int, visited@),
{
    broadcast use vstd::std_specs::hash::group_hash_axioms;

    if tree.kind(env) != latex::SyntaxKind::ENVIRONMENT {
        return false;
    }
    let begin = tree.child(env, latex::SyntaxKind::BEGIN);
    let group = tree.child_opt(begin, latex::SyntaxKind::CURLY_GROUP_WORD);
    let key = match tree.child_opt(group, latex::SyntaxKind::KEY) {
        Some(key) => key,
        None => {
            return false;
        },
    };
    let name = latex::key_text(tree, key);
    if !verbatim_name(name.as_str()) {
        return false;
    }
    match begin {
        Some(b) => {
            if visited.contains(&b) {
                return false;
            }
        },
        None => {},
    }
    match tree.child(env, latex::SyntaxKind::END) {
        Some(e) => {
            if visited.contains(&e) {
                return false;
            }
        },
        None => {},
    }
    true
}

/// Whether an element lies in the body of a verbatim environment: the walk
/// from it up to the root meets an environment with a verbatim name, and has
/// not come through that environment's `\begin` or `\end` part.
///
/// The nodes passed are kept in a hash set with std's own hasher: of a set
/// with another hasher vstd's specification says nothing
/// (`builds_valid_hashers`).
pub fn is_child_of_verbatim_environment(tree: &latex::Tree, elem: usize) -> (r: bool)
    requires
        elem < tree.size(),
    ensures
        r == in_verbatim(tree, elem as int),
{
    broadcast use vstd::std_specs::hash::group_hash_axioms;

    let mut visited: HashSet<usize> = HashSet::new();
    let mut cur: usize = if tree.token(elem) {
        match tree.parent(elem) {
            Some(p) => p,
            None => {
                return false;
            },
        }
    } else {
        elem
    };
    loop
        invariant
            cur < tree.size(),
            verbatim_above(tree, cur as int, visited@) == in_verbatim(tree, elem as int),
        decreases cur,
    {
        visited.insert(cur);
        if verbatim_environment(tree, cur, &visited) {
            return true;
        }
        match tree.parent(cur) {
            Some(p) => {
                cur = p;
            },
            None => {
                return false;
            },
        }
    }
}

/// Whether token `t` is a blank inside a key.
pub open spec fn is_key_blank(tree: &latex::Tree, t: int) -> bool {
    tree.kind_of(t) == latex::SyntaxKind::WHITESPACE && (tree.parent_of(t) matches Some(p)
        && tree.kind_of(p) == latex::SyntaxKind::KEY)
}

/// The token of a LaTeX document that a position is about, given the tokens
/// to its left and right. Tokens in the body of a verbatim environment are
/// passed over. In order: a command's name on the left; a word on the right;
/// a word on the left; a command's name on the right; a blank inside a key
/// on the left; such a blank on the right; whatever is on the right.
pub open spec fn latex_cursor(tree: &latex::Tree, left: Option<usize>, right: Option<usize>)
    -> Option<Cursor> {
    match (left, right) {
        (Some(l), Some(r)) => {
            let lv = in_verbatim(tree, l as int);
            let rv = in_verbatim(tree, r as int);
            if !lv && tree.kind_of(l as int).is_command_name() {
                Some(Cursor::Latex(l))
            } else if !rv && tree.kind_of(r as int) == latex::SyntaxKind::WORD {
                Some(Cursor::Latex(r))
            } else if !lv && tree.kind_of(l as int) == latex::SyntaxKind::WORD {
                Some(Cursor::Latex(l))
            } else if !rv && tree.kind_of(r as int).is_command_name() {
                Some(Cursor::Latex(r))
            } else if !lv && is_key_blank(tree, l as int) {
                Some(Cursor::Latex(l))
            } else if !rv && is_key_blank(tree, r as int) {
                Some(Cursor::Latex(r))
            } else if !rv {
                Some(Cursor::Latex(r))
            } else {
                None
            }
        },
        _ => None,
    }
}

/// The token of a BibTeX document that a position is about, given the
/// tokens to its left and right. In order: a type on the right; a type on
/// the left; a command's name on the left; a word on the right; a word on
/// the left; whatever is on the right.
pub open spec fn bibtex_cursor(tree: &bibtex::Tree, left: Option<usize>, right: Option<usize>)
    -> Option<Cursor> {
    match (left, right) {
        (Some(l), Some(r)) => {
            if tree.kind_of(r as int).is_type() {
                Some(Cursor::Bibtex(r))
            } else if tree.kind_of(l as int).is_type() {
                Some(Cursor::Bibtex(l))
            } else if tree.kind_of(l as int) == bibtex::SyntaxKind::COMMAND_NAME {
                Some(Cursor::Bibtex(l))
            } else if tree.kind_of(r as int) == bibtex::SyntaxKind::WORD {
                Some(Cursor::Bibtex(r))
            } else if tree.kind_of(l as int) == bibtex::SyntaxKind::WORD {
                Some(Cursor::Bibtex(l))
            } else {
                Some(Cursor::Bibtex(r))
            }
        },
        _ => None,
    }
}

/// Whether token `t` is a blank inside a key.
fn key_blank(tree: &latex::Tree, t: usize) -> (r: bool)
    requires
        t < tree.size(),
    ensures
        r == is_key_blank(tree, t as int),
{
    if tree.kind(t) != latex::SyntaxKind::WHITESPACE {
        return false;
    }
    match tree.parent(t) {
        Some(p) => tree.kind(p) == latex::SyntaxKind::KEY,
        None => false,
    }
}

impl Cursor {
    /// The token of a LaTeX document that a position is about, given the
    /// tokens to its left and right.
    pub fn new_latex(tree: &latex::Tree, left: Option<usize>, right: Option<usize>) -> (r: Option<
        Cursor,
    >)
        requires
            left matches Some(l) ==> l < tree.size(),
            right matches Some(r) ==> r < tree.size(),
        ensures
            r == latex_cursor(tree, left, right),
    {
        let left = match left {
            Some(l) => l,
            None => {
                return None;
            },
        };
        let right = match right {
            Some(r) => r,
            None => {
                return None;
            },
        };
        let is_left_verbatim = is_child_of_verbatim_environment(tree, left);
        let is_right_verbatim = is_child_of_verbatim_environment(tree, right);
        if !is_left_verbatim && tree.kind(left).is_command_name() {
            return Some(Cursor::Latex(left));
        }
        if !is_right_verbatim && tree.kind(right) == latex::SyntaxKind::WORD {
            return Some(Cursor::Latex(right));
        }
        if !is_left_verbatim && tree.kind(left) == latex::SyntaxKind::WORD {
            return Some(Cursor::Latex(left));
        }
        if !is_right_verbatim && tree.kind(right).is_command_name() {
            return Some(Cursor::Latex(right));
        }
        if !is_left_verbatim && key_blank(tree, left) {
            return Some(Cursor::Latex(left));
        }
        if !is_right_verbatim && key_blank(tree, right) {
            return Some(Cursor::Latex(right));
        }
        if !is_right_verbatim {
            Some(Cursor::Latex(right))
        } else {
            None
        }
    }

    /// The token of a BibTeX document that a position is about, given the
    /// tokens to its left and right.
    pub fn new_bibtex(tree: &bibtex::Tree, left: Option<usize>, right: Option<usize>) -> (r:
        Option<Cursor>)
        requires
            left matches Some(l) ==> l < tree.size(),
            right matches Some(r) ==> r < tree.size(),
        ensures
            r == bibtex_cursor(tree, left, right),
    {
        let left = match left {
            Some(l) => l,
            None => {
                return None;
            },
        };
        let right = match right {
            Some(r) => r,
            None => {
                return None;
            },
        };
        if tree.kind(right).is_type() {
            return Some(Cursor::Bibtex(right));
        }
        if tree.kind(left).is_type() {
            return Some(Cursor::Bibtex(left));
        }
        if tree.kind(left) == bibtex::SyntaxKind::COMMAND_NAME {
            return Some(Cursor::Bibtex(left));
        }
        if tree.kind(right) == bibtex::SyntaxKind::WORD {
            return Some(Cursor::Bibtex(right));
        }
        if tree.kind(left) == bibtex::SyntaxKind::WORD {
            return Some(Cursor::Bibtex(left));
        }
        if tree.kind(right) == bibtex::SyntaxKind::COMMAND_NAME {
            return Some(Cursor::Bibtex(right));
        }
        Some(Cursor::Bibtex(right))
    }

    /// The token, where it is one of a LaTeX document.
    pub fn as_latex(&self) -> (r: Option<usize>)
        ensures
            r == (match *self {
                Cursor::Latex(t) => Some(t),
                _ => None,
            }),
    {
        if let Cursor::Latex(v) = self {
            Some(*v)
        } else {
            None
        }
    }

    /// The token, where it is one of a BibTeX document.
    pub fn as_bibtex(&self) -> (r: Option<usize>)
        ensures
            r == (match *self {
                Cursor::Bibtex(t) => Some(t),
                _ => None,
            }),
    {
        if let Cursor::Bibtex(v) = self {
            Some(*v)
        } else {
            None
        }
    }

    /// Whether the cursor names a token of the document.
    pub open spec fn fits(self, data: DocumentData) -> bool {
        match self {
            Cursor::Latex(t) => data matches DocumentData::Latex(d) && t < d.root.size(),
            Cursor::Bibtex(t) => data matches DocumentData::Bibtex(d) && t < d.root.size(),
            Cursor::Nothing => true,
        }
    }

    /// The range of a command's name, without the backslash, where the
    /// token is a command's name that does not start at `offset`.
    pub open spec fn command_range_of(self, data: DocumentData, offset: u32) -> Option<TextRange> {
        match (self, data) {
            (Cursor::Latex(t), DocumentData::Latex(d)) => if d.root.kind_of(
                t as int,
            ).is_command_name() {
                name_range(d.root.range_of(t as int), offset)
            } else {
                None
            },
            (Cursor::Bibtex(t), DocumentData::Bibtex(d)) => if d.root.kind_of(t as int)
                == bibtex::SyntaxKind::COMMAND_NAME {
                name_range(d.root.range_of(t as int), offset)
            } else {
                None
            },
            _ => None,
        }
    }

    /// The range of a command's name, without the backslash.
    pub fn command_range(&self, data: &DocumentData, offset: u32) -> (r: Option<TextRange>)
        requires
            self.fits(*data),
        ensures
            r == self.command_range_of(*data, offset),
    {
        match (self, data) {
            (Cursor::Latex(t), DocumentData::Latex(d)) => {
                if d.root.kind(*t).is_command_name() {
                    range_of_name(d.root.range(*t), offset)
                } else {
                    None
                }
            },
            (Cursor::Bibtex(t), DocumentData::Bibtex(d)) => {
                if d.root.kind(*t) == bibtex::SyntaxKind::COMMAND_NAME {
                    range_of_name(d.root.range(*t), offset)
                } else {
                    None
                }
            },
            _ => None,
        }
    }
}

/// The range of a command without its first byte, the backslash; `None`
/// where the command starts at `offset`, and where it is empty.
pub open spec fn name_range(range: TextRange, offset: u32) -> Option<TextRange> {
    if range.start != offset && range.start < range.end {
        Some(TextRange { start: (range.start + 1) as u32, end: range.end })
    } else {
        None
    }
}

/// The range of a command without its first byte.
fn range_of_name(range: TextRange, offset: u32) -> (r: Option<TextRange>)
    ensures
        r == name_range(range, offset),
{
    if range.start != offset && range.start < range.end {
        Some(TextRange { start: range.start + 1, end: range.end })
    } else {
        None
    }
}

/// Requests that are about a position.
pub trait HasPosition {
    /// The position that the request is about.
    spec fn position_of(&self) -> Position;

    /// The position that the request is about.
    fn position(&self) -> (r: Position)
        ensures
            r == self.position_of(),
    ;
}

impl HasPosition for CompletionParams {
    open spec fn position_of(&self) -> Position {
        self.text_document_position.position
    }

    fn position(&self) -> (r: Position) {
        self.text_document_position.position
    }
}

impl HasPosition for TextDocumentPositionParams {
    open spec fn position_of(&self) -> Position {
        self.position
    }

    fn position(&self) -> (r: Position) {
        self.position
    }
}

impl HasPosition for RenameParams {
    open spec fn position_of(&self) -> Position {
        self.text_document_position.position
    }

    fn position(&self) -> (r: Position) {
        self.text_document_position.position
    }
}

impl HasPosition for ReferenceParams {
    open spec fn position_of(&self) -> Position {
        self.text_document_position.position
    }

    fn position(&self) -> (r: Position) {
        self.text_document_position.position
    }
}

impl HasPosition for HoverParams {
    open spec fn position_of(&self) -> Position {
        self.text_document_position_params.position
    }

    fn position(&self) -> (r: Position) {
        self.text_document_position_params.position
    }
}

impl HasPosition for GotoDefinitionParams {
    open spec fn position_of(&self) -> Position {
        self.text_document_position_params.position
    }

    fn position(&self) -> (r: Position) {
        self.text_document_position_params.position
    }
}

impl HasPosition for DocumentHighlightParams {
    open spec fn position_of(&self) -> Position {
        self.text_document_position_params.position
    }

    fn position(&self) -> (r: Position) {
        self.text_document_position_params.position
    }
}

/// The cursor for a position in a document: the tokens to the left and right
/// of the byte offset decide.
pub open spec fn cursor_at(data: DocumentData, offset: u32) -> Cursor {
    let found = match data {
        DocumentData::Latex(d) => latex_cursor(
            &d.root,
            index_of(d.root.left_biased(offset)),
            index_of(d.root.right_biased(offset)),
        ),
        DocumentData::Bibtex(d) => bibtex_cursor(
            &d.root,
            index_of(d.root.left_biased(offset)),
            index_of(d.root.right_biased(offset)),
        ),
        DocumentData::BuildLog => None,
    };
    match found {
        Some(c) => c,
        None => Cursor::Nothing,
    }
}

/// An optional number, as an index.
pub open spec fn index_of(i: Option<int>) -> Option<usize> {
    match i {
        Some(x) => Some(x as usize),
        None => None,
    }
}

/// Whether a kind is that of a node that defines or uses a label.
pub open spec fn is_label_kind(kind: latex::SyntaxKind) -> bool {
    kind == latex::SyntaxKind::LABEL_DEFINITION || kind == latex::SyntaxKind::LABEL_REFERENCE
        || kind == latex::SyntaxKind::LABEL_REFERENCE_RANGE
}

/// Whether `offset` lies in a group, or the group is not closed.
pub open spec fn inside_curly(tree: &latex::Tree, group: int, offset: u32) -> bool {
    latex::small_range_of(tree, group).holds(offset) || tree.first_child(
        group,
        latex::SyntaxKind::R_CURLY,
    ) is None
}

/// The word token `t`, where it is one.
pub open spec fn word_token(tree: &latex::Tree, t: int) -> Option<int> {
    if tree.kind_of(t) == latex::SyntaxKind::WORD {
        Some(t)
    } else {
        None
    }
}

/// The key of a citation that word `t` belongs to.
pub open spec fn citation_key_word(tree: &latex::Tree, t: int) -> Option<(Seq<char>, TextRange)> {
    let key = latex::parent_of_kind(tree, word_token(tree, t), latex::SyntaxKind::KEY);
    let group = latex::parent_of_kind(tree, key, latex::SyntaxKind::CURLY_GROUP_WORD_LIST);
    if latex::parent_of_kind(tree, group, latex::SyntaxKind::CITATION) is Some {
        latex::key_entry(tree, key)
    } else {
        None
    }
}

/// The first key of the citation whose command token `t` is.
pub open spec fn citation_key_command(tree: &latex::Tree, t: int) -> Option<
    (Seq<char>, TextRange),
> {
    let citation = latex::parent_of_kind(tree, Some(t), latex::SyntaxKind::CITATION);
    latex::key_entry(
        tree,
        tree.first_child_opt(
            tree.first_child_opt(citation, latex::SyntaxKind::CURLY_GROUP_WORD_LIST),
            latex::SyntaxKind::KEY,
        ),
    )
}

/// The key of the entry that word `t` names.
pub open spec fn entry_key(tree: &bibtex::Tree, t: int) -> Option<(Seq<char>, TextRange)> {
    if tree.kind_of(t) == bibtex::SyntaxKind::WORD && (tree.parent_of(t) matches Some(p) && 0 <= p
        < tree.size() && tree.kind_of(p) == bibtex::SyntaxKind::ENTRY) {
        Some((tree.token_text(t), tree.range_of(t)))
    } else {
        None
    }
}

/// The name of the label that word `t` belongs to.
pub open spec fn label_name_key(tree: &latex::Tree, t: int) -> Option<(Seq<char>, TextRange)> {
    let key = latex::parent_of_kind(tree, word_token(tree, t), latex::SyntaxKind::KEY);
    match latex::parent_opt(tree, latex::parent_opt(tree, key)) {
        Some(node) => if 0 <= node < tree.size() && is_label_kind(tree.kind_of(node)) {
            latex::key_entry(tree, key)
        } else {
            None
        },
        None => None,
    }
}

/// The name of the label that the command of token `t` defines or uses: for
/// a reference to several labels the first, for a range the label it starts
/// from.
pub open spec fn label_name_command(tree: &latex::Tree, t: int) -> Option<
    (Seq<char>, TextRange),
> {
    match tree.parent_of(t) {
        Some(node) => if !(0 <= node < tree.size()) {
            None
        } else if tree.kind_of(node) == latex::SyntaxKind::LABEL_REFERENCE {
            latex::key_entry(
                tree,
                tree.first_child_opt(
                    tree.first_child(node, latex::SyntaxKind::CURLY_GROUP_WORD_LIST),
                    latex::SyntaxKind::KEY,
                ),
            )
        } else if tree.kind_of(node) == latex::SyntaxKind::LABEL_DEFINITION || tree.kind_of(node)
            == latex::SyntaxKind::LABEL_REFERENCE_RANGE {
            latex::key_entry(
                tree,
                tree.first_child_opt(
                    tree.first_child(node, latex::SyntaxKind::CURLY_GROUP_WORD),
                    latex::SyntaxKind::KEY,
                ),
            )
        } else {
            None
        },
        None => None,
    }
}

/// The group of the given kind that token `t` lies in, directly or inside
/// the group's key, with the key's text and range; for a token outside a key
/// an empty text and the empty range at `offset`. `offset` must lie in the
/// group, unless the group is not closed.
pub open spec fn curly_group(tree: &latex::Tree, t: int, offset: u32, kind: latex::SyntaxKind)
    -> Option<(Seq<char>, TextRange, int)> {
    let key = latex::parent_of_kind(tree, Some(t), latex::SyntaxKind::KEY);
    let holder = match latex::parent_opt(tree, key) {
        Some(g) => Some(g),
        None => tree.parent_of(t),
    };
    match holder {
        Some(g) => if 0 <= g < tree.size() && tree.kind_of(g) == kind && inside_curly(
            tree,
            g,
            offset,
        ) {
            match key {
                Some(k) => Some((latex::key_text_of(tree, k), latex::small_range_of(tree, k), g)),
                None => Some((Seq::empty(), TextRange { start: offset, end: offset }, g)),
            }
        } else {
            None
        },
        None => None,
    }
}

/// The name of the environment in whose `\begin` or `\end` token `t` lies.
pub open spec fn environment_name(tree: &latex::Tree, t: int, offset: u32) -> Option<
    (Seq<char>, TextRange),
> {
    match curly_group(tree, t, offset, latex::SyntaxKind::CURLY_GROUP_WORD) {
        Some((name, range, group)) => match tree.parent_of(group) {
            Some(p) => if 0 <= p < tree.size() && (tree.kind_of(p) == latex::SyntaxKind::BEGIN
                || tree.kind_of(p) == latex::SyntaxKind::END) {
                Some((name, range))
            } else {
                None
            },
            None => None,
        },
        None => None,
    }
}

/// What a name with its range and group holds.
pub open spec fn group_view(r: Option<(String, TextRange, usize)>) -> Option<
    (Seq<char>, TextRange, int),
> {
    match r {
        Some((name, range, group)) => Some((name@, range, group as int)),
        None => None,
    }
}

/// A request with the token that its position is about.
pub struct CursorContext<P> {
    pub request: FeatureRequest<P>,
    pub cursor: Cursor,
    /// The byte offset of the position.
    pub offset: u32,
}

impl<P: HasPosition> CursorContext<P> {
    /// Whether the request names a document and the cursor a token of it.
    pub open spec fn well_formed(&self) -> bool {
        self.request.well_formed() && self.cursor.fits(self.request.subset.documents@[0].data)
    }

    /// The LaTeX tree of the request's document and the cursor's token in
    /// it.
    pub open spec fn latex_token(&self) -> Option<(latex::Tree, int)> {
        match (self.cursor, self.request.subset.documents@[0].data) {
            (Cursor::Latex(t), DocumentData::Latex(d)) => Some((d.root, t as int)),
            _ => None,
        }
    }

    /// The context of a request: the byte offset of its position, and the
    /// token there.
    pub fn new(request: FeatureRequest<P>) -> (r: Self)
        requires
            request.well_formed(),
        ensures
            r.well_formed(),
            r.request == request,
            r.offset == utf8_len(
                request.subset.documents@[0].line_index.text().take(
                    crate::line_index::char_index_at(
                        request.subset.documents@[0].line_index.text(),
                        request.params.position_of(),
                    ),
                ),
            ),
            r.cursor == cursor_at(request.subset.documents@[0].data, r.offset),
    {
        let main_document = request.main_document();
        let offset = main_document.line_index.offset_lsp(request.params.position());
        let cursor = match &main_document.data {
            DocumentData::Latex(data) => {
                let (left, right) = data.root.token_at_offset(offset);
                Cursor::new_latex(&data.root, left, right)
            },
            DocumentData::Bibtex(data) => {
                let (left, right) = data.root.token_at_offset(offset);
                Cursor::new_bibtex(&data.root, left, right)
            },
            DocumentData::BuildLog => None,
        };
        let cursor = match cursor {
            Some(c) => c,
            None => Cursor::Nothing,
        };
        CursorContext { request, cursor, offset }
    }

    /// Whether the position lies in a group, or the group is not closed.
    pub fn is_inside_latex_curly(&self, tree: &latex::Tree, group: usize) -> (r: bool)
        requires
            group < tree.size(),
        ensures
            r == inside_curly(tree, group as int, self.offset),
    {
        latex::small_range(tree, group).contains(self.offset) || tree.child(
            group,
            latex::SyntaxKind::R_CURLY,
        ).is_none()
    }

    /// The LaTeX tree of the request's document and the cursor's token in
    /// it.
    fn latex_cursor(&self) -> (r: Option<(&latex::Tree, usize)>)
        requires
            self.well_formed(),
        ensures
            match r {
                Some((tree, t)) => self.latex_token() == Some((*tree, t as int)) && t
                    < tree.size(),
                None => self.latex_token() is None,
            },
    {
        match (self.cursor, &self.request.main_document().data) {
            (Cursor::Latex(t), DocumentData::Latex(d)) => Some((&d.root, t)),
            _ => None,
        }
    }

    /// The key of the citation that the word at the position belongs to.
    pub fn find_citation_key_word(&self) -> (r: Option<(String, TextRange)>)
        requires
            self.well_formed(),
        ensures
            latex::entry_view(r) == (match self.latex_token() {
                Some((tree, t)) => citation_key_word(&tree, t),
                None => None,
            }),
    {
        let (tree, t) = match self.latex_cursor() {
            Some(found) => found,
            None => {
                return None;
            },
        };
        let word = if tree.kind(t) == latex::SyntaxKind::WORD {
            Some(t)
        } else {
            None
        };
        let key = latex::parent_cast(tree, word, latex::SyntaxKind::KEY);
        let group = latex::parent_cast(tree, key, latex::SyntaxKind::CURLY_GROUP_WORD_LIST);
        if latex::parent_cast(tree, group, latex::SyntaxKind::CITATION).is_none() {
            return None;
        }
        latex::key_and_range(tree, key)
    }

    /// The first key of the citation whose command is at the position.
    pub fn find_citation_key_command(&self) -> (r: Option<(String, TextRange)>)
        requires
            self.well_formed(),
        ensures
            latex::entry_view(r) == (match self.latex_token() {
                Some((tree, t)) => citation_key_command(&tree, t),
                None => None,
            }),
    {
        let (tree, t) = match self.latex_cursor() {
            Some(found) => found,
            None => {
                return None;
            },
        };
        let citation = latex::parent_cast(tree, Some(t), latex::SyntaxKind::CITATION);
        let list = tree.child_opt(citation, latex::SyntaxKind::CURLY_GROUP_WORD_LIST);
        let key = tree.child_opt(list, latex::SyntaxKind::KEY);
        latex::key_and_range(tree, key)
    }

    /// The key of the entry that the word at the position names.
    pub fn find_entry_key(&self) -> (r: Option<(String, TextRange)>)
        requires
            self.well_formed(),
        ensures
            latex::entry_view(r) == (match (
                self.cursor,
                self.request.subset.documents@[0].data,
            ) {
                (Cursor::Bibtex(t), DocumentData::Bibtex(d)) => entry_key(&d.root, t as int),
                _ => None,
            }),
    {
        match (self.cursor, &self.request.main_document().data) {
            (Cursor::Bibtex(t), DocumentData::Bibtex(d)) => {
                let tree = &d.root;
                if tree.kind(t) != bibtex::SyntaxKind::WORD {
                    return None;
                }
                match tree.parent(t) {
                    Some(p) => {
                        if tree.kind(p) == bibtex::SyntaxKind::ENTRY {
                            Some((tree.own_text(t), tree.range(t)))
                        } else {
                            None
                        }
                    },
                    None => None,
                }
            },
            _ => None,
        }
    }

    /// The name of the label that the word at the position belongs to.
    pub fn find_label_name_key(&self) -> (r: Option<(String, TextRange)>)
        requires
            self.well_formed(),
        ensures
            latex::entry_view(r) == (match self.latex_token() {
                Some((tree, t)) => label_name_key(&tree, t),
                None => None,
            }),
    {
        let (tree, t) = match self.latex_cursor() {
            Some(found) => found,
            None => {
                return None;
            },
        };
        let word = if tree.kind(t) == latex::SyntaxKind::WORD {
            Some(t)
        } else {
            None
        };
        let key = latex::parent_cast(tree, word, latex::SyntaxKind::KEY);
        let group = latex::parent_of_opt(tree, key);
        match latex::parent_of_opt(tree, group) {
            Some(node) => {
                let kind = tree.kind(node);
                if kind == latex::SyntaxKind::LABEL_DEFINITION || kind
                    == latex::SyntaxKind::LABEL_REFERENCE || kind
                    == latex::SyntaxKind::LABEL_REFERENCE_RANGE {
                    latex::key_and_range(tree, key)
                } else {
                    None
                }
            },
            None => None,
        }
    }

    /// The name of the label that the command at the position defines or
    /// uses.
    pub fn find_label_name_command(&self) -> (r: Option<(String, TextRange)>)
        requires
            self.well_formed(),
        ensures
            latex::entry_view(r) == (match self.latex_token() {
                Some((tree, t)) => label_name_command(&tree, t),
                None => None,
            }),
    {
        let (tree, t) = match self.latex_cursor() {
            Some(found) => found,
            None => {
                return None;
            },
        };
        let node = match tree.parent(t) {
            Some(node) => node,
            None => {
                return None;
            },
        };
        let kind = tree.kind(node);
        if kind == latex::SyntaxKind::LABEL_REFERENCE {
            let list = tree.child(node, latex::SyntaxKind::CURLY_GROUP_WORD_LIST);
            latex::key_and_range(tree, tree.child_opt(list, latex::SyntaxKind::KEY))
        } else if kind == latex::SyntaxKind::LABEL_DEFINITION || kind
            == latex::SyntaxKind::LABEL_REFERENCE_RANGE {
            let name = tree.child(node, latex::SyntaxKind::CURLY_GROUP_WORD);
            latex::key_and_range(tree, tree.child_opt(name, latex::SyntaxKind::KEY))
        } else {
            None
        }
    }

    /// The group of the given kind that the position lies in.
    fn find_curly_group(&self, kind: latex::SyntaxKind) -> (r: Option<(String, TextRange, usize)>)
        requires
            self.well_formed(),
        ensures
            group_view(r) == (match self.latex_token() {
                Some((tree, t)) => curly_group(&tree, t, self.offset, kind),
                None => None,
            }),
            r matches Some((_, _, g)) ==> self.latex_token() matches Some((tree, _)) && g
                < tree.size(),
    {
        let (tree, t) = match self.latex_cursor() {
            Some(found) => found,
            None => {
                return None;
            },
        };
        let key = latex::parent_cast(tree, Some(t), latex::SyntaxKind::KEY);
        let holder = match latex::parent_of_opt(tree, key) {
            Some(g) => Some(g),
            None => tree.parent(t),
        };
        let group = match holder {
            Some(g) => g,
            None => {
                return None;
            },
        };
        if tree.kind(group) != kind || !self.is_inside_latex_curly(tree, group) {
            return None;
        }
        match key {
            Some(k) => Some((latex::key_text(tree, k), latex::small_range(tree, k), group)),
            None => Some((String::new(), TextRange::empty(self.offset), group)),
        }
    }

    /// The group with one word that the position lies in, with the word.
    pub fn find_curly_group_word(&self) -> (r: Option<(String, TextRange, usize)>)
        requires
            self.well_formed(),
        ensures
            group_view(r) == (match self.latex_token() {
                Some((tree, t)) => curly_group(
                    &tree,
                    t,
                    self.offset,
                    latex::SyntaxKind::CURLY_GROUP_WORD,
                ),
                None => None,
            }),
    {
        self.find_curly_group(latex::SyntaxKind::CURLY_GROUP_WORD)
    }

    /// The group with a list of words that the position lies in, with the
    /// word at the position.
    pub fn find_curly_group_word_list(&self) -> (r: Option<(String, TextRange, usize)>)
        requires
            self.well_formed(),
        ensures
            group_view(r) == (match self.latex_token() {
                Some((tree, t)) => curly_group(
                    &tree,
                    t,
                    self.offset,
                    latex::SyntaxKind::CURLY_GROUP_WORD_LIST,
                ),
                None => None,
            }),
    {
        self.find_curly_group(latex::SyntaxKind::CURLY_GROUP_WORD_LIST)
    }

    /// The name of the environment in whose `\begin` or `\end` the position
    /// lies.
    pub fn find_environment_name(&self) -> (r: Option<(String, TextRange)>)
        requires
            self.well_formed(),
        ensures
            latex::entry_view(r) == (match self.latex_token() {
                Some((tree, t)) => environment_name(&tree, t, self.offset),
                None => None,
            }),
    {
        let (name, range, group) = match self.find_curly_group(latex::SyntaxKind::CURLY_GROUP_WORD) {
            Some(found) => found,
            None => {
                return None;
            },
        };
        let (tree, t) = match self.latex_cursor() {
            Some(found) => found,
            None => {
                return None;
            },
        };
        match tree.parent(group) {
            Some(p) => {
                let kind = tree.kind(p);
                if kind == latex::SyntaxKind::BEGIN || kind == latex::SyntaxKind::END {
                    Some((name, range))
                } else {
                    None
                }
            },
            None => None,
        }
    }
}

} // verus!
