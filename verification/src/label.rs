//! What a label stands on, and how to speak of it.

use crate::document::{Document, DocumentData, LatexExtras, TheoremEnvironment};
use crate::language::LanguageData;
use crate::latex::{self, SyntaxKind};
use crate::protocol::{MarkupContent, MarkupKind};
use crate::syntax::{as_index, TextRange};
use crate::text::{opt_text, str_eq};
use crate::workspace::WorkspaceSubset;
use std::sync::Arc;
use vstd::prelude::*;
use vstd::string::StringExecFns;

verus! {

/// The kinds of floats that carry a number.
#[derive(Debug, PartialEq, Eq, Clone, Copy, Structural)]
pub enum LabelledFloatKind {
    Figure,
    Table,
    Listing,
    Algorithm,
}

impl LabelledFloatKind {
    /// The word for the kind.
    pub open spec fn name(self) -> Seq<char> {
        match self {
            LabelledFloatKind::Figure => "Figure"@,
            LabelledFloatKind::Table => "Table"@,
            LabelledFloatKind::Listing => "Listing"@,
            LabelledFloatKind::Algorithm => "Algorithm"@,
        }
    }

    /// The kind of float that an environment of the given name makes.
    pub open spec fn of_environment(name: Seq<char>) -> Option<LabelledFloatKind> {
        if name == "figure"@ || name == "subfigure"@ {
            Some(LabelledFloatKind::Figure)
        } else if name == "table"@ || name == "subtable"@ {
            Some(LabelledFloatKind::Table)
        } else if name == "listing"@ || name == "lstlisting"@ {
            Some(LabelledFloatKind::Listing)
        } else if name == "algorithm"@ {
            Some(LabelledFloatKind::Algorithm)
        } else {
            None
        }
    }

    /// The word for the kind.
    pub fn as_str(self) -> (r: &'static str)
        ensures
            r@ == self.name(),
    {
        match self {
            LabelledFloatKind::Figure => "Figure",
            LabelledFloatKind::Table => "Table",
            LabelledFloatKind::Listing => "Listing",
            LabelledFloatKind::Algorithm => "Algorithm",
        }
    }

    /// The kind of float that an environment of the given name makes.
    pub fn from_str(s: &str) -> (r: Result<LabelledFloatKind, ()>)
        ensures
            r == (match LabelledFloatKind::of_environment(s@) {
                Some(kind) => Ok::<LabelledFloatKind, ()>(kind),
                None => Err::<LabelledFloatKind, ()>(()),
            }),
    {
        if str_eq(s, "figure") || str_eq(s, "subfigure") {
            Ok(LabelledFloatKind::Figure)
        } else if str_eq(s, "table") || str_eq(s, "subtable") {
            Ok(LabelledFloatKind::Table)
        } else if str_eq(s, "listing") || str_eq(s, "lstlisting") {
            Ok(LabelledFloatKind::Listing)
        } else if str_eq(s, "algorithm") {
            Ok(LabelledFloatKind::Algorithm)
        } else {
            Err(())
        }
    }
}

/// What a label stands on.
#[derive(Debug, PartialEq, Eq, Clone)]
pub enum LabelledObject {
    Section { prefix: &'static str, text: String },
    Float { kind: LabelledFloatKind, caption: String },
    Theorem { kind: String, description: Option<String> },
    Equation,
    EnumItem,
}

/// What a [`LabelledObject`] holds.
pub ghost enum LabelledObjectView {
    Section { prefix: Seq<char>, text: Seq<char> },
    Float { kind: LabelledFloatKind, caption: Seq<char> },
    Theorem { kind: Seq<char>, description: Option<Seq<char>> },
    Equation,
    EnumItem,
}

impl View for LabelledObject {
    type V = LabelledObjectView;

    open spec fn view(&self) -> LabelledObjectView {
        match self {
            LabelledObject::Section { prefix, text } => LabelledObjectView::Section {
                prefix: prefix@,
                text: text@,
            },
            LabelledObject::Float { kind, caption } => LabelledObjectView::Float {
                kind: *kind,
                caption: caption@,
            },
            LabelledObject::Theorem { kind, description } => LabelledObjectView::Theorem {
                kind: kind@,
                description: opt_text(*description),
            },
            LabelledObject::Equation => LabelledObjectView::Equation,
            LabelledObject::EnumItem => LabelledObjectView::EnumItem,
        }
    }
}

/// A label's object, with its number and the range it covers.
#[derive(Debug, PartialEq, Eq, Clone)]
pub struct RenderedLabel {
    pub range: TextRange,
    pub number: Option<String>,
    pub object: LabelledObject,
}

/// What a [`RenderedLabel`] holds.
pub ghost struct RenderedLabelView {
    pub range: TextRange,
    pub number: Option<Seq<char>>,
    pub object: LabelledObjectView,
}

impl View for RenderedLabel {
    type V = RenderedLabelView;

    open spec fn view(&self) -> RenderedLabelView {
        RenderedLabelView { range: self.range, number: opt_text(self.number), object: self.object@ }
    }
}

/// What an optional rendered label holds.
pub open spec fn rendered_view(r: Option<RenderedLabel>) -> Option<RenderedLabelView> {
    match r {
        Some(label) => Some(label@),
        None => None,
    }
}

impl RenderedLabelView {
    /// How to refer to the object: `Section 1 (Title)`, `Figure 2: Caption`,
    /// `Lemma 3 (Name)`, `Equation (4)`, `Item 5`; without the number where
    /// there is none.
    pub open spec fn reference(self) -> Seq<char> {
        match self.number {
            Some(number) => match self.object {
                LabelledObjectView::Section { prefix, text } => prefix + " "@ + number + " ("@
                    + text + ")"@,
                LabelledObjectView::Float { kind, caption } => kind.name() + " "@ + number + ": "@
                    + caption,
                LabelledObjectView::Theorem { kind, description: None } => kind + " "@ + number,
                LabelledObjectView::Theorem { kind, description: Some(description) } => kind
                    + " "@ + number + " ("@ + description + ")"@,
                LabelledObjectView::Equation => "Equation ("@ + number + ")"@,
                LabelledObjectView::EnumItem => "Item "@ + number,
            },
            None => match self.object {
                LabelledObjectView::Section { prefix, text } => prefix + " ("@ + text + ")"@,
                LabelledObjectView::Float { kind, caption } => kind.name() + ": "@ + caption,
                LabelledObjectView::Theorem { kind, description: None } => kind,
                LabelledObjectView::Theorem { kind, description: Some(description) } => kind
                    + " ("@ + description + ")"@,
                LabelledObjectView::Equation => "Equation"@,
                LabelledObjectView::EnumItem => "Item"@,
            },
        }
    }

    /// The short form: for a float its kind and number, for anything else
    /// the reference.
    pub open spec fn detail(self) -> Seq<char> {
        match self.object {
            LabelledObjectView::Float { kind, caption } => match self.number {
                Some(number) => kind.name() + " "@ + number,
                None => kind.name(),
            },
            _ => self.reference(),
        }
    }
}

impl RenderedLabel {
    /// How to refer to the object.
    pub fn reference(&self) -> (r: String)
        ensures
            r@ == self@.reference(),
    {
        let mut out = String::new();
        match &self.number {
            Some(number) => match &self.object {
                LabelledObject::Section { prefix, text } => {
                    out.append(prefix);
                    out.append(" ");
                    out.append(number.as_str());
                    out.append(" (");
                    out.append(text.as_str());
                    out.append(")");
                },
                LabelledObject::Float { kind, caption } => {
                    out.append(kind.as_str());
                    out.append(" ");
                    out.append(number.as_str());
                    out.append(": ");
                    out.append(caption.as_str());
                },
                LabelledObject::Theorem { kind, description: None } => {
                    out.append(kind.as_str());
                    out.append(" ");
                    out.append(number.as_str());
                },
                LabelledObject::Theorem { kind, description: Some(description) } => {
                    out.append(kind.as_str());
                    out.append(" ");
                    out.append(number.as_str());
                    out.append(" (");
                    out.append(description.as_str());
                    out.append(")");
                },
                LabelledObject::Equation => {
                    out.append("Equation (");
                    out.append(number.as_str());
                    out.append(")");
                },
                LabelledObject::EnumItem => {
                    out.append("Item ");
                    out.append(number.as_str());
                },
            },
            None => match &self.object {
                LabelledObject::Section { prefix, text } => {
                    out.append(prefix);
                    out.append(" (");
                    out.append(text.as_str());
                    out.append(")");
                },
                LabelledObject::Float { kind, caption } => {
                    out.append(kind.as_str());
                    out.append(": ");
                    out.append(caption.as_str());
                },
                LabelledObject::Theorem { kind, description: None } => {
                    out.append(kind.as_str());
                },
                LabelledObject::Theorem { kind, description: Some(description) } => {
                    out.append(kind.as_str());
                    out.append(" (");
                    out.append(description.as_str());
                    out.append(")");
                },
                LabelledObject::Equation => {
                    out.append("Equation");
                },
                LabelledObject::EnumItem => {
                    out.append("Item");
                },
            },
        }
        proof {
            assert(Seq::<char>::empty() + self@.reference() =~= self@.reference());
        }
        out
    }

    /// The short form of the reference.
    pub fn detail(&self) -> (r: Option<String>)
        ensures
            opt_text(r) == Some(self@.detail()),
    {
        match &self.object {
            LabelledObject::Float { kind, .. } => {
                let mut out = String::from_str(kind.as_str());
                match &self.number {
                    Some(number) => {
                        out.append(" ");
                        out.append(number.as_str());
                    },
                    None => {},
                }
                Some(out)
            },
            _ => Some(self.reference()),
        }
    }

    /// The reference, as plain text for the editor.
    pub fn documentation(&self) -> (r: MarkupContent)
        ensures
            r.kind == MarkupKind::PlainText,
            r.value@ == self@.reference(),
    {
        MarkupContent { kind: MarkupKind::PlainText, value: self.reference() }
    }
}

/// The word in the first group of the given kind that `node` holds.
pub open spec fn group_word(tree: &latex::Tree, node: int, group: SyntaxKind) -> Option<int> {
    tree.first_child_opt(tree.first_child(node, group), SyntaxKind::WORD)
}

/// The word in the first group of the given kind that `node` holds.
pub fn word_in_group(tree: &latex::Tree, node: usize, group: SyntaxKind) -> (r: Option<usize>)
    requires
        node < tree.size(),
    ensures
        as_index(r) == group_word(tree, node as int, group),
        r matches Some(w) ==> w < tree.size(),
{
    let g = tree.child(node, group);
    tree.child_opt(g, SyntaxKind::WORD)
}

/// Whether node `i` defines the label `name`.
pub open spec fn is_definition_of(tree: &latex::Tree, i: int, name: Seq<char>) -> bool {
    tree.kind_of(i) == SyntaxKind::LABEL_DEFINITION && (group_word(
        tree,
        i,
        SyntaxKind::CURLY_GROUP_WORD,
    ) matches Some(w) && tree.token_text(w) == name)
}

/// The first node from `j` on that defines the label `name`.
pub open spec fn definition_from(tree: &latex::Tree, j: int, name: Seq<char>) -> Option<int>
    decreases tree.size() - j,
{
    if j < 0 || j >= tree.size() {
        None
    } else if is_definition_of(tree, j, name) {
        Some(j)
    } else {
        definition_from(tree, j + 1, name)
    }
}

/// The definition of a label in a document: the first node, in document
/// order, that defines it.
pub fn find_label_definition(tree: &latex::Tree, label_name: &str) -> (r: Option<usize>)
    ensures
        as_index(r) == definition_from(tree, 0, label_name@),
        r matches Some(i) ==> i < tree.size(),
{
    let n = tree.len();
    let mut j: usize = 0;
    while j < n
        invariant
            j <= n == tree.size(),
            definition_from(tree, j as int, label_name@) == definition_from(tree, 0, label_name@),
        decreases n - j,
    {
        if tree.kind(j) == SyntaxKind::LABEL_DEFINITION {
            match word_in_group(tree, j, SyntaxKind::CURLY_GROUP_WORD) {
                Some(w) => {
                    let text = tree.own_text(w);
                    if str_eq(text.as_str(), label_name) {
                        return Some(j);
                    }
                },
                None => {},
            }
        }
        j += 1;
    }
    None
}

/// The number noted for a label among the first `k` entries; of two entries
/// for one label the later counts.
pub open spec fn number_among(entries: Seq<(String, String)>, k: int, name: Seq<char>) -> Option<
    Seq<char>,
>
    decreases k,
{
    if k <= 0 || k > entries.len() {
        None
    } else if entries[k - 1].0@ == name {
        Some(entries[k - 1].1@)
    } else {
        number_among(entries, k - 1, name)
    }
}

/// The number noted for a label in a document.
pub open spec fn number_in(doc: Document, name: Seq<char>) -> Option<Seq<char>> {
    match doc.data {
        DocumentData::Latex(data) => number_among(
            data.extras.label_numbers_by_name@,
            data.extras.label_numbers_by_name@.len() as int,
            name,
        ),
        _ => None,
    }
}

/// The number noted for a label in the first document from `k` on that has
/// one.
pub open spec fn number_from(docs: Seq<Arc<Document>>, k: int, name: Seq<char>) -> Option<
    Seq<char>,
>
    decreases docs.len() - k,
{
    if k < 0 || k >= docs.len() {
        None
    } else {
        match number_in(*docs[k], name) {
            Some(n) => Some(n),
            None => number_from(docs, k + 1, name),
        }
    }
}

/// The number noted for a label in a document.
#[verifier::loop_isolation(false)]
fn number_of(extras: &LatexExtras, label_name: &str) -> (r: Option<String>)
    ensures
        opt_text(r) == number_among(
            extras.label_numbers_by_name@,
            extras.label_numbers_by_name@.len() as int,
            label_name@,
        ),
{
    let entries = &extras.label_numbers_by_name;
    let mut k: usize = entries.len();
    while k > 0
        invariant
            k <= entries.len(),
            number_among(entries@, k as int, label_name@) == number_among(
                entries@,
                entries@.len() as int,
                label_name@,
            ),
        decreases k,
    {
        if str_eq(entries[k - 1].0.as_str(), label_name) {
            return Some(entries[k - 1].1.clone());
        }
        k -= 1;
    }
    None
}

/// The number of a label: that of the first document of the subset that
/// notes one.
pub fn find_label_number(subset: &WorkspaceSubset, label_name: &str) -> (r: Option<String>)
    ensures
        opt_text(r) == number_from(subset.documents@, 0, label_name@),
{
    let mut k: usize = 0;
    while k < subset.documents.len()
        invariant
            k <= subset.documents.len(),
            number_from(subset.documents@, k as int, label_name@) == number_from(
                subset.documents@,
                0,
                label_name@,
            ),
        decreases subset.documents.len() - k,
    {
        match subset.documents[k].data.as_latex() {
            Some(data) => match number_of(&data.extras, label_name) {
                Some(number) => {
                    return Some(number);
                },
                None => {},
            },
            None => {},
        }
        k += 1;
    }
    None
}

/// The group of the first caption, among those that `parent` holds from `j`
/// on, that has a group.
pub open spec fn caption_group_from(tree: &latex::Tree, parent: int, j: int) -> Option<int>
    decreases tree.size() - j,
{
    match tree.child_from(parent, j, SyntaxKind::CAPTION) {
        Some(c) => if j <= c < tree.size() {
            match tree.first_child(c, SyntaxKind::CURLY_GROUP) {
                Some(g) => Some(g),
                None => caption_group_from(tree, parent, c + 1),
            }
        } else {
            None
        },
        None => None,
    }
}

/// The caption that `parent` holds: the text of the group of its first
/// caption that has one.
pub open spec fn caption_of(tree: &latex::Tree, parent: int) -> Option<Seq<char>> {
    match caption_group_from(tree, parent, parent + 1) {
        Some(g) => latex::content_text_of(tree, g),
        None => None,
    }
}

/// The caption that `parent` holds.
pub fn find_caption_by_parent(tree: &latex::Tree, parent: usize) -> (r: Option<String>)
    requires
        parent < tree.size(),
    ensures
        opt_text(r) == caption_of(tree, parent as int),
{
    let n = tree.len();
    let mut from: usize = parent + 1;
    loop
        invariant
            parent < from <= n == tree.size(),
            caption_group_from(tree, parent as int, from as int) == caption_group_from(
                tree,
                parent as int,
                parent + 1,
            ),
        decreases n + 1 - from,
    {
        match tree.next_child(parent, from, SyntaxKind::CAPTION) {
            Some(c) => {
                match tree.child(c, SyntaxKind::CURLY_GROUP) {
                    Some(g) => {
                        return latex::content_text(tree, g);
                    },
                    None => {},
                }
                from = c + 1;
            },
            None => {
                return None;
            },
        }
    }
}

/// The word for a sectioning command.
pub open spec fn section_prefix(kind: SyntaxKind) -> Option<Seq<char>> {
    match kind {
        SyntaxKind::PART => Some("Part"@),
        SyntaxKind::CHAPTER => Some("Chapter"@),
        SyntaxKind::SECTION => Some("Section"@),
        SyntaxKind::SUBSECTION => Some("Subsection"@),
        SyntaxKind::SUBSUBSECTION => Some("Subsubsection"@),
        SyntaxKind::PARAGRAPH => Some("Paragraph"@),
        SyntaxKind::SUBPARAGRAPH => Some("Subparagraph"@),
        _ => None,
    }
}

/// The word for a sectioning command.
fn prefix_of(kind: SyntaxKind) -> (r: Option<&'static str>)
    ensures
        (match r {
            Some(p) => Some(p@),
            None => None,
        }) == section_prefix(kind),
{
    match kind {
        SyntaxKind::PART => Some("Part"),
        SyntaxKind::CHAPTER => Some("Chapter"),
        SyntaxKind::SECTION => Some("Section"),
        SyntaxKind::SUBSECTION => Some("Subsection"),
        SyntaxKind::SUBSUBSECTION => Some("Subsubsection"),
        SyntaxKind::PARAGRAPH => Some("Paragraph"),
        SyntaxKind::SUBPARAGRAPH => Some("Subparagraph"),
        _ => None,
    }
}

/// The label on a float: `node` is an environment that makes a float and
/// holds a caption.
pub open spec fn float_at(tree: &latex::Tree, node: int, number: Option<Seq<char>>) -> Option<
    RenderedLabelView,
> {
    if tree.kind_of(node) != SyntaxKind::ENVIRONMENT {
        None
    } else {
        match latex::environment_name_word(tree, node) {
            Some(w) => match LabelledFloatKind::of_environment(tree.token_text(w)) {
                Some(kind) => match caption_of(tree, node) {
                    Some(caption) => Some(
                        RenderedLabelView {
                            range: latex::small_range_of(tree, node),
                            number,
                            object: LabelledObjectView::Float { kind, caption },
                        },
                    ),
                    None => None,
                },
                None => None,
            },
            None => None,
        }
    }
}

/// The label on a section: `node` is a sectioning command with a title.
pub open spec fn section_at(tree: &latex::Tree, node: int, number: Option<Seq<char>>) -> Option<
    RenderedLabelView,
> {
    match section_prefix(tree.kind_of(node)) {
        Some(prefix) => match tree.first_child(node, SyntaxKind::CURLY_GROUP) {
            Some(g) => match latex::content_text_of(tree, g) {
                Some(text) => Some(
                    RenderedLabelView {
                        range: latex::small_range_of(tree, node),
                        number,
                        object: LabelledObjectView::Section { prefix, text },
                    },
                ),
                None => None,
            },
            None => None,
        },
        None => None,
    }
}

/// The label on an item of a list: the item's own label counts as its
/// number, where it has one.
pub open spec fn enum_item_at(tree: &latex::Tree, node: int, number: Option<Seq<char>>) -> Option<
    RenderedLabelView,
> {
    if tree.kind_of(node) != SyntaxKind::ENUM_ITEM {
        None
    } else {
        Some(
            RenderedLabelView {
                range: latex::small_range_of(tree, node),
                number: match group_word(tree, node, SyntaxKind::BRACK_GROUP_WORD) {
                    Some(w) => Some(tree.token_text(w)),
                    None => number,
                },
                object: LabelledObjectView::EnumItem,
            },
        )
    }
}

/// The label on an equation: `node` is an environment that holds
/// mathematics.
pub open spec fn equation_at(
    language: &LanguageData,
    tree: &latex::Tree,
    node: int,
    number: Option<Seq<char>>,
) -> Option<RenderedLabelView> {
    if tree.kind_of(node) != SyntaxKind::ENVIRONMENT {
        None
    } else {
        match latex::environment_name_word(tree, node) {
            Some(w) => if language.holds_math(tree.token_text(w)) {
                Some(
                    RenderedLabelView {
                        range: latex::small_range_of(tree, node),
                        number,
                        object: LabelledObjectView::Equation,
                    },
                )
            } else {
                None
            },
            None => None,
        }
    }
}

/// The first theorem environment from `k` on with the given name.
pub open spec fn theorem_among(list: Seq<TheoremEnvironment>, k: int, name: Seq<char>) -> Option<
    Seq<char>,
>
    decreases list.len() - k,
{
    if k < 0 || k >= list.len() {
        None
    } else if list[k].name@ == name {
        Some(list[k].description@)
    } else {
        theorem_among(list, k + 1, name)
    }
}

/// What the theorem environment of the given name is called, by the first
/// document from `k` on that defines one.
pub open spec fn theorem_from(docs: Seq<Arc<Document>>, k: int, name: Seq<char>) -> Option<
    Seq<char>,
>
    decreases docs.len() - k,
{
    if k < 0 || k >= docs.len() {
        None
    } else {
        let here = match docs[k].data {
            DocumentData::Latex(data) => theorem_among(data.extras.theorem_environments@, 0, name),
            _ => None,
        };
        match here {
            Some(d) => Some(d),
            None => theorem_from(docs, k + 1, name),
        }
    }
}

/// The text in the options of an environment's `\begin`.
pub open spec fn options_text(tree: &latex::Tree, begin: int) -> Option<Seq<char>> {
    match tree.first_child_opt(
        tree.first_child(begin, SyntaxKind::BRACK_GROUP_KEY_VALUE),
        SyntaxKind::KEY_VALUE_BODY,
    ) {
        Some(body) => Some(tree.text_of(body)),
        None => None,
    }
}

/// The label on a theorem: `node` is an environment that a document of the
/// subset defines as a theorem.
pub open spec fn theorem_at(
    docs: Seq<Arc<Document>>,
    tree: &latex::Tree,
    node: int,
    number: Option<Seq<char>>,
) -> Option<RenderedLabelView> {
    if tree.kind_of(node) != SyntaxKind::ENVIRONMENT {
        None
    } else {
        match tree.first_child(node, SyntaxKind::BEGIN) {
            Some(begin) => match group_word(tree, begin, SyntaxKind::CURLY_GROUP_WORD) {
                Some(w) => match theorem_from(docs, 0, tree.token_text(w)) {
                    Some(kind) => Some(
                        RenderedLabelView {
                            range: latex::small_range_of(tree, node),
                            number,
                            object: LabelledObjectView::Theorem {
                                kind,
                                description: options_text(tree, begin),
                            },
                        },
                    ),
                    None => None,
                },
                None => None,
            },
            None => None,
        }
    }
}

/// What node `node` makes of a label on it: a float, else a section, else an
/// item, else an equation, else a theorem.
pub open spec fn rendered_at(
    docs: Seq<Arc<Document>>,
    language: &LanguageData,
    tree: &latex::Tree,
    node: int,
    number: Option<Seq<char>>,
) -> Option<RenderedLabelView> {
    if float_at(tree, node, number) is Some {
        float_at(tree, node, number)
    } else if section_at(tree, node, number) is Some {
        section_at(tree, node, number)
    } else if enum_item_at(tree, node, number) is Some {
        enum_item_at(tree, node, number)
    } else if equation_at(language, tree, node, number) is Some {
        equation_at(language, tree, node, number)
    } else {
        theorem_at(docs, tree, node, number)
    }
}

/// What the nearest node, from `cur` upwards, makes of a label.
pub open spec fn rendered_above(
    docs: Seq<Arc<Document>>,
    language: &LanguageData,
    tree: &latex::Tree,
    cur: int,
    number: Option<Seq<char>>,
) -> Option<RenderedLabelView>
    decreases cur + 1,
{
    if cur < 0 || cur >= tree.size() {
        None
    } else {
        match rendered_at(docs, language, tree, cur, number) {
            Some(r) => Some(r),
            None => match tree.parent_of(cur) {
                Some(p) => if 0 <= p < cur {
                    rendered_above(docs, language, tree, p, number)
                } else {
                    None
                },
                None => None,
            },
        }
    }
}

/// The label on a float, where `parent` is one.
fn render_label_float(tree: &latex::Tree, parent: usize, number: &Option<String>) -> (r: Option<
    RenderedLabel,
>)
    requires
        parent < tree.size(),
    ensures
        rendered_view(r) == float_at(tree, parent as int, opt_text(*number)),
{
    if tree.kind(parent) != SyntaxKind::ENVIRONMENT {
        return None;
    }
    let word = match latex::environment_word(tree, parent) {
        Some(w) => w,
        None => {
            return None;
        },
    };
    let name = tree.own_text(word);
    let kind = match LabelledFloatKind::from_str(name.as_str()) {
        Ok(kind) => kind,
        Err(_) => {
            return None;
        },
    };
    let caption = match find_caption_by_parent(tree, parent) {
        Some(c) => c,
        None => {
            return None;
        },
    };
    Some(
        RenderedLabel {
            range: latex::small_range(tree, parent),
            number: crate::document::opt_str_clone(number),
            object: LabelledObject::Float { caption, kind },
        },
    )
}

/// The label on a section, where `parent` is one.
fn render_label_section(tree: &latex::Tree, parent: usize, number: &Option<String>) -> (r: Option<
    RenderedLabel,
>)
    requires
        parent < tree.size(),
    ensures
        rendered_view(r) == section_at(tree, parent as int, opt_text(*number)),
{
    let prefix = match prefix_of(tree.kind(parent)) {
        Some(p) => p,
        None => {
            return None;
        },
    };
    let group = match tree.child(parent, SyntaxKind::CURLY_GROUP) {
        Some(g) => g,
        None => {
            return None;
        },
    };
    let text = match latex::content_text(tree, group) {
        Some(t) => t,
        None => {
            return None;
        },
    };
    Some(
        RenderedLabel {
            range: latex::small_range(tree, parent),
            number: crate::document::opt_str_clone(number),
            object: LabelledObject::Section { prefix, text },
        },
    )
}

/// The label on an item of a list, where `parent` is one.
fn render_label_enum_item(tree: &latex::Tree, parent: usize, number: &Option<String>) -> (r:
    Option<RenderedLabel>)
    requires
        parent < tree.size(),
    ensures
        rendered_view(r) == enum_item_at(tree, parent as int, opt_text(*number)),
{
    if tree.kind(parent) != SyntaxKind::ENUM_ITEM {
        return None;
    }
    let own = match word_in_group(tree, parent, SyntaxKind::BRACK_GROUP_WORD) {
        Some(w) => Some(tree.own_text(w)),
        None => crate::document::opt_str_clone(number),
    };
    Some(
        RenderedLabel {
            range: latex::small_range(tree, parent),
            number: own,
            object: LabelledObject::EnumItem,
        },
    )
}

/// The label on an equation, where `parent` is one.
fn render_label_equation(
    language: &LanguageData,
    tree: &latex::Tree,
    parent: usize,
    number: &Option<String>,
) -> (r: Option<RenderedLabel>)
    requires
        parent < tree.size(),
    ensures
        rendered_view(r) == equation_at(language, tree, parent as int, opt_text(*number)),
{
    if tree.kind(parent) != SyntaxKind::ENVIRONMENT {
        return None;
    }
    let word = match latex::environment_word(tree, parent) {
        Some(w) => w,
        None => {
            return None;
        },
    };
    let name = tree.own_text(word);
    if !language.is_math_environment(name.as_str()) {
        return None;
    }
    Some(
        RenderedLabel {
            range: latex::small_range(tree, parent),
            number: crate::document::opt_str_clone(number),
            object: LabelledObject::Equation,
        },
    )
}

/// What the theorem environment of the given name is called.
#[verifier::loop_isolation(false)]
fn find_theorem(subset: &WorkspaceSubset, name: &str) -> (r: Option<String>)
    ensures
        opt_text(r) == theorem_from(subset.documents@, 0, name@),
{
    let mut k: usize = 0;
    while k < subset.documents.len()
        invariant
            k <= subset.documents.len(),
            theorem_from(subset.documents@, k as int, name@) == theorem_from(
                subset.documents@,
                0,
                name@,
            ),
        decreases subset.documents.len() - k,
    {
        match subset.documents[k].data.as_latex() {
            Some(data) => {
                let list = &data.extras.theorem_environments;
                let mut t: usize = 0;
                while t < list.len()
                    invariant
                        t <= list.len(),
                        theorem_among(list@, t as int, name@) == theorem_among(list@, 0, name@),
                    decreases list.len() - t,
                {
                    if str_eq(list[t].name.as_str(), name) {
                        return Some(list[t].description.clone());
                    }
                    t += 1;
                }
            },
            None => {},
        }
        k += 1;
    }
    None
}

/// The label on a theorem, where `parent` is one.
fn render_label_theorem(
    subset: &WorkspaceSubset,
    tree: &latex::Tree,
    parent: usize,
    number: &Option<String>,
) -> (r: Option<RenderedLabel>)
    requires
        parent < tree.size(),
    ensures
        rendered_view(r) == theorem_at(
            subset.documents@,
            tree,
            parent as int,
            opt_text(*number),
        ),
{
    if tree.kind(parent) != SyntaxKind::ENVIRONMENT {
        return None;
    }
    let begin = match tree.child(parent, SyntaxKind::BEGIN) {
        Some(b) => b,
        None => {
            return None;
        },
    };
    let options = tree.child(begin, SyntaxKind::BRACK_GROUP_KEY_VALUE);
    let description = match tree.child_opt(options, SyntaxKind::KEY_VALUE_BODY) {
        Some(body) => Some(tree.text(body)),
        None => None,
    };
    let word = match word_in_group(tree, begin, SyntaxKind::CURLY_GROUP_WORD) {
        Some(w) => w,
        None => {
            return None;
        },
    };
    let name = tree.own_text(word);
    let kind = match find_theorem(subset, name.as_str()) {
        Some(k) => k,
        None => {
            return None;
        },
    };
    Some(
        RenderedLabel {
            range: latex::small_range(tree, parent),
            number: crate::document::opt_str_clone(number),
            object: LabelledObject::Theorem { kind, description },
        },
    )
}

/// The definition of a label in the first LaTeX document from `k` on that
/// has one: the document's place in the subset, and the node.
pub open spec fn definition_in(docs: Seq<Arc<Document>>, k: int, name: Seq<char>) -> Option<
    (int, int),
>
    decreases docs.len() - k,
{
    if k < 0 || k >= docs.len() {
        None
    } else {
        let here = match docs[k].data {
            DocumentData::Latex(data) => definition_from(&data.root, 0, name),
            _ => None,
        };
        match here {
            Some(node) => Some((k, node)),
            None => definition_in(docs, k + 1, name),
        }
    }
}

/// Whether `label` names a node of a LaTeX document of the subset.
pub open spec fn is_label_place(docs: Seq<Arc<Document>>, label: Option<(int, int)>) -> bool {
    match label {
        Some((d, node)) => 0 <= d < docs.len() && (docs[d].data matches DocumentData::Latex(data)
            && 0 <= node < data.root.size()),
        None => true,
    }
}

/// A place in the subset, as numbers.
pub open spec fn place_view(label: Option<(usize, usize)>) -> Option<(int, int)> {
    match label {
        Some((d, node)) => Some((d as int, node as int)),
        None => None,
    }
}

/// What a label stands on, with its number: what the nearest node around
/// the label's definition makes of it. `label` is the definition where it
/// is known, else the first in the subset counts.
pub open spec fn rendered_label(
    docs: Seq<Arc<Document>>,
    language: &LanguageData,
    name: Seq<char>,
    label: Option<(int, int)>,
) -> Option<RenderedLabelView> {
    let place = match label {
        Some(p) => Some(p),
        None => definition_in(docs, 0, name),
    };
    match place {
        Some((d, node)) => match docs[d].data {
            DocumentData::Latex(data) => rendered_above(
                docs,
                language,
                &data.root,
                node,
                number_from(docs, 0, name),
            ),
            _ => None,
        },
        None => None,
    }
}

/// The definition of a label in the subset.
fn find_definition(subset: &WorkspaceSubset, label_name: &str) -> (r: Option<(usize, usize)>)
    ensures
        place_view(r) == definition_in(subset.documents@, 0, label_name@),
        is_label_place(subset.documents@, place_view(r)),
{
    let mut k: usize = 0;
    while k < subset.documents.len()
        invariant
            k <= subset.documents.len(),
            definition_in(subset.documents@, k as int, label_name@) == definition_in(
                subset.documents@,
                0,
                label_name@,
            ),
        decreases subset.documents.len() - k,
    {
        match subset.documents[k].data.as_latex() {
            Some(data) => match find_label_definition(&data.root, label_name) {
                Some(node) => {
                    return Some((k, node));
                },
                None => {},
            },
            None => {},
        }
        k += 1;
    }
    None
}

/// What a label stands on, with its number.
pub fn render_label(
    subset: &WorkspaceSubset,
    language: &LanguageData,
    label_name: &str,
    label: Option<(usize, usize)>,
) -> (r: Option<RenderedLabel>)
    requires
        is_label_place(subset.documents@, place_view(label)),
    ensures
        rendered_view(r) == rendered_label(
            subset.documents@,
            language,
            label_name@,
            place_view(label),
        ),
{
    let number = find_label_number(subset, label_name);
    let place = match label {
        Some(p) => Some(p),
        None => find_definition(subset, label_name),
    };
    let (d, node) = match place {
        Some(p) => p,
        None => {
            return None;
        },
    };
    let tree = match subset.documents[d].data.as_latex() {
        Some(data) => &data.root,
        None => {
            return None;
        },
    };
    let mut cur: usize = node;
    loop
        invariant
            cur < tree.size(),
            rendered_above(
                subset.documents@,
                language,
                tree,
                cur as int,
                opt_text(number),
            ) == rendered_label(subset.documents@, language, label_name@, place_view(label)),
        decreases cur,
    {
        match render_label_float(tree, cur, &number) {
            Some(r) => {
                return Some(r);
            },
            None => {},
        }
        match render_label_section(tree, cur, &number) {
            Some(r) => {
                return Some(r);
            },
            None => {},
        }
        match render_label_enum_item(tree, cur, &number) {
            Some(r) => {
                return Some(r);
            },
            None => {},
        }
        match render_label_equation(language, tree, cur, &number) {
            Some(r) => {
                return Some(r);
            },
            None => {},
        }
        match render_label_theorem(subset, tree, cur, &number) {
            Some(r) => {
                return Some(r);
            },
            None => {},
        }
        match tree.parent(cur) {
            Some(p) => {
                cur = p;
            },
            None => {
                return None;
            },
        }
    }
}

} // verus!
