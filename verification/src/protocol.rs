//! The values that go to the editor, as plain data.

use crate::line_index::Range;
use vstd::prelude::*;

verus! {

/// How a text is to be read.
#[derive(Debug, PartialEq, Eq, Clone, Copy, Structural)]
pub enum MarkupKind {
    PlainText,
    Markdown,
}

/// A text for the editor to show.
#[derive(Debug, PartialEq, Eq, Clone)]
pub struct MarkupContent {
    pub kind: MarkupKind,
    pub value: String,
}

/// What the editor shows for a position.
#[derive(Debug, PartialEq, Eq, Clone)]
pub struct Hover {
    pub contents: MarkupContent,
    pub range: Option<Range>,
}

/// A change to a document: the text at `range` becomes `new_text`.
#[derive(Debug, PartialEq, Eq, Clone)]
pub struct TextEdit {
    pub range: Range,
    pub new_text: String,
}

impl TextEdit {
    /// The change of `range` to `new_text`.
    pub fn new(range: Range, new_text: String) -> (r: TextEdit)
        ensures
            r.range == range,
            r.new_text == new_text,
    {
        TextEdit { range, new_text }
    }
}

/// What a [`TextEdit`] holds.
pub ghost struct TextEditView {
    pub range: Range,
    pub new_text: Seq<char>,
}

impl View for TextEdit {
    type V = TextEditView;

    open spec fn view(&self) -> TextEditView {
        TextEditView { range: self.range, new_text: self.new_text@ }
    }
}

/// How grave a diagnostic is.
#[derive(Debug, PartialEq, Eq, Clone, Copy, Structural)]
pub enum DiagnosticSeverity {
    Error,
    Warning,
    Information,
    Hint,
}

/// A remark on a stretch of a document.
#[derive(Debug, PartialEq, Eq, Clone)]
pub struct Diagnostic {
    pub range: Range,
    pub severity: DiagnosticSeverity,
    pub code: Option<i32>,
    pub source: String,
    pub message: String,
}

/// What a [`Diagnostic`] holds.
pub ghost struct DiagnosticView {
    pub range: Range,
    pub severity: DiagnosticSeverity,
    pub code: Option<i32>,
    pub source: Seq<char>,
    pub message: Seq<char>,
}

impl View for Diagnostic {
    type V = DiagnosticView;

    open spec fn view(&self) -> DiagnosticView {
        DiagnosticView {
            range: self.range,
            severity: self.severity,
            code: self.code,
            source: self.source@,
            message: self.message@,
        }
    }
}

impl Diagnostic {
    /// A copy of the diagnostic.
    pub fn duplicate(&self) -> (r: Diagnostic)
        ensures
            r@ == self@,
    {
        Diagnostic {
            range: self.range,
            severity: self.severity,
            code: self.code,
            source: self.source.clone(),
            message: self.message.clone(),
        }
    }
}

/// What each diagnostic of a list holds.
pub open spec fn diagnostic_views(list: Seq<Diagnostic>) -> Seq<DiagnosticView> {
    list.map_values(|d: Diagnostic| d@)
}

} // verus!
