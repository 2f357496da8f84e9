//! What the editor can ask about a position in a document.

use crate::document::{Document, Uri};
use crate::line_index::Position;
use crate::workspace::WorkspaceSubset;
use vstd::prelude::*;

pub mod completion;
pub mod cursor;
pub mod hover;
pub mod rename;

verus! {

/// A request about a document, with the documents that belong to it as they
/// were when the request came in.
pub struct FeatureRequest<P> {
    pub params: P,
    /// The subset of the document; the document itself comes first.
    pub subset: WorkspaceSubset,
}

impl<P> FeatureRequest<P> {
    /// Whether the request names a document.
    pub open spec fn well_formed(&self) -> bool {
        self.subset.documents@.len() > 0
    }

    /// The document that the request is about.
    pub fn main_document(&self) -> (r: &Document)
        requires
            self.well_formed(),
        ensures
            *r == *self.subset.documents@[0],
    {
        &self.subset.documents[0]
    }
}

/// A position in a document.
pub struct TextDocumentPositionParams {
    pub text_document: Uri,
    pub position: Position,
}

/// What a request for completions carries.
pub struct CompletionParams {
    pub text_document_position: TextDocumentPositionParams,
}

/// What a request to rename carries.
pub struct RenameParams {
    pub text_document_position: TextDocumentPositionParams,
    pub new_name: String,
}

/// What a request for references carries.
pub struct ReferenceParams {
    pub text_document_position: TextDocumentPositionParams,
    pub include_declaration: bool,
}

/// What a request for a hover carries.
pub struct HoverParams {
    pub text_document_position_params: TextDocumentPositionParams,
}

/// What a request for a definition carries.
pub struct GotoDefinitionParams {
    pub text_document_position_params: TextDocumentPositionParams,
}

/// What a request for highlights carries.
pub struct DocumentHighlightParams {
    pub text_document_position_params: TextDocumentPositionParams,
}

} // verus!
