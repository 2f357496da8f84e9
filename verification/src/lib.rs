//! Core of a language server for LaTeX and BibTeX documents.

pub mod analysis;
pub mod bibtex;
pub mod cancel;
pub mod citation;
pub mod csl;
pub mod diagnostics;
pub mod document;
pub mod features;
pub mod label;
pub mod language;
pub mod latex;
pub mod line_index;
pub mod protocol;
pub mod req_queue;
pub mod ris;
pub mod server;
pub mod syntax;
pub mod text;
pub mod workspace;
