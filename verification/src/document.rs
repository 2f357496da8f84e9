//! Documents: a text with its identity, its line index and what was read
//! from it.

use crate::bibtex;
use crate::latex;
use crate::line_index::LineIndex;
use crate::syntax::TextRange;
use crate::text::{opt_text, str_eq, to_uppercase, uppercased, utf8_len};
use std::sync::Arc;
use vstd::prelude::*;
use vstd::string::StringExecFns;

verus! {

/// `Arc::clone`: another handle on the same value.
#[verifier::external_body]
pub(crate) fn share<T>(a: &Arc<T>) -> (r: Arc<T>)
    ensures
        r == *a,
{
    Arc::clone(a)
}

/// The identity of a document: a normalized absolute resource identifier,
/// with the parts of it that the workspace looks at.
#[derive(Debug, PartialEq, Eq, Clone, Hash)]
pub struct Uri {
    /// The identifier as text.
    pub text: String,
    /// Its scheme, without the colon.
    pub scheme: String,
    /// Its fragment, without the hash sign.
    pub fragment: Option<String>,
    /// The path of the file it names, where it names a local file.
    pub file_path: Option<String>,
}

/// What a [`Uri`] holds.
pub ghost struct UriView {
    pub text: Seq<char>,
    pub scheme: Seq<char>,
    pub fragment: Option<Seq<char>>,
    pub file_path: Option<Seq<char>>,
}

impl View for Uri {
    type V = UriView;

    open spec fn view(&self) -> UriView {
        UriView {
            text: self.text@,
            scheme: self.scheme@,
            fragment: opt_text(self.fragment),
            file_path: opt_text(self.file_path),
        }
    }
}

/// Whether two optional strings hold the same.
pub fn opt_str_eq(a: &Option<String>, b: &Option<String>) -> (r: bool)
    ensures
        r == (opt_text(*a) == opt_text(*b)),
{
    match (a, b) {
        (Some(x), Some(y)) => str_eq(x.as_str(), y.as_str()),
        (None, None) => true,
        _ => false,
    }
}

/// A copy of an optional string.
pub fn opt_str_clone(a: &Option<String>) -> (r: Option<String>)
    ensures
        opt_text(r) == opt_text(*a),
{
    match a {
        Some(x) => Some(x.clone()),
        None => None,
    }
}

impl Uri {
    /// The identifier of the local file at an absolute path: `file://`
    /// followed by the path.
    pub fn file(path: &str) -> (uri: Uri)
        ensures
            uri@ == (UriView {
                text: "file://"@ + path@,
                scheme: "file"@,
                fragment: None,
                file_path: Some(path@),
            }),
    {
        let mut text = String::from_str("file://");
        text.append(path);
        Uri {
            text,
            scheme: String::from_str("file"),
            fragment: None,
            file_path: Some(String::from_str(path)),
        }
    }

    /// Whether two identifiers are the same.
    pub fn same(&self, other: &Uri) -> (r: bool)
        ensures
            r == (self@ == other@),
    {
        str_eq(self.text.as_str(), other.text.as_str()) && str_eq(
            self.scheme.as_str(),
            other.scheme.as_str(),
        ) && opt_str_eq(&self.fragment, &other.fragment) && opt_str_eq(
            &self.file_path,
            &other.file_path,
        )
    }

    /// A copy of the identifier.
    pub fn duplicate(&self) -> (r: Uri)
        ensures
            r@ == self@,
    {
        Uri {
            text: self.text.clone(),
            scheme: self.scheme.clone(),
            fragment: opt_str_clone(&self.fragment),
            file_path: opt_str_clone(&self.file_path),
        }
    }

    /// The path of the file that the identifier names, where its scheme is
    /// `file` and it names a local file.
    pub open spec fn local_path(self) -> Option<Seq<char>> {
        if self@.scheme == "file"@ {
            self@.file_path
        } else {
            None
        }
    }

    /// The path of the file that the identifier names.
    pub fn to_file_path(&self) -> (r: Option<String>)
        ensures
            opt_text(r) == self.local_path(),
    {
        if str_eq(self.scheme.as_str(), "file") {
            opt_str_clone(&self.file_path)
        } else {
            None
        }
    }
}

/// What a list of identifiers holds.
pub open spec fn uri_views(uris: Seq<Uri>) -> Seq<UriView> {
    uris.map_values(|u: Uri| u@)
}

/// The languages of documents.
#[derive(Debug, PartialEq, Eq, Clone, Copy, Hash, Structural)]
pub enum DocumentLanguage {
    Latex,
    Bibtex,
    BuildLog,
}

/// The language that a file extension (without the dot, in upper case)
/// stands for.
pub open spec fn language_of_extension(upper: Seq<char>) -> Option<DocumentLanguage> {
    if upper == "TEX"@ || upper == "STY"@ || upper == "CLS"@ || upper == "DEF"@ || upper == "LCO"@
        || upper == "AUX"@ || upper == "RNW"@ {
        Some(DocumentLanguage::Latex)
    } else if upper == "BIB"@ || upper == "BIBTEX"@ {
        Some(DocumentLanguage::Bibtex)
    } else if upper == "LOG"@ {
        Some(DocumentLanguage::BuildLog)
    } else {
        None
    }
}

/// The language that an editor's language identifier stands for.
pub open spec fn language_of_id(id: Seq<char>) -> Option<DocumentLanguage> {
    if id == "bibtex"@ {
        Some(DocumentLanguage::Bibtex)
    } else if id == "latex"@ || id == "tex"@ {
        Some(DocumentLanguage::Latex)
    } else {
        None
    }
}

impl DocumentLanguage {
    /// The language of a file with the given extension (without the dot),
    /// whatever its case.
    pub fn by_extension(extension: &str) -> (r: Option<DocumentLanguage>)
        ensures
            r == language_of_extension(uppercased(extension@)),
    {
        let upper = to_uppercase(extension);
        let e = upper.as_str();
        if str_eq(e, "TEX") || str_eq(e, "STY") || str_eq(e, "CLS") || str_eq(e, "DEF") || str_eq(
            e,
            "LCO",
        ) || str_eq(e, "AUX") || str_eq(e, "RNW") {
            Some(DocumentLanguage::Latex)
        } else if str_eq(e, "BIB") || str_eq(e, "BIBTEX") {
            Some(DocumentLanguage::Bibtex)
        } else if str_eq(e, "LOG") {
            Some(DocumentLanguage::BuildLog)
        } else {
            None
        }
    }

    /// The language that an editor's language identifier stands for.
    pub fn by_language_id(language_id: &str) -> (r: Option<DocumentLanguage>)
        ensures
            r == language_of_id(language_id@),
    {
        if str_eq(language_id, "bibtex") {
            Some(DocumentLanguage::Bibtex)
        } else if str_eq(language_id, "latex") || str_eq(language_id, "tex") {
            Some(DocumentLanguage::Latex)
        } else {
            None
        }
    }
}

/// Who brought a document into the workspace.
#[derive(Debug, PartialEq, Eq, Clone, Copy, Hash, Structural)]
pub enum WorkspaceSource {
    /// The editor opened it.
    Client,
    /// It was read from disk.
    Server,
}

/// What an inclusion names.
#[derive(Debug, PartialEq, Eq, Clone, Copy, Hash, Structural)]
pub enum ExplicitLinkKind {
    Package,
    Class,
    Latex,
    Bibtex,
}

/// An inclusion written in a document, with the places where what it names
/// may be found, the likeliest first.
#[derive(Debug, PartialEq, Eq, Clone)]
pub struct ExplicitLink {
    pub stem: String,
    pub stem_range: TextRange,
    pub targets: Vec<Uri>,
    pub kind: ExplicitLinkKind,
}

impl ExplicitLink {
    /// The file name of the package or class that the inclusion names.
    pub open spec fn component_name(self) -> Option<Seq<char>> {
        match self.kind {
            ExplicitLinkKind::Package => Some(self.stem@ + ".sty"@),
            ExplicitLinkKind::Class => Some(self.stem@ + ".cls"@),
            ExplicitLinkKind::Latex | ExplicitLinkKind::Bibtex => None,
        }
    }

    /// The file name of the package or class that the inclusion names.
    pub fn as_component_name(&self) -> (r: Option<String>)
        ensures
            opt_text(r) == self.component_name(),
    {
        match self.kind {
            ExplicitLinkKind::Package => {
                let mut name = self.stem.clone();
                name.append(".sty");
                Some(name)
            },
            ExplicitLinkKind::Class => {
                let mut name = self.stem.clone();
                name.append(".cls");
                Some(name)
            },
            ExplicitLinkKind::Latex | ExplicitLinkKind::Bibtex => None,
        }
    }
}

/// The files that belong to a document without being named in it.
#[derive(Debug, PartialEq, Eq, Clone)]
pub struct ImplicitLinks {
    pub aux: Vec<Uri>,
    pub log: Vec<Uri>,
    pub pdf: Vec<Uri>,
}

/// A theorem-like environment that a document defines.
#[derive(Debug, PartialEq, Eq, Clone)]
pub struct TheoremEnvironment {
    pub name: String,
    pub description: String,
}

/// What was gathered from a LaTeX document beyond its tree.
#[derive(Debug, PartialEq, Eq, Clone)]
pub struct LatexExtras {
    pub implicit_links: ImplicitLinks,
    pub explicit_links: Vec<ExplicitLink>,
    pub has_document_environment: bool,
    /// The number of each label, by the label's name; of two entries with
    /// one name the later counts. A list of pairs and no hash map: vstd has
    /// no key model for strings, so nothing could be proved of a lookup.
    pub label_numbers_by_name: Vec<(String, String)>,
    pub theorem_environments: Vec<TheoremEnvironment>,
}

impl LatexExtras {
    /// Extras with nothing in them.
    pub fn new() -> (r: LatexExtras)
        ensures
            r.explicit_links@.len() == 0,
            r.implicit_links.aux@.len() == 0,
            r.implicit_links.log@.len() == 0,
            r.implicit_links.pdf@.len() == 0,
            !r.has_document_environment,
            r.label_numbers_by_name@.len() == 0,
            r.theorem_environments@.len() == 0,
    {
        LatexExtras {
            implicit_links: ImplicitLinks { aux: Vec::new(), log: Vec::new(), pdf: Vec::new() },
            explicit_links: Vec::new(),
            has_document_environment: false,
            label_numbers_by_name: Vec::new(),
            theorem_environments: Vec::new(),
        }
    }
}

/// What was read from a LaTeX document.
#[derive(Debug, PartialEq, Eq, Clone)]
pub struct LatexDocumentData {
    pub root: latex::Tree,
    pub extras: LatexExtras,
}

/// What was read from a BibTeX document.
#[derive(Debug, PartialEq, Eq, Clone)]
pub struct BibtexDocumentData {
    pub root: bibtex::Tree,
}

/// What was read from a document.
#[derive(Debug, PartialEq, Eq, Clone)]
pub enum DocumentData {
    Latex(LatexDocumentData),
    Bibtex(BibtexDocumentData),
    BuildLog,
}

impl DocumentData {
    /// The LaTeX data, where the document is a LaTeX document.
    pub fn as_latex(&self) -> (r: Option<&LatexDocumentData>)
        ensures
            r == (match *self {
                DocumentData::Latex(data) => Some(&data),
                _ => None,
            }),
    {
        match self {
            DocumentData::Latex(data) => Some(data),
            _ => None,
        }
    }

    /// The BibTeX data, where the document is a BibTeX document.
    pub fn as_bibtex(&self) -> (r: Option<&BibtexDocumentData>)
        ensures
            r == (match *self {
                DocumentData::Bibtex(data) => Some(&data),
                _ => None,
            }),
    {
        match self {
            DocumentData::Bibtex(data) => Some(data),
            _ => None,
        }
    }

    /// The language of the document.
    pub open spec fn language_of(self) -> DocumentLanguage {
        match self {
            DocumentData::Latex(_) => DocumentLanguage::Latex,
            DocumentData::Bibtex(_) => DocumentLanguage::Bibtex,
            DocumentData::BuildLog => DocumentLanguage::BuildLog,
        }
    }

    /// The language of the document.
    pub fn language(&self) -> (r: DocumentLanguage)
        ensures
            r == self.language_of(),
    {
        match self {
            DocumentData::Latex(_) => DocumentLanguage::Latex,
            DocumentData::Bibtex(_) => DocumentLanguage::Bibtex,
            DocumentData::BuildLog => DocumentLanguage::BuildLog,
        }
    }
}

/// A snapshot of a document. It is never changed: an edit makes a new one.
pub struct Document {
    pub uri: Uri,
    pub text: String,
    pub line_index: LineIndex,
    pub data: DocumentData,
}

/// Whether what was read from a text agrees with it: the tree of a LaTeX
/// or BibTeX document is a tree, and covers the text, character for
/// character.
pub open spec fn agrees(text: Seq<char>, data: DocumentData) -> bool {
    match data {
        DocumentData::Latex(d) => d.root.well_formed() && d.root.text_of(0) == text,
        DocumentData::Bibtex(d) => d.root.well_formed() && d.root.text_of(0) == text,
        DocumentData::BuildLog => true,
    }
}

impl Document {
    /// Whether the line index is that of the text, and what was read from
    /// the text agrees with it.
    pub open spec fn well_formed(&self) -> bool {
        self.line_index.text() == self.text@ && agrees(self.text@, self.data)
    }

    /// The snapshot of a text and what was read from it, where the text is
    /// at most `u32::MAX` bytes long and what was read agrees with it.
    pub fn new(uri: Uri, text: String, data: DocumentData) -> (r: Option<Document>)
        ensures
            r is Some <==> utf8_len(text@) <= u32::MAX && agrees(text@, data),
            r matches Some(d) ==> d.uri == uri && d.text == text && d.data == data
                && d.well_formed(),
    {
        let agree = match &data {
            DocumentData::Latex(d) => d.root.check() && str_eq(
                d.root.text(0).as_str(),
                text.as_str(),
            ),
            DocumentData::Bibtex(d) => d.root.check() && str_eq(
                d.root.text(0).as_str(),
                text.as_str(),
            ),
            DocumentData::BuildLog => true,
        };
        if !agree {
            return None;
        }
        match LineIndex::new(text.as_str()) {
            Some(line_index) => Some(Document { uri, text, line_index, data }),
            None => None,
        }
    }

    /// The language of the document.
    pub fn language(&self) -> (r: DocumentLanguage)
        ensures
            r == self.data.language_of(),
    {
        self.data.language()
    }
}

} // verus!
