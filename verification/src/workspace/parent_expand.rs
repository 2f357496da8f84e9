//! The layer of a workspace that looks for the project a document belongs to.

use crate::document::{
    Document, DocumentData, DocumentLanguage, ExplicitLink, Uri, UriView, WorkspaceSource,
};
use crate::text::{str_eq, uppercased};
use crate::workspace::{closure, documents_at, position, Workspace, WorkspaceSubset};
use std::sync::Arc;
use vstd::prelude::*;

verus! {

/// Whether one of the first `k` inclusions names the class `subfiles`.
pub open spec fn names_subfiles(links: Seq<ExplicitLink>, k: int) -> bool {
    exists|i: int| 0 <= i < k && (#[trigger] links[i]).component_name() == Some("subfiles.cls"@)
}

/// Whether a document is the root of a project: a LaTeX document with a
/// document environment that does not use the class `subfiles`.
pub open spec fn is_project_root(doc: Document) -> bool {
    match doc.data {
        DocumentData::Latex(data) => data.extras.has_document_environment && !names_subfiles(
            data.extras.explicit_links@,
            data.extras.explicit_links@.len() as int,
        ),
        _ => false,
    }
}

/// Whether one of the first `k` documents is the root of a project.
pub open spec fn holds_project_root(docs: Seq<Arc<Document>>, k: int) -> bool {
    exists|i: int| 0 <= i < k && is_project_root(*#[trigger] docs[i])
}

/// What is known of one entry of a directory.
pub struct DirectoryEntry {
    pub path: String,
    /// The extension of its name, without the dot, if it has one.
    pub extension: Option<String>,
    pub is_file: bool,
}

/// Whether a path is among the first `k` of a list.
pub open spec fn path_known(known: Seq<String>, k: int, path: Seq<char>) -> bool {
    exists|i: int| 0 <= i < k && (#[trigger] known[i])@ == path
}

/// Whether an entry is loaded: a file, with the extension of a LaTeX
/// document, that the workspace did not hold when the search began.
pub open spec fn is_loaded_entry(known: Seq<String>, entry: DirectoryEntry) -> bool {
    &&& entry.is_file
    &&& entry.extension matches Some(e) && crate::document::language_of_extension(
        uppercased(e@),
    ) == Some(DocumentLanguage::Latex)
    &&& !path_known(known, known.len() as int, entry.path@)
}

/// The paths of the entries among the first `k` that are loaded, in order.
pub open spec fn loaded_paths(known: Seq<String>, entries: Seq<DirectoryEntry>, k: int) -> Seq<
    Seq<char>,
>
    decreases k,
{
    if k <= 0 {
        Seq::empty()
    } else if is_loaded_entry(known, entries[k - 1]) {
        loaded_paths(known, entries, k - 1).push(entries[k - 1].path@)
    } else {
        loaded_paths(known, entries, k - 1)
    }
}

/// The paths of the documents among the first `k` that name a local file, in
/// order.
pub open spec fn local_paths(docs: Seq<Arc<Document>>, k: int) -> Seq<Seq<char>>
    decreases k,
{
    if k <= 0 {
        Seq::empty()
    } else {
        match docs[k - 1].uri.local_path() {
            Some(p) => local_paths(docs, k - 1).push(p),
            None => local_paths(docs, k - 1),
        }
    }
}

/// A search for the project of a document: its owner walks up the
/// directories above the document and loads the LaTeX files in each, until
/// the document has a parent.
pub struct ParentSearch {
    /// The document whose project is looked for.
    pub uri: Uri,
    /// The paths of the files that the workspace held when the search began.
    /// A list and no hash set: vstd has no key model for strings.
    pub known: Vec<String>,
}

impl ParentSearch {
    /// The files of a directory to load.
    pub fn select(&self, entries: &Vec<DirectoryEntry>) -> (paths: Vec<String>)
        ensures
            crate::workspace::children_expand::path_texts(paths@) == loaded_paths(
                self.known@,
                entries@,
                entries.len() as int,
            ),
    {
        let mut paths: Vec<String> = Vec::new();
        let mut k: usize = 0;
        proof {
            assert(crate::workspace::children_expand::path_texts(paths@) =~= Seq::empty());
        }
        while k < entries.len()
            invariant
                k <= entries.len(),
                crate::workspace::children_expand::path_texts(paths@) == loaded_paths(
                    self.known@,
                    entries@,
                    k as int,
                ),
            decreases entries.len() - k,
        {
            let entry = &entries[k];
            let ghost before = paths@;
            let latex = match &entry.extension {
                Some(e) => match DocumentLanguage::by_extension(e.as_str()) {
                    Some(DocumentLanguage::Latex) => true,
                    _ => false,
                },
                None => false,
            };
            if entry.is_file && latex && !knows(&self.known, entry.path.as_str()) {
                paths.push(entry.path.clone());
                proof {
                    assert(crate::workspace::children_expand::path_texts(paths@)
                        =~= crate::workspace::children_expand::path_texts(before).push(
                        entry.path@,
                    ));
                }
            }
            k += 1;
        }
        paths
    }
}

/// Whether a path is in the list.
fn knows(known: &Vec<String>, path: &str) -> (r: bool)
    ensures
        r == path_known(known@, known.len() as int, path@),
{
    let mut i: usize = 0;
    while i < known.len()
        invariant
            i <= known.len(),
            !path_known(known@, i as int, path@),
        decreases known.len() - i,
    {
        if str_eq(known[i].as_str(), path) {
            return true;
        }
        i += 1;
    }
    false
}

/// A workspace that, for each document opened from a local file, starts a
/// search for the document's project.
pub struct ParentExpander<W> {
    pub workspace: W,
    searches: Vec<ParentSearch>,
}

impl<W: Workspace> ParentExpander<W> {
    /// The searches that wait to be carried out.
    pub closed spec fn searches_of(&self) -> Seq<ParentSearch> {
        self.searches@
    }

    /// The layer over a workspace.
    pub fn new(workspace: W) -> (r: Self)
        requires
            workspace.inv(),
        ensures
            r.inv(),
            r.documents_of() == workspace.documents_of(),
            r.opened_of() == workspace.opened_of(),
            r.searches_of().len() == 0,
    {
        ParentExpander { workspace, searches: Vec::new() }
    }

    /// Whether the document with this identity has a parent: its subset
    /// holds the root of a project. `None` where the workspace does not hold
    /// the document.
    #[verifier::loop_isolation(false)]
    pub fn has_parent(&self, uri: &Uri) -> (r: Option<bool>)
        requires
            self.inv(),
        ensures
            r == (match position(self.documents_of(), uri@) {
                Some(root) => {
                    let subset = documents_at(
                        self.documents_of(),
                        closure(self.documents_of(), root),
                    );
                    Some(holds_project_root(subset, subset.len() as int))
                },
                None => None,
            }),
    {
        let subset = match self.workspace.subset(uri) {
            Some(s) => s,
            None => {
                return None;
            },
        };
        let mut k: usize = 0;
        while k < subset.documents.len()
            invariant
                k <= subset.documents.len(),
                !holds_project_root(subset.documents@, k as int),
            decreases subset.documents.len() - k,
        {
            if is_root(&subset.documents[k]) {
                proof {
                    assert(is_project_root(*subset.documents@[k as int]));
                    assert(holds_project_root(
                        subset.documents@,
                        subset.documents@.len() as int,
                    ));
                }
                return Some(true);
            }
            k += 1;
        }
        Some(false)
    }

    /// Whether the search for a document's project goes on to the next
    /// directory: the document has no parent yet.
    pub fn goes_on(&self, search: &ParentSearch) -> (r: bool)
        requires
            self.inv(),
        ensures
            r == !(match position(self.documents_of(), search.uri@) {
                Some(root) => {
                    let subset = documents_at(
                        self.documents_of(),
                        closure(self.documents_of(), root),
                    );
                    holds_project_root(subset, subset.len() as int)
                },
                None => false,
            }),
    {
        match self.has_parent(&search.uri) {
            Some(found) => !found,
            None => true,
        }
    }

    /// Hands out one of the searches that wait, the latest first.
    pub fn take_search(&mut self) -> (r: Option<ParentSearch>)
        requires
            old(self).inv(),
        ensures
            final(self).inv(),
            final(self).documents_of() == old(self).documents_of(),
            final(self).opened_of() == old(self).opened_of(),
            old(self).searches_of().len() == 0 ==> r is None && final(self).searches_of() == old(
                self,
            ).searches_of(),
            old(self).searches_of().len() > 0 ==> r == Some(old(self).searches_of().last())
                && final(self).searches_of() == old(self).searches_of().drop_last(),
    {
        self.searches.pop()
    }
}

/// Whether a document is the root of a project.
#[verifier::loop_isolation(false)]
fn is_root(document: &Document) -> (r: bool)
    ensures
        r == is_project_root(*document),
{
    match document.data.as_latex() {
        Some(data) => {
            if !data.extras.has_document_environment {
                return false;
            }
            let links = &data.extras.explicit_links;
            let mut k: usize = 0;
            while k < links.len()
                invariant
                    k <= links.len(),
                    !names_subfiles(links@, k as int),
                decreases links.len() - k,
            {
                match links[k].as_component_name() {
                    Some(name) => {
                        if str_eq(name.as_str(), "subfiles.cls") {
                            proof {
                                assert(links@[k as int].component_name() == Some(
                                    "subfiles.cls"@,
                                ));
                                assert(names_subfiles(links@, links@.len() as int));
                            }
                            return false;
                        }
                    },
                    None => {},
                }
                k += 1;
            }
            true
        },
        None => false,
    }
}

/// The paths of the documents that name a local file.
fn paths_of(docs: &Vec<Arc<Document>>) -> (paths: Vec<String>)
    ensures
        crate::workspace::children_expand::path_texts(paths@) == local_paths(
            docs@,
            docs.len() as int,
        ),
{
    let mut paths: Vec<String> = Vec::new();
    let mut k: usize = 0;
    proof {
        assert(crate::workspace::children_expand::path_texts(paths@) =~= Seq::empty());
    }
    while k < docs.len()
        invariant
            k <= docs.len(),
            crate::workspace::children_expand::path_texts(paths@) == local_paths(docs@, k as int),
        decreases docs.len() - k,
    {
        let ghost before = paths@;
        match docs[k].uri.to_file_path() {
            Some(path) => {
                paths.push(path);
                proof {
                    assert(crate::workspace::children_expand::path_texts(paths@)
                        =~= crate::workspace::children_expand::path_texts(before).push(path@));
                }
            },
            None => {},
        }
        k += 1;
    }
    paths
}

impl<W: Workspace> Workspace for ParentExpander<W> {
    closed spec fn documents_of(&self) -> Seq<Arc<Document>> {
        self.workspace.documents_of()
    }

    closed spec fn opened_of(&self) -> Set<UriView> {
        self.workspace.opened_of()
    }

    closed spec fn inv(&self) -> bool {
        self.workspace.inv()
    }

    proof fn lemma_distinct(&self) {
        self.workspace.lemma_distinct();
    }

    fn open(&mut self, document: Arc<Document>, source: WorkspaceSource) -> (r: Arc<Document>)
        ensures
            document.uri.local_path() is None ==> final(self).searches_of() == old(
                self,
            ).searches_of(),
            document.uri.local_path() is Some ==> {
                let searches = final(self).searches_of();
                &&& searches.len() == old(self).searches_of().len() + 1
                &&& searches.drop_last() == old(self).searches_of()
                &&& searches.last().uri@ == document.uri@
                &&& crate::workspace::children_expand::path_texts(searches.last().known@)
                    == local_paths(
                    final(self).documents_of(),
                    final(self).documents_of().len() as int,
                )
            },
    {
        let document = self.workspace.open(document, source);
        if document.uri.to_file_path().is_some() {
            let known = paths_of(&self.workspace.documents());
            self.searches.push(ParentSearch { uri: document.uri.duplicate(), known });
            proof {
                assert(self.searches@.drop_last() =~= old(self).searches@);
            }
        }
        document
    }

    fn documents(&self) -> (r: Vec<Arc<Document>>) {
        self.workspace.documents()
    }

    fn has(&self, uri: &Uri) -> (r: bool) {
        self.workspace.has(uri)
    }

    fn get(&self, uri: &Uri) -> (r: Option<Arc<Document>>) {
        self.workspace.get(uri)
    }

    fn close(&mut self, uri: &Uri)
        ensures
            final(self).searches_of() == old(self).searches_of(),
    {
        self.workspace.close(uri)
    }

    fn is_open(&self, uri: &Uri) -> (r: bool) {
        self.workspace.is_open(uri)
    }

    fn subset(&self, uri: &Uri) -> (r: Option<WorkspaceSubset>) {
        self.workspace.subset(uri)
    }
}

} // verus!
