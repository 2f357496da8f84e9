//! The layer of a workspace that brings in what a document names.

use crate::document::{Document, Uri, UriView, WorkspaceSource};
use crate::text::str_eq;
use crate::workspace::{link_lists, Workspace, WorkspaceSubset};
use std::sync::Arc;
use vstd::prelude::*;

verus! {

/// Whether a candidate is tried: it names a local file, without a fragment.
pub open spec fn is_probed(uri: Uri) -> bool {
    uri@.scheme == "file"@ && uri@.fragment is None && uri@.file_path is Some
}

/// The paths of the candidates among the first `k` that are tried, in order.
pub open spec fn probed_paths(targets: Seq<Uri>, k: int) -> Seq<Seq<char>>
    decreases k,
{
    if k <= 0 {
        Seq::empty()
    } else if is_probed(targets[k - 1]) {
        probed_paths(targets, k - 1).push(targets[k - 1]@.file_path->0)
    } else {
        probed_paths(targets, k - 1)
    }
}

/// For each candidate list of a document, the paths to try, in order.
pub open spec fn probe_plan(doc: Document) -> Seq<Seq<Seq<char>>> {
    link_lists(doc).map_values(|targets: Seq<Uri>| probed_paths(targets, targets.len() as int))
}

/// The paths of a search, each as plain text.
pub open spec fn path_texts(paths: Seq<String>) -> Seq<Seq<char>> {
    paths.map_values(|p: String| p@)
}

/// A search for the file behind one link: its candidates are tried in order
/// until one can be loaded.
pub struct LinkProbe {
    pub candidates: Vec<String>,
    /// How many candidates are settled: tried in vain, or not needed.
    pub next: usize,
}

impl LinkProbe {
    /// The path to try now; `None` when the search is over.
    pub fn candidate(&self) -> (r: Option<&String>)
        ensures
            r == (if self.next < self.candidates@.len() {
                Some(&self.candidates@[self.next as int])
            } else {
                None
            }),
    {
        if self.next < self.candidates.len() {
            Some(&self.candidates[self.next])
        } else {
            None
        }
    }

    /// Takes note of how the try went: a file that was loaded ends the
    /// search, one that was not leaves the next candidate to try.
    pub fn advance(&mut self, loaded: bool)
        requires
            old(self).next < old(self).candidates@.len(),
        ensures
            final(self).candidates == old(self).candidates,
            final(self).next == (if loaded {
                old(self).candidates@.len() as int
            } else {
                old(self).next + 1
            }),
    {
        let n = self.candidates.len();
        if loaded {
            self.next = n;
        } else {
            self.next = self.next + 1;
        }
    }
}

/// What the probes stand for: the candidates of each.
pub open spec fn plan_of(probes: Seq<LinkProbe>) -> Seq<Seq<Seq<char>>> {
    probes.map_values(|p: LinkProbe| path_texts(p.candidates@))
}

/// A workspace that, for each document opened, lists the files that the
/// document names, for its owner to load.
pub struct ChildrenExpander<W> {
    pub workspace: W,
    pending: Vec<LinkProbe>,
}

impl<W: Workspace> ChildrenExpander<W> {
    /// The searches that wait to be carried out.
    pub closed spec fn pending_of(&self) -> Seq<LinkProbe> {
        self.pending@
    }

    /// The layer over a workspace.
    pub fn new(workspace: W) -> (r: Self)
        requires
            workspace.inv(),
        ensures
            r.inv(),
            r.documents_of() == workspace.documents_of(),
            r.opened_of() == workspace.opened_of(),
            r.pending_of().len() == 0,
    {
        ChildrenExpander { workspace, pending: Vec::new() }
    }

    /// The paths of the candidates that are tried, in order.
    fn paths_to_probe(targets: &Vec<Uri>) -> (paths: Vec<String>)
        ensures
            path_texts(paths@) == probed_paths(targets@, targets.len() as int),
    {
        let mut paths: Vec<String> = Vec::new();
        let mut k: usize = 0;
        proof {
            assert(path_texts(paths@) =~= Seq::empty());
        }
        while k < targets.len()
            invariant
                k <= targets.len(),
                path_texts(paths@) == probed_paths(targets@, k as int),
            decreases targets.len() - k,
        {
            let uri = &targets[k];
            let ghost before = paths@;
            if str_eq(uri.scheme.as_str(), "file") && uri.fragment.is_none() {
                match &uri.file_path {
                    Some(path) => {
                        paths.push(path.clone());
                        proof {
                            assert(path_texts(paths@) =~= path_texts(before).push(path@));
                        }
                    },
                    None => {},
                }
            }
            k += 1;
        }
        paths
    }

    /// The searches that opening a document calls for: one for its
    /// auxiliary file, one for its log, and one for each inclusion.
    pub fn expand(workspace: &W, document: &Document) -> (probes: Vec<LinkProbe>)
        ensures
            plan_of(probes@) == probe_plan(*document),
            forall|i: int| 0 <= i < probes.len() ==> (#[trigger] probes@[i]).next == 0,
    {
        let mut probes: Vec<LinkProbe> = Vec::new();
        let ghost lists = link_lists(*document);
        match document.data.as_latex() {
            Some(data) => {
                let extras = &data.extras;
                let aux = Self::paths_to_probe(&extras.implicit_links.aux);
                probes.push(LinkProbe { candidates: aux, next: 0 });
                let log = Self::paths_to_probe(&extras.implicit_links.log);
                probes.push(LinkProbe { candidates: log, next: 0 });
                proof {
                    assert(plan_of(probes@) =~= probe_plan(*document).take(2));
                }
                let mut n: usize = 0;
                while n < extras.explicit_links.len()
                    invariant
                        n <= extras.explicit_links.len(),
                        lists == link_lists(*document),
                        lists.len() == 2 + extras.explicit_links.len(),
                        forall|k: int|
                            0 <= k < extras.explicit_links.len() ==> lists[2 + k]
                                == #[trigger] extras.explicit_links@[k].targets@,
                        plan_of(probes@) == probe_plan(*document).take(2 + n),
                        forall|i: int| 0 <= i < probes.len() ==> (#[trigger] probes@[i]).next == 0,
                    decreases extras.explicit_links.len() - n,
                {
                    let paths = Self::paths_to_probe(&extras.explicit_links[n].targets);
                    let ghost before = probes@;
                    probes.push(LinkProbe { candidates: paths, next: 0 });
                    proof {
                        assert(lists[2 + n] == extras.explicit_links@[n as int].targets@);
                        assert(probe_plan(*document)[2 + n] == path_texts(paths@));
                        assert(plan_of(probes@) =~= plan_of(before).push(path_texts(paths@)));
                        assert(plan_of(probes@) =~= probe_plan(*document).take(2 + n + 1));
                    }
                    n += 1;
                }
                proof {
                    assert(probe_plan(*document).take(lists.len() as int) =~= probe_plan(
                        *document,
                    ));
                }
            },
            None => {
                proof {
                    assert(plan_of(probes@) =~= probe_plan(*document));
                }
            },
        }
        probes
    }

    /// Hands out one of the searches that wait, the latest first.
    pub fn take_probe(&mut self) -> (r: Option<LinkProbe>)
        requires
            old(self).inv(),
        ensures
            final(self).inv(),
            final(self).documents_of() == old(self).documents_of(),
            final(self).opened_of() == old(self).opened_of(),
            old(self).pending_of().len() == 0 ==> r is None && final(self).pending_of() == old(
                self,
            ).pending_of(),
            old(self).pending_of().len() > 0 ==> r == Some(old(self).pending_of().last())
                && final(self).pending_of() == old(self).pending_of().drop_last(),
    {
        self.pending.pop()
    }
}

impl<W: Workspace> Workspace for ChildrenExpander<W> {
    closed spec fn documents_of(&self) -> Seq<Arc<Document>> {
        self.workspace.documents_of()
    }

    closed spec fn opened_of(&self) -> Set<UriView> {
        self.workspace.opened_of()
    }

    closed spec fn inv(&self) -> bool {
        self.workspace.inv()
    }

    proof fn lemma_distinct(&self) {
        self.workspace.lemma_distinct();
    }

    fn open(&mut self, document: Arc<Document>, source: WorkspaceSource) -> (r: Arc<Document>)
        ensures
            plan_of(final(self).pending_of()) == plan_of(old(self).pending_of()) + probe_plan(
                *document,
            ),
            final(self).pending_of().take(old(self).pending_of().len() as int) == old(
                self,
            ).pending_of(),
            forall|i: int|
                old(self).pending_of().len() <= i < final(self).pending_of().len() ==> (
                #[trigger] final(self).pending_of()[i]).next == 0,
    {
        let document = self.workspace.open(document, source);
        let mut probes = Self::expand(&self.workspace, &document);
        let ghost added = probes@;
        self.pending.append(&mut probes);
        proof {
            assert(plan_of(self.pending@) =~= plan_of(old(self).pending@) + plan_of(added));
            assert(self.pending@.take(old(self).pending@.len() as int) =~= old(self).pending@);
        }
        document
    }

    fn documents(&self) -> (r: Vec<Arc<Document>>) {
        self.workspace.documents()
    }

    fn has(&self, uri: &Uri) -> (r: bool) {
        self.workspace.has(uri)
    }

    fn get(&self, uri: &Uri) -> (r: Option<Arc<Document>>) {
        self.workspace.get(uri)
    }

    fn close(&mut self, uri: &Uri)
        ensures
            final(self).pending_of() == old(self).pending_of(),
    {
        self.workspace.close(uri)
    }

    fn is_open(&self, uri: &Uri) -> (r: bool) {
        self.workspace.is_open(uri)
    }

    fn subset(&self, uri: &Uri) -> (r: Option<WorkspaceSubset>) {
        self.workspace.subset(uri)
    }
}

} // verus!
