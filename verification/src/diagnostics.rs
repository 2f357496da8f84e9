//! Diagnostics: what the analysis of the documents found, kept by document
//! and handed out merged.

use crate::document::Uri;
use crate::protocol::{diagnostic_views, Diagnostic, DiagnosticView};
use crate::workspace::Workspace;
use multimap::MultiMap;
use vstd::prelude::*;

pub mod bibtex;
pub mod debouncer;

verus! {

/// A map from keys to lists of values.
#[verifier::external_type_specification]
#[verifier::external_body]
#[verifier::reject_recursive_types(K)]
#[verifier::reject_recursive_types(V)]
#[verifier::reject_recursive_types(S)]
pub struct ExMultiMap<K, V, S>(MultiMap<K, V, S>);

/// What a multimap of diagnostics holds: for each key that it has, the
/// diagnostics under that key, in the order in which they were put in.
pub uninterp spec fn entries_of(map: MultiMap<String, Diagnostic>) -> Map<
    Seq<char>,
    Seq<DiagnosticView>,
>;

/// What a multimap without keys holds.
pub open spec fn no_entries() -> Map<Seq<char>, Seq<DiagnosticView>> {
    Map::empty()
}

/// The diagnostics under a key; none where the key is not there.
pub open spec fn listed(entries: Map<Seq<char>, Seq<DiagnosticView>>, key: Seq<char>) -> Seq<
    DiagnosticView,
> {
    if entries.contains_key(key) {
        entries[key]
    } else {
        Seq::empty()
    }
}

/// `MultiMap::new`: a multimap without keys.
#[verifier::external_body]
pub(crate) fn multimap_new() -> (map: MultiMap<String, Diagnostic>)
    ensures
        entries_of(map) == no_entries(),
{
    MultiMap::new()
}

/// `MultiMap::insert`: the value is put at the end of the list under the
/// key; a key that was not there gets a list with the value alone.
#[verifier::external_body]
pub(crate) fn multimap_insert(
    map: &mut MultiMap<String, Diagnostic>,
    key: String,
    value: Diagnostic,
)
    ensures
        entries_of(*final(map)) == entries_of(*old(map)).insert(
            key@,
            listed(entries_of(*old(map)), key@).push(value@),
        ),
{
    map.insert(key, value)
}

/// `MultiMap::get_vec`: the list under the key, copied; `None` where the
/// key is not there.
#[verifier::external_body]
pub(crate) fn multimap_get_vec(map: &MultiMap<String, Diagnostic>, key: &str) -> (r: Option<
    Vec<Diagnostic>,
>)
    ensures
        match r {
            Some(list) => entries_of(*map).contains_key(key@) && diagnostic_views(list@)
                == entries_of(*map)[key@],
            None => !entries_of(*map).contains_key(key@),
        },
{
    map.get_vec(key).cloned()
}

/// `MultiMap::remove`: the key and its list leave the multimap.
#[verifier::external_body]
pub(crate) fn multimap_remove(map: &mut MultiMap<String, Diagnostic>, key: &str)
    ensures
        entries_of(*final(map)) == entries_of(*old(map)).remove(key@),
{
    map.remove(key);
}

/// The diagnostics of all documents: for each, those of the analysis of its
/// structure, and those of the linter.
pub struct DiagnosticsManager {
    static_diagnostics: MultiMap<String, Diagnostic>,
    chktex_diagnostics: MultiMap<String, Diagnostic>,
}

impl DiagnosticsManager {
    /// The latest diagnostics of the analysis of structure for a document.
    pub closed spec fn static_of(&self, uri: Seq<char>) -> Seq<DiagnosticView> {
        listed(entries_of(self.static_diagnostics), uri)
    }

    /// The latest diagnostics of the linter for a document.
    pub closed spec fn external_of(&self, uri: Seq<char>) -> Seq<DiagnosticView> {
        listed(entries_of(self.chktex_diagnostics), uri)
    }

    /// A manager without diagnostics.
    pub fn new() -> (r: DiagnosticsManager)
        ensures
            forall|uri: Seq<char>| #[trigger] r.static_of(uri) == Seq::<DiagnosticView>::empty(),
            forall|uri: Seq<char>| #[trigger] r.external_of(uri) == Seq::<DiagnosticView>::empty(),
    {
        DiagnosticsManager {
            static_diagnostics: multimap_new(),
            chktex_diagnostics: multimap_new(),
        }
    }

    /// Analyses the structure of a document anew; what is found takes the
    /// place of what was found before for it.
    pub fn update_static<W: Workspace>(&mut self, workspace: &W, uri: &Uri)
        requires
            workspace.inv(),
        ensures
            final(self).static_of(uri@.text) == bibtex::static_diagnostics(
                workspace.documents_of(),
                uri@,
            ),
            forall|other: Seq<char>|
                other != uri@.text ==> #[trigger] final(self).static_of(other) == old(
                    self,
                ).static_of(other),
            forall|any: Seq<char>| #[trigger]
                final(self).external_of(any) == old(self).external_of(any),
    {
        multimap_remove(&mut self.static_diagnostics, uri.text.as_str());
        proof {
            assert(listed(entries_of(self.static_diagnostics), uri@.text) =~= Seq::empty());
        }
        let _ = bibtex::analyze_bibtex_static(workspace, &mut self.static_diagnostics, uri);
        proof {
            assert(Seq::<DiagnosticView>::empty() + bibtex::static_diagnostics(
                workspace.documents_of(),
                uri@,
            ) =~= bibtex::static_diagnostics(workspace.documents_of(), uri@));
        }
    }

    /// Takes in what the linter found for a document; it takes the place of
    /// what the linter found before for it.
    pub fn update_chktex(&mut self, uri: &Uri, diagnostics: Vec<Diagnostic>)
        ensures
            final(self).external_of(uri@.text) == diagnostic_views(diagnostics@),
            forall|other: Seq<char>|
                other != uri@.text ==> #[trigger] final(self).external_of(other) == old(
                    self,
                ).external_of(other),
            forall|any: Seq<char>| #[trigger]
                final(self).static_of(any) == old(self).static_of(any),
    {
        multimap_remove(&mut self.chktex_diagnostics, uri.text.as_str());
        let ghost others = entries_of(self.chktex_diagnostics);
        let mut i: usize = 0;
        proof {
            assert(diagnostic_views(diagnostics@).take(0) =~= Seq::empty());
        }
        while i < diagnostics.len()
            invariant
                i <= diagnostics.len(),
                self.static_diagnostics == old(self).static_diagnostics,
                !others.contains_key(uri@.text),
                listed(entries_of(self.chktex_diagnostics), uri@.text) == diagnostic_views(
                    diagnostics@,
                ).take(i as int),
                forall|other: Seq<char>|
                    other != uri@.text ==> #[trigger] listed(
                        entries_of(self.chktex_diagnostics),
                        other,
                    ) == listed(others, other),
            decreases diagnostics.len() - i,
        {
            let ghost prior = entries_of(self.chktex_diagnostics);
            multimap_insert(
                &mut self.chktex_diagnostics,
                uri.text.clone(),
                diagnostics[i].duplicate(),
            );
            proof {
                assert forall|other: Seq<char>| other != uri@.text implies #[trigger] listed(
                    entries_of(self.chktex_diagnostics),
                    other,
                ) == listed(others, other) by {
                    assert(listed(prior, other) == listed(others, other));
                }
                assert(diagnostic_views(diagnostics@).take(i + 1) =~= diagnostic_views(
                    diagnostics@,
                ).take(i as int).push(diagnostics@[i as int]@));
            }
            i += 1;
        }
        proof {
            assert(diagnostic_views(diagnostics@).take(diagnostics.len() as int)
                =~= diagnostic_views(diagnostics@));
        }
    }

    /// The diagnostics to show for a document: the latest of the analysis
    /// of structure, then the latest of the linter. As collections that keep
    /// count of how often a diagnostic occurs, they are the sum of the two.
    pub fn publish(&self, uri: &Uri) -> (r: Vec<Diagnostic>)
        ensures
            diagnostic_views(r@) == self.static_of(uri@.text) + self.external_of(uri@.text),
            diagnostic_views(r@).to_multiset() == self.static_of(uri@.text).to_multiset().add(
                self.external_of(uri@.text).to_multiset(),
            ),
    {
        let mut all: Vec<Diagnostic> = match multimap_get_vec(
            &self.static_diagnostics,
            uri.text.as_str(),
        ) {
            Some(list) => list,
            None => Vec::new(),
        };
        let mut more: Vec<Diagnostic> = match multimap_get_vec(
            &self.chktex_diagnostics,
            uri.text.as_str(),
        ) {
            Some(list) => list,
            None => Vec::new(),
        };
        proof {
            assert(diagnostic_views(all@) =~= self.static_of(uri@.text));
            assert(diagnostic_views(more@) =~= self.external_of(uri@.text));
            assert(diagnostic_views(all@ + more@) =~= diagnostic_views(all@) + diagnostic_views(
                more@,
            ));
            vstd::seq_lib::lemma_multiset_commutative(
                self.static_of(uri@.text),
                self.external_of(uri@.text),
            );
        }
        all.append(&mut more);
        all
    }
}

} // verus!
