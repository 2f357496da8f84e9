use std::sync::Arc;

use texlab::document::{
    BibtexDocumentData, Document, DocumentData, ExplicitLink, ExplicitLinkKind, LatexDocumentData,
    LatexExtras, Uri, WorkspaceSource,
};
use texlab::bibtex::SyntaxKind as B;
use texlab::latex::SyntaxKind as L;
use texlab::syntax::{TextRange, TreeBuilder};
use texlab::workspace::children_expand::{ChildrenExpander, LinkProbe};
use texlab::workspace::parent_expand::{DirectoryEntry, ParentExpander, ParentSearch};
use texlab::workspace::{closure_of, index_of, links_of, resolve, Storage, Workspace};

fn link(targets: &[&str], kind: ExplicitLinkKind) -> ExplicitLink {
    ExplicitLink {
        stem: "stem".to_string(),
        stem_range: TextRange::new(0, 0),
        targets: targets.iter().map(|t| Uri::file(t)).collect(),
        kind,
    }
}

fn latex(path: &str, text: &str, links: Vec<ExplicitLink>) -> Arc<Document> {
    let mut builder = TreeBuilder::new();
    builder.start_node(L::ROOT);
    if !text.is_empty() {
        builder.token(L::WORD, text);
    }
    builder.finish_node();
    let mut extras = LatexExtras::new();
    extras.explicit_links = links;
    Arc::new(
        Document::new(
            Uri::file(path),
            text.to_string(),
            DocumentData::Latex(LatexDocumentData { root: builder.finish(), extras }),
        )
        .unwrap(),
    )
}

fn bibtex(path: &str) -> Arc<Document> {
    let mut builder = TreeBuilder::new();
    builder.start_node(B::ROOT);
    builder.finish_node();
    Arc::new(
        Document::new(
            Uri::file(path),
            String::new(),
            DocumentData::Bibtex(BibtexDocumentData { root: builder.finish() }),
        )
        .unwrap(),
    )
}

fn paths(documents: &[Arc<Document>]) -> Vec<String> {
    documents.iter().map(|d| d.uri.file_path.clone().unwrap()).collect()
}

#[test]
fn get_gives_the_snapshot_opened_last() {
    let mut workspace = Storage::new();
    let uri = Uri::file("/a.tex");
    assert!(workspace.get(&uri).is_none());
    assert!(!workspace.has(&uri));
    let texts = ["one", "two", "three"];
    for text in texts {
        let opened = workspace.open(latex("/a.tex", text, vec![]), WorkspaceSource::Client);
        assert_eq!(opened.text, text);
        workspace.open(latex("/other.tex", "x", vec![]), WorkspaceSource::Server);
        let got = workspace.get(&uri).unwrap();
        assert_eq!(got.text, text);
        assert!(texts.contains(&got.text.as_str()));
    }
    assert!(workspace.has(&uri));
    assert_eq!(paths(&workspace.documents()), vec!["/a.tex", "/other.tex"]);
    assert_eq!(workspace.get(&Uri::file("/other.tex")).unwrap().text, "x");
}

#[test]
fn open_marks_only_the_editors_documents() {
    let mut workspace = Storage::new();
    workspace.open(latex("/a.tex", "", vec![]), WorkspaceSource::Client);
    workspace.open(latex("/b.tex", "", vec![]), WorkspaceSource::Server);
    assert!(workspace.is_open(&Uri::file("/a.tex")));
    assert!(!workspace.is_open(&Uri::file("/b.tex")));
    assert!(!workspace.is_open(&Uri::file("/c.tex")));
    workspace.open(latex("/b.tex", "", vec![]), WorkspaceSource::Client);
    assert!(workspace.is_open(&Uri::file("/b.tex")));
}

fn cyclic() -> Storage {
    let mut workspace = Storage::new();
    let documents = vec![
        latex("/d.tex", "", vec![]),
        latex("/c.tex", "", vec![link(&["/a.tex"], ExplicitLinkKind::Latex)]),
        latex(
            "/a.tex",
            "",
            vec![
                link(&["/missing.tex", "/b.tex", "/d.tex"], ExplicitLinkKind::Latex),
                link(&["/refs.bib"], ExplicitLinkKind::Bibtex),
                link(&["/nowhere.sty"], ExplicitLinkKind::Package),
            ],
        ),
        latex("/b.tex", "", vec![link(&["/c.tex"], ExplicitLinkKind::Latex)]),
        bibtex("/refs.bib"),
        latex("/e.tex", "", vec![link(&["/d.tex"], ExplicitLinkKind::Latex)]),
    ];
    for document in documents {
        workspace.open(document, WorkspaceSource::Server);
    }
    workspace
}

#[test]
fn subset_is_what_links_reach_in_either_direction() {
    let workspace = cyclic();
    let subset = |path: &str| workspace.subset(&Uri::file(path)).map(|s| paths(&s.documents));
    assert_eq!(subset("/a.tex").unwrap(), vec!["/a.tex", "/c.tex", "/b.tex", "/refs.bib"]);
    assert_eq!(subset("/b.tex").unwrap(), vec!["/b.tex", "/c.tex", "/a.tex", "/refs.bib"]);
    assert_eq!(subset("/refs.bib").unwrap(), vec!["/refs.bib", "/a.tex", "/c.tex", "/b.tex"]);
    assert_eq!(subset("/d.tex").unwrap(), vec!["/d.tex", "/e.tex"]);
    assert_eq!(subset("/e.tex").unwrap(), vec!["/e.tex", "/d.tex"]);
    assert_eq!(subset("/missing.tex"), None);
    for path in ["/a.tex", "/b.tex", "/c.tex", "/d.tex", "/e.tex", "/refs.bib"] {
        let found = subset(path).unwrap();
        assert_eq!(found[0], path);
        let mut sorted = found.clone();
        sorted.sort();
        sorted.dedup();
        assert_eq!(sorted.len(), found.len());
    }
}

#[test]
fn links_resolve_to_the_first_candidate_in_the_workspace() {
    let workspace = cyclic();
    let documents = workspace.documents();
    assert_eq!(index_of(&documents, &Uri::file("/a.tex")), Some(2));
    assert_eq!(index_of(&documents, &Uri::file("/zzz.tex")), None);
    assert_eq!(resolve(&documents, &vec![Uri::file("/x.tex"), Uri::file("/b.tex"), Uri::file("/d.tex")]), Some(3));
    assert_eq!(resolve(&documents, &vec![]), None);
    assert_eq!(links_of(&documents, 2), vec![3, 4]);
    assert_eq!(links_of(&documents, 0), Vec::<usize>::new());
    assert_eq!(links_of(&documents, 4), Vec::<usize>::new());
    assert_eq!(closure_of(&documents, 2), vec![2, 1, 3, 4]);
    assert_eq!(closure_of(&documents, 0), vec![0, 5]);
}

#[test]
fn close_lets_go_of_what_no_open_document_reaches() {
    let mut workspace = Storage::new();
    workspace.open(
        latex("/main.tex", "", vec![link(&["/chapter.tex"], ExplicitLinkKind::Latex)]),
        WorkspaceSource::Client,
    );
    workspace.open(latex("/chapter.tex", "", vec![]), WorkspaceSource::Server);
    workspace.open(
        latex("/other.tex", "", vec![link(&["/chapter.tex"], ExplicitLinkKind::Latex)]),
        WorkspaceSource::Client,
    );
    workspace.open(latex("/stray.tex", "", vec![]), WorkspaceSource::Server);

    workspace.close(&Uri::file("/chapter.tex"));
    assert_eq!(
        paths(&workspace.documents()),
        vec!["/main.tex", "/chapter.tex", "/other.tex"]
    );

    workspace.close(&Uri::file("/main.tex"));
    assert!(!workspace.is_open(&Uri::file("/main.tex")));
    // Still reached from the other open document, over the chapter.
    assert_eq!(
        paths(&workspace.documents()),
        vec!["/main.tex", "/chapter.tex", "/other.tex"]
    );

    workspace.close(&Uri::file("/other.tex"));
    assert!(workspace.documents().is_empty());
    workspace.close(&Uri::file("/other.tex"));
    assert!(workspace.documents().is_empty());
}

#[test]
fn children_expander_lists_the_files_to_look_for() {
    let mut extras = LatexExtras::new();
    extras.implicit_links.aux = vec![Uri::file("/build/main.aux"), Uri::file("/main.aux")];
    extras.implicit_links.log = vec![Uri::file("/main.log")];
    let remote = Uri {
        text: "http://example.org/x.tex".to_string(),
        scheme: "http".to_string(),
        fragment: None,
        file_path: None,
    };
    let with_fragment = Uri {
        text: "file:///y.tex#part".to_string(),
        scheme: "file".to_string(),
        fragment: Some("part".to_string()),
        file_path: Some("/y.tex".to_string()),
    };
    extras.explicit_links.push(ExplicitLink {
        stem: "z".to_string(),
        stem_range: TextRange::new(0, 0),
        targets: vec![remote, with_fragment, Uri::file("/z.tex")],
        kind: ExplicitLinkKind::Latex,
    });
    let mut builder = TreeBuilder::new();
    builder.start_node(L::ROOT);
    builder.finish_node();
    let document = Arc::new(
        Document::new(
            Uri::file("/main.tex"),
            String::new(),
            DocumentData::Latex(LatexDocumentData { root: builder.finish(), extras }),
        )
        .unwrap(),
    );

    let mut workspace = ChildrenExpander::new(Storage::new());
    assert!(workspace.take_probe().is_none());
    workspace.open(Arc::clone(&document), WorkspaceSource::Client);
    assert!(workspace.has(&Uri::file("/main.tex")));
    let explicit = workspace.take_probe().unwrap();
    assert_eq!(explicit.candidates, vec!["/z.tex"]);
    let log = workspace.take_probe().unwrap();
    assert_eq!(log.candidates, vec!["/main.log"]);
    let mut aux = workspace.take_probe().unwrap();
    assert_eq!(aux.candidates, vec!["/build/main.aux", "/main.aux"]);
    assert!(workspace.take_probe().is_none());

    assert_eq!(aux.candidate(), Some(&"/build/main.aux".to_string()));
    aux.advance(false);
    assert_eq!(aux.candidate(), Some(&"/main.aux".to_string()));
    aux.advance(false);
    assert_eq!(aux.candidate(), None);

    let mut first_wins = LinkProbe { candidates: vec!["a".to_string(), "b".to_string()], next: 0 };
    first_wins.advance(true);
    assert_eq!(first_wins.candidate(), None);

    workspace.open(bibtex("/refs.bib"), WorkspaceSource::Server);
    assert!(workspace.take_probe().is_none());
    assert_eq!(ChildrenExpander::<Storage>::expand(&Storage::new(), &document).len(), 3);
    assert_eq!(workspace.subset(&Uri::file("/main.tex")).unwrap().documents.len(), 1);
    assert_eq!(workspace.documents().len(), 2);
    assert!(workspace.is_open(&Uri::file("/main.tex")));
    assert!(workspace.get(&Uri::file("/refs.bib")).is_some());
    workspace.close(&Uri::file("/main.tex"));
    assert!(workspace.documents().is_empty());
}

fn root_document(path: &str, links: Vec<ExplicitLink>, has_document_environment: bool) -> Arc<Document> {
    let mut builder = TreeBuilder::new();
    builder.start_node(L::ROOT);
    builder.finish_node();
    let mut extras = LatexExtras::new();
    extras.explicit_links = links;
    extras.has_document_environment = has_document_environment;
    Arc::new(
        Document::new(
            Uri::file(path),
            String::new(),
            DocumentData::Latex(LatexDocumentData { root: builder.finish(), extras }),
        )
        .unwrap(),
    )
}

#[test]
fn parent_expander_looks_until_the_document_has_a_parent() {
    let mut workspace = ParentExpander::new(Storage::new());
    assert_eq!(workspace.has_parent(&Uri::file("/p/ch/one.tex")), None);
    workspace.open(root_document("/p/ch/one.tex", vec![], false), WorkspaceSource::Client);
    let search = workspace.take_search().unwrap();
    assert!(workspace.take_search().is_none());
    assert_eq!(search.uri, Uri::file("/p/ch/one.tex"));
    assert_eq!(search.known, vec!["/p/ch/one.tex"]);
    assert_eq!(workspace.has_parent(&search.uri), Some(false));
    assert!(workspace.goes_on(&search));

    let entries = vec![
        DirectoryEntry { path: "/p/ch/one.tex".to_string(), extension: Some("tex".to_string()), is_file: true },
        DirectoryEntry { path: "/p/ch/two.TEX".to_string(), extension: Some("TEX".to_string()), is_file: true },
        DirectoryEntry { path: "/p/ch/refs.bib".to_string(), extension: Some("bib".to_string()), is_file: true },
        DirectoryEntry { path: "/p/ch/dir.tex".to_string(), extension: Some("tex".to_string()), is_file: false },
        DirectoryEntry { path: "/p/ch/Makefile".to_string(), extension: None, is_file: true },
    ];
    assert_eq!(search.select(&entries), vec!["/p/ch/two.TEX"]);

    // A document that uses the class `subfiles` is no parent.
    workspace.open(
        root_document(
            "/p/sub.tex",
            vec![link(&["/p/ch/one.tex"], ExplicitLinkKind::Latex), link(&[], ExplicitLinkKind::Class)],
            true,
        ),
        WorkspaceSource::Server,
    );
    let mut subfiles = link(&[], ExplicitLinkKind::Class);
    subfiles.stem = "subfiles".to_string();
    workspace.open(
        root_document(
            "/p/sub.tex",
            vec![link(&["/p/ch/one.tex"], ExplicitLinkKind::Latex), subfiles],
            true,
        ),
        WorkspaceSource::Server,
    );
    assert_eq!(workspace.has_parent(&search.uri), Some(false));
    workspace.open(
        root_document("/p/main.tex", vec![link(&["/p/ch/one.tex"], ExplicitLinkKind::Latex)], true),
        WorkspaceSource::Server,
    );
    assert_eq!(workspace.has_parent(&search.uri), Some(true));
    assert!(!workspace.goes_on(&search));
    assert!(workspace.goes_on(&ParentSearch { uri: Uri::file("/gone.tex"), known: vec![] }));

    let remote = Uri {
        text: "untitled:Untitled-1".to_string(),
        scheme: "untitled".to_string(),
        fragment: None,
        file_path: None,
    };
    while workspace.take_search().is_some() {}
    let mut builder = TreeBuilder::new();
    builder.start_node(L::ROOT);
    builder.finish_node();
    workspace.open(
        Arc::new(
            Document::new(
                remote,
                String::new(),
                DocumentData::Latex(LatexDocumentData { root: builder.finish(), extras: LatexExtras::new() }),
            )
            .unwrap(),
        ),
        WorkspaceSource::Client,
    );
    assert!(workspace.take_search().is_none());
}

#[test]
fn identities_are_compared_by_all_their_parts() {
    let a = Uri::file("/a.tex");
    assert_eq!(a.text, "file:///a.tex");
    assert_eq!(a.scheme, "file");
    assert_eq!(a.to_file_path(), Some("/a.tex".to_string()));
    assert!(a.same(&Uri::file("/a.tex")));
    assert!(a.same(&a.duplicate()));
    assert!(!a.same(&Uri::file("/b.tex")));
    let mut other = a.duplicate();
    other.fragment = Some("x".to_string());
    assert!(!a.same(&other));
    other.fragment = None;
    other.scheme = "http".to_string();
    assert!(!a.same(&other));
    assert_eq!(other.to_file_path(), None);
    let class = ExplicitLink {
        stem: "article".to_string(),
        stem_range: TextRange::new(0, 0),
        targets: vec![],
        kind: ExplicitLinkKind::Class,
    };
    assert_eq!(class.as_component_name(), Some("article.cls".to_string()));
    assert_eq!(link(&[], ExplicitLinkKind::Package).as_component_name(), Some("stem.sty".to_string()));
    assert_eq!(link(&[], ExplicitLinkKind::Latex).as_component_name(), None);
    assert_eq!(link(&[], ExplicitLinkKind::Bibtex).as_component_name(), None);
}
