use std::sync::Arc;

use multimap::MultiMap;
use texlab::bibtex::SyntaxKind as B;
use texlab::diagnostics::bibtex::{analyze_bibtex_static, analyze_entry, analyze_field};
use texlab::diagnostics::debouncer::{Debouncer, Waiting};
use texlab::diagnostics::DiagnosticsManager;
use texlab::document::{
    BibtexDocumentData, Document, DocumentData, LatexDocumentData, LatexExtras, Uri,
    WorkspaceSource,
};
use texlab::latex::SyntaxKind as L;
use texlab::line_index::Range;
use texlab::protocol::{Diagnostic, DiagnosticSeverity};
use texlab::syntax::{SyntaxTree, TreeBuilder};
use texlab::workspace::{Storage, Workspace};

enum Shape {
    Token(B, &'static str),
    Node(B, Vec<Shape>),
}

fn add(builder: &mut TreeBuilder<B>, shape: &Shape) {
    match shape {
        Shape::Token(kind, text) => builder.token(*kind, text),
        Shape::Node(kind, children) => {
            builder.start_node(*kind);
            for child in children {
                add(builder, child);
            }
            builder.finish_node();
        }
    }
}

fn document(path: &str, shape: Shape) -> Arc<Document> {
    let mut builder = TreeBuilder::new();
    add(&mut builder, &shape);
    let root: SyntaxTree<B> = builder.finish();
    Arc::new(
        Document::new(
            Uri::file(path),
            root.text(0),
            DocumentData::Bibtex(BibtexDocumentData { root }),
        )
        .unwrap(),
    )
}

fn value(text: &'static str) -> Shape {
    Shape::Node(
        B::VALUE,
        vec![Shape::Node(
            B::TOKEN,
            vec![Shape::Node(
                B::BRACE_GROUP,
                vec![
                    Shape::Token(B::L_CURLY, "{"),
                    Shape::Token(B::WORD, text),
                    Shape::Token(B::R_CURLY, "}"),
                ],
            )],
        )],
    )
}

fn error(range: Range, code: i32, message: &str) -> Diagnostic {
    Diagnostic {
        range,
        severity: DiagnosticSeverity::Error,
        code: Some(code),
        source: "texlab".to_string(),
        message: message.to_string(),
    }
}

fn analyzed(document: Arc<Document>) -> Vec<Diagnostic> {
    let mut workspace = Storage::new();
    let uri = document.uri.duplicate();
    workspace.open(document, WorkspaceSource::Client);
    let mut found = MultiMap::new();
    assert_eq!(analyze_bibtex_static(&workspace, &mut found, &uri), Some(()));
    assert!(found.keys().all(|k| *k == uri.text));
    found.get_vec(&uri.text).cloned().unwrap_or_default()
}

#[test]
fn entry_without_opening_brace_gives_one_diagnostic_at_its_type() {
    // @article foo, author = {X}
    let doc = document(
        "/main.bib",
        Shape::Node(
            B::ROOT,
            vec![Shape::Node(
                B::ENTRY,
                vec![
                    Shape::Token(B::ENTRY_TYPE, "@article"),
                    Shape::Token(B::WHITESPACE, " "),
                    Shape::Token(B::WORD, "foo"),
                    Shape::Token(B::COMMA, ","),
                    Shape::Token(B::WHITESPACE, " "),
                    Shape::Node(
                        B::FIELD,
                        vec![
                            Shape::Token(B::WORD, "author"),
                            Shape::Token(B::WHITESPACE, " "),
                            Shape::Token(B::EQUALITY_SIGN, "="),
                            Shape::Token(B::WHITESPACE, " "),
                            value("X"),
                        ],
                    ),
                ],
            )],
        ),
    );
    assert_eq!(doc.text, "@article foo, author = {X}");
    assert_eq!(
        analyzed(doc),
        vec![error(Range::new_simple(0, 0, 0, 8), 4, "Expecting a curly bracket: \"{\"")]
    );
}

#[test]
fn each_structural_error_has_its_own_diagnostic() {
    // @a{}\n@b{k\n@c{k,x}\n@d{k,x=}\n@e{k,x={v}}
    let doc = document(
        "/main.bib",
        Shape::Node(
            B::ROOT,
            vec![
                Shape::Node(
                    B::ENTRY,
                    vec![
                        Shape::Token(B::ENTRY_TYPE, "@a"),
                        Shape::Token(B::L_CURLY, "{"),
                        Shape::Token(B::R_CURLY, "}"),
                        Shape::Token(B::WHITESPACE, "\n"),
                    ],
                ),
                Shape::Node(
                    B::ENTRY,
                    vec![
                        Shape::Token(B::ENTRY_TYPE, "@b"),
                        Shape::Token(B::L_CURLY, "{"),
                        Shape::Token(B::WORD, "k"),
                        Shape::Token(B::WHITESPACE, "\n"),
                    ],
                ),
                Shape::Node(
                    B::ENTRY,
                    vec![
                        Shape::Token(B::ENTRY_TYPE, "@c"),
                        Shape::Token(B::L_CURLY, "{"),
                        Shape::Token(B::WORD, "k"),
                        Shape::Token(B::COMMA, ","),
                        Shape::Node(B::FIELD, vec![Shape::Token(B::WORD, "x")]),
                        Shape::Token(B::R_CURLY, "}"),
                        Shape::Token(B::WHITESPACE, "\n"),
                    ],
                ),
                Shape::Node(
                    B::ENTRY,
                    vec![
                        Shape::Token(B::ENTRY_TYPE, "@d"),
                        Shape::Token(B::L_CURLY, "{"),
                        Shape::Token(B::WORD, "k"),
                        Shape::Token(B::COMMA, ","),
                        Shape::Node(
                            B::FIELD,
                            vec![Shape::Token(B::WORD, "x"), Shape::Token(B::EQUALITY_SIGN, "=")],
                        ),
                        Shape::Token(B::R_CURLY, "}"),
                        Shape::Token(B::WHITESPACE, "\n"),
                    ],
                ),
                Shape::Node(
                    B::ENTRY,
                    vec![
                        Shape::Token(B::ENTRY_TYPE, "@e"),
                        Shape::Token(B::L_CURLY, "{"),
                        Shape::Token(B::WORD, "k"),
                        Shape::Token(B::COMMA, ","),
                        Shape::Node(
                            B::FIELD,
                            vec![
                                Shape::Token(B::WORD, "x"),
                                Shape::Token(B::EQUALITY_SIGN, "="),
                                value("v"),
                            ],
                        ),
                        Shape::Token(B::R_CURLY, "}"),
                    ],
                ),
                Shape::Node(B::ENTRY, vec![]),
                Shape::Node(B::FIELD, vec![Shape::Token(B::EQUALITY_SIGN, "=")]),
            ],
        ),
    );
    assert_eq!(doc.text, "@a{}\n@b{k\n@c{k,x}\n@d{k,x=}\n@e{k,x={v}}=");
    assert_eq!(
        analyzed(Arc::clone(&doc)),
        vec![
            error(Range::new_simple(0, 2, 0, 3), 5, "Expecting a key"),
            error(Range::new_simple(2, 0, 2, 0), 6, "Expecting a curly bracket: \"}\""),
            error(Range::new_simple(2, 6, 2, 6), 7, "Expecting an equality sign: \"=\""),
            error(Range::new_simple(3, 7, 3, 7), 8, "Expecting a field value"),
            error(Range::new_simple(4, 12, 4, 12), 8, "Expecting a field value"),
        ]
    );
    let data = doc.data.as_bibtex().unwrap();
    assert_eq!(analyze_entry(&data.root, &doc.line_index, 0), None);
    assert_eq!(analyze_field(&data.root, &doc.line_index, 1), None);
    assert_eq!(
        analyze_entry(&data.root, &doc.line_index, 1),
        Some(error(Range::new_simple(0, 2, 0, 3), 5, "Expecting a key"))
    );
}

fn latex_document(path: &str) -> Arc<Document> {
    let mut builder = TreeBuilder::new();
    builder.start_node(L::ROOT);
    builder.finish_node();
    Arc::new(
        Document::new(
            Uri::file(path),
            String::new(),
            DocumentData::Latex(LatexDocumentData { root: builder.finish(), extras: LatexExtras::new() }),
        )
        .unwrap(),
    )
}

fn broken(path: &str) -> Arc<Document> {
    document(
        path,
        Shape::Node(
            B::ROOT,
            vec![Shape::Node(
                B::ENTRY,
                vec![Shape::Token(B::ENTRY_TYPE, "@a"), Shape::Token(B::L_CURLY, "{")],
            )],
        ),
    )
}

#[test]
fn analysis_is_for_bibliographies_in_the_workspace() {
    let mut workspace = Storage::new();
    workspace.open(latex_document("/main.tex"), WorkspaceSource::Client);
    let mut found = MultiMap::new();
    found.insert("file:///main.tex".to_string(), error(Range::new_simple(0, 0, 0, 0), 1, "kept"));
    assert_eq!(analyze_bibtex_static(&workspace, &mut found, &Uri::file("/main.tex")), None);
    assert_eq!(analyze_bibtex_static(&workspace, &mut found, &Uri::file("/gone.bib")), None);
    assert_eq!(found.len(), 1);
    workspace.open(broken("/main.tex"), WorkspaceSource::Client);
    assert_eq!(analyze_bibtex_static(&workspace, &mut found, &Uri::file("/main.tex")), Some(()));
    let list = found.get_vec("file:///main.tex").unwrap();
    assert_eq!(list.len(), 2);
    assert_eq!(list[0].message, "kept");
    assert_eq!(list[1].code, Some(5));
}

#[test]
fn published_diagnostics_are_the_static_ones_then_the_external_ones() {
    let mut workspace = Storage::new();
    workspace.open(broken("/a.bib"), WorkspaceSource::Client);
    workspace.open(broken("/b.bib"), WorkspaceSource::Client);
    let a = Uri::file("/a.bib");
    let b = Uri::file("/b.bib");
    let lint = |n: u32| Diagnostic {
        range: Range::new_simple(n, 0, n, 1),
        severity: DiagnosticSeverity::Warning,
        code: Some(n as i32),
        source: "chktex".to_string(),
        message: format!("lint {}", n),
    };
    let key = error(Range::new_simple(0, 2, 0, 3), 5, "Expecting a key");

    let mut manager = DiagnosticsManager::new();
    assert!(manager.publish(&a).is_empty());
    manager.update_chktex(&a, vec![lint(1), lint(2), lint(1)]);
    assert_eq!(manager.publish(&a), vec![lint(1), lint(2), lint(1)]);
    manager.update_static(&workspace, &a);
    assert_eq!(manager.publish(&a), vec![key.clone(), lint(1), lint(2), lint(1)]);
    assert!(manager.publish(&b).is_empty());

    // The latest list takes the place of the one before.
    manager.update_static(&workspace, &a);
    manager.update_chktex(&a, vec![lint(3)]);
    assert_eq!(manager.publish(&a), vec![key.clone(), lint(3)]);
    manager.update_chktex(&b, vec![lint(4)]);
    assert_eq!(manager.publish(&b), vec![lint(4)]);
    assert_eq!(manager.publish(&a), vec![key.clone(), lint(3)]);

    workspace.open(latex_document("/a.bib"), WorkspaceSource::Client);
    manager.update_static(&workspace, &a);
    manager.update_chktex(&a, vec![]);
    assert!(manager.publish(&a).is_empty());
    assert_eq!(key.duplicate(), key);
}

fn keys_and_payloads(messages: &[Waiting<u32>]) -> Vec<(&str, u32)> {
    messages.iter().map(|w| (w.key.as_str(), w.payload)).collect()
}

#[test]
fn a_burst_runs_once_with_the_latest_payload() {
    let mut debouncer: Debouncer<u32> = Debouncer::new(300);
    assert_eq!(debouncer.next_due(), None);
    let mut acted = Vec::new();
    for (i, now) in [1000u64, 1100, 1399, 1698].into_iter().enumerate() {
        acted.extend(debouncer.take_due(now));
        debouncer.submit(now, "a".to_string(), i as u32);
    }
    assert!(acted.is_empty());
    assert_eq!(debouncer.next_due(), Some(1998));
    assert!(debouncer.take_due(1997).is_empty());
    let due = debouncer.take_due(1998);
    assert_eq!(keys_and_payloads(&due), vec![("a", 3)]);
    assert!(debouncer.take_due(5000).is_empty());
    assert_eq!(debouncer.next_due(), None);
}

#[test]
fn documents_are_debounced_apart() {
    let mut debouncer: Debouncer<u32> = Debouncer::new(100);
    debouncer.submit(0, "a".to_string(), 1);
    debouncer.submit(10, "b".to_string(), 2);
    debouncer.submit(50, "a".to_string(), 3);
    debouncer.submit(60, "c".to_string(), 4);
    assert_eq!(debouncer.next_due(), Some(110));
    let due = debouncer.take_due(150);
    assert_eq!(keys_and_payloads(&due), vec![("b", 2), ("a", 3)]);
    assert_eq!(keys_and_payloads(&debouncer.waiting), vec![("c", 4)]);
    // A message after the window has passed runs on its own.
    debouncer.submit(200, "a".to_string(), 5);
    assert_eq!(keys_and_payloads(&debouncer.take_due(300)), vec![("c", 4), ("a", 5)]);
}

#[test]
fn shutdown_hands_out_all_that_waits() {
    let mut debouncer: Debouncer<u32> = Debouncer::new(u64::MAX);
    debouncer.submit(5, "a".to_string(), 1);
    debouncer.submit(6, "b".to_string(), 2);
    assert_eq!(debouncer.next_due(), Some(u64::MAX));
    assert!(debouncer.take_due(u64::MAX - 1).is_empty());
    // The window has not passed at the last time that the clock reaches.
    assert!(debouncer.take_due(u64::MAX).is_empty());
    assert_eq!(debouncer.waiting[0].due, 5 + u64::MAX as u128);
    let all = debouncer.shutdown();
    assert_eq!(keys_and_payloads(&all), vec![("a", 1), ("b", 2)]);
    assert!(debouncer.waiting.is_empty());
    assert!(debouncer.shutdown().is_empty());
}

#[test]
fn a_burst_at_the_end_of_time_is_acted_on_once() {
    let mut debouncer: Debouncer<u32> = Debouncer::new(10);
    let mut acted = Vec::new();
    for (now, payload) in [(u64::MAX - 12, 1), (u64::MAX - 5, 2), (u64::MAX, 3)] {
        acted.extend(debouncer.take_due(now));
        debouncer.submit(now, "a".to_string(), payload);
    }
    assert!(acted.is_empty());
    assert!(debouncer.take_due(u64::MAX).is_empty());
    assert_eq!(debouncer.next_due(), Some(u64::MAX));
    assert_eq!(keys_and_payloads(&debouncer.shutdown()), vec![("a", 3)]);

    let mut debouncer: Debouncer<u32> = Debouncer::new(10);
    for (now, payload) in [(u64::MAX - 30, 1), (u64::MAX - 25, 2), (u64::MAX - 16, 3)] {
        acted.extend(debouncer.take_due(now));
        debouncer.submit(now, "a".to_string(), payload);
    }
    assert!(acted.is_empty());
    assert!(debouncer.take_due(u64::MAX - 7).is_empty());
    assert_eq!(keys_and_payloads(&debouncer.take_due(u64::MAX - 6)), vec![("a", 3)]);
    assert!(debouncer.take_due(u64::MAX).is_empty());
}
