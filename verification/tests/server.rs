use std::sync::Arc;

use texlab::diagnostics::DiagnosticsManager;
use texlab::document::{
    Document, DocumentData, DocumentLanguage, ExplicitLink, ExplicitLinkKind, LatexDocumentData,
    LatexExtras, Uri, WorkspaceSource,
};
use texlab::latex::SyntaxKind as L;
use texlab::line_index::{Position, Range};
use texlab::protocol::{Diagnostic, DiagnosticSeverity};
use texlab::req_queue::{Pending, ReqQueue, RequestId};
use texlab::server::{
    build_result, cancel_response, changed_text, finish_request, forward_search_result,
    merge_all_text_changes, merge_text, publish_diagnostics, reparse_all, Action, BuildStatus, ChktexOptions,
    ConfigurationAction, ErrorCode, ForwardSearchStatus, Message, NotificationKind, Options,
    RequestKind, Response, ResponseError, Server, TextDocumentContentChangeEvent,
    TextDocumentSyncKind,
};
use texlab::syntax::{TextRange, TreeBuilder};
use texlab::workspace::{Storage, Workspace};

type TestServer = Server<Storage, &'static str, u32>;

fn server() -> TestServer {
    Server::with_connection(Storage::new(), false)
}

fn document(path: &str, text: &str, includes: &[&str]) -> Arc<Document> {
    let mut builder = TreeBuilder::new();
    builder.start_node(L::ROOT);
    if !text.is_empty() {
        builder.token(L::WORD, text);
    }
    builder.finish_node();
    let mut extras = LatexExtras::new();
    for target in includes {
        extras.explicit_links.push(ExplicitLink {
            stem: "x".to_string(),
            stem_range: TextRange::new(0, 0),
            targets: vec![Uri::file(target)],
            kind: ExplicitLinkKind::Latex,
        });
    }
    Arc::new(
        Document::new(
            Uri::file(path),
            text.to_string(),
            DocumentData::Latex(LatexDocumentData { root: builder.finish(), extras }),
        )
        .unwrap(),
    )
}

fn request(id: i32, method: &str) -> Message<&'static str> {
    Message::Request { id: RequestId::Number(id), method: method.to_string(), token: "token" }
}

#[test]
fn requests_go_to_their_handlers() {
    let mut server = server();
    let methods = [
        ("textDocument/documentLink", RequestKind::DocumentLink),
        ("textDocument/foldingRange", RequestKind::FoldingRange),
        ("textDocument/references", RequestKind::References),
        ("textDocument/hover", RequestKind::Hover),
        ("textDocument/documentSymbol", RequestKind::DocumentSymbol),
        ("workspace/symbol", RequestKind::WorkspaceSymbol),
        ("textDocument/completion", RequestKind::Completion),
        ("completionItem/resolve", RequestKind::ResolveCompletionItem),
        ("textDocument/definition", RequestKind::GotoDefinition),
        ("textDocument/prepareRename", RequestKind::PrepareRename),
        ("textDocument/rename", RequestKind::Rename),
        ("textDocument/documentHighlight", RequestKind::DocumentHighlight),
        ("textDocument/formatting", RequestKind::Formatting),
        ("textDocument/build", RequestKind::Build),
        ("textDocument/forwardSearch", RequestKind::ForwardSearch),
        ("textDocument/semanticTokens/range", RequestKind::SemanticTokensRange),
    ];
    for (i, (method, kind)) in methods.into_iter().enumerate() {
        assert_eq!(RequestKind::by_method(method), Some(kind));
        match server.process_message(request(i as i32, method)) {
            Action::Handle { id, request } => {
                assert_eq!(id, RequestId::Number(i as i32));
                assert_eq!(request, kind);
            }
            _ => panic!("no handler for {}", method),
        }
        assert!(server.req_queue.incoming.pending.contains(&RequestId::Number(i as i32)));
    }
    assert_eq!(server.req_queue.incoming.pending.len(), methods.len());
}

#[test]
fn unknown_requests_are_answered_with_an_error() {
    let mut server = server();
    match server.process_message(request(7, "textDocument/unknown")) {
        Action::Reject { response } => {
            assert_eq!(
                response,
                Response {
                    id: RequestId::Number(7),
                    result: None,
                    error: Some(ResponseError {
                        code: -32601,
                        message: "Unknown request".to_string()
                    }),
                }
            );
        }
        _ => panic!("expected an error"),
    }
    assert!(!server.req_queue.incoming.pending.contains(&RequestId::Number(7)));
    assert_eq!(RequestKind::by_method("shutdown"), None);
}

#[test]
fn shutdown_ends_the_loop() {
    let mut server = server();
    match server.process_message(request(1, "shutdown")) {
        Action::Shutdown { id, token } => {
            assert_eq!(id, RequestId::Number(1));
            assert_eq!(token, "token");
        }
        _ => panic!("expected the end"),
    }
    assert_eq!(server.req_queue.incoming.pending.len(), 0);
}

#[test]
fn notifications_go_to_their_handlers_or_are_passed_over() {
    let mut server = server();
    let methods = [
        ("$/cancelRequest", NotificationKind::Cancel),
        ("workspace/didChangeConfiguration", NotificationKind::DidChangeConfiguration),
        ("textDocument/didOpen", NotificationKind::DidOpenTextDocument),
        ("textDocument/didChange", NotificationKind::DidChangeTextDocument),
        ("textDocument/didSave", NotificationKind::DidSaveTextDocument),
        ("textDocument/didClose", NotificationKind::DidCloseTextDocument),
    ];
    for (method, kind) in methods {
        match server.process_message(Message::Notification { method: method.to_string() }) {
            Action::Notify { notification } => assert_eq!(notification, kind),
            _ => panic!("no handler for {}", method),
        }
    }
    assert!(matches!(
        server.process_message(Message::Notification { method: "initialized".to_string() }),
        Action::Ignore
    ));
    assert_eq!(server.req_queue.incoming.pending.len(), 0);
}

#[test]
fn answers_go_to_whoever_waits() {
    let mut server = server();
    let first = server.req_queue.outgoing.register(10).unwrap();
    let second = server.req_queue.outgoing.register(20).unwrap();
    assert_eq!(first, RequestId::Number(0));
    assert_eq!(second, RequestId::Number(1));
    match server.process_message(Message::Response { id: RequestId::Number(1) }) {
        Action::Resolve { id, sink } => {
            assert_eq!(id, RequestId::Number(1));
            assert_eq!(sink, 20);
        }
        _ => panic!("expected the sink"),
    }
    assert!(matches!(
        server.process_message(Message::Response { id: RequestId::Number(1) }),
        Action::Ignore
    ));
    assert!(matches!(
        server.process_message(Message::Response { id: RequestId::Text("x".to_string()) }),
        Action::Ignore
    ));
    assert!(server.req_queue.outgoing.pending.contains(&RequestId::Number(0)));
    let mut last: ReqQueue<(), u8> = ReqQueue::new();
    last.outgoing.next_id = i32::MAX;
    assert_eq!(last.outgoing.register(1), None);
    assert_eq!(last.outgoing.pending.len(), 0);
}

#[test]
fn a_request_is_cancelled_once_and_answered_once() {
    let mut server = server();
    let id = RequestId::Text("seven".to_string());
    server.register_incoming_request(id.duplicate(), "source");
    server.register_incoming_request(RequestId::Number(7), "other");
    assert_eq!(server.cancel(&id), Some("source"));
    assert_eq!(server.cancel(&id), None);
    assert_eq!(server.cancel(&RequestId::Text("eight".to_string())), None);
    assert!(server.req_queue.incoming.pending.contains(&RequestId::Number(7)));

    let cancelled: Response<u8> = finish_request(id.duplicate(), 5, true);
    assert_eq!(
        cancelled,
        Response {
            id: id.duplicate(),
            result: None,
            error: Some(ResponseError { code: -32800, message: "canceled by client".to_string() }),
        }
    );
    assert_eq!(cancelled, cancel_response(id.duplicate()));
    let done: Response<u8> = finish_request(id.duplicate(), 5, false);
    assert_eq!(done, Response { id: id.duplicate(), result: Some(5), error: None });
    assert_eq!(done, Response::new_ok(id, 5));
}

#[test]
fn request_tables_keep_one_entry_per_request() {
    let mut table: Pending<u8> = Pending::new();
    assert_eq!(table.len(), 0);
    table.insert(RequestId::Number(1), 10);
    table.insert(RequestId::Text("1".to_string()), 20);
    table.insert(RequestId::Number(1), 30);
    assert_eq!(table.len(), 2);
    assert!(table.contains(&RequestId::Number(1)));
    assert!(!table.contains(&RequestId::Number(2)));
    assert_eq!(table.remove(&RequestId::Number(1)), Some(30));
    assert_eq!(table.remove(&RequestId::Number(1)), None);
    assert_eq!(table.remove(&RequestId::Text("1".to_string())), Some(20));
    assert_eq!(table.len(), 0);
    assert!(RequestId::Number(1).same(&RequestId::Number(1)));
    assert!(!RequestId::Number(1).same(&RequestId::Text("1".to_string())));
}

#[test]
fn error_codes_have_their_numbers() {
    assert_eq!(ErrorCode::ParseError.code(), -32700);
    assert_eq!(ErrorCode::InvalidRequest.code(), -32600);
    assert_eq!(ErrorCode::MethodNotFound.code(), -32601);
    assert_eq!(ErrorCode::InvalidParams.code(), -32602);
    assert_eq!(ErrorCode::InternalError.code(), -32603);
    assert_eq!(ErrorCode::RequestCanceled.code(), -32800);
    assert_eq!(ErrorCode::ContentModified.code(), -32801);
    let error: Response<()> = TestServer::send_feature_error(RequestId::Number(3));
    assert_eq!(
        error.error,
        Some(ResponseError { code: -32603, message: "unknown document URI".to_string() })
    );
    assert_eq!(error.id, RequestId::Number(3));
    assert_eq!(error.result, None);
}

#[test]
fn capabilities_are_the_fixed_set() {
    let capabilities = server().capabilities();
    assert!(capabilities.open_close);
    assert_eq!(capabilities.change, TextDocumentSyncKind::Incremental);
    assert!(!capabilities.save_include_text);
    assert!(capabilities.document_link_provider);
    assert!(!capabilities.document_link_resolve_provider);
    assert!(capabilities.folding_range_provider);
    assert!(capabilities.definition_provider);
    assert!(capabilities.references_provider);
    assert!(capabilities.hover_provider);
    assert!(capabilities.completion_provider);
    assert!(capabilities.completion_resolve_provider);
    assert_eq!(capabilities.completion_trigger_characters, vec!["\\", "{", "}", "@", "/", " "]);
    assert!(capabilities.document_symbol_provider);
    assert!(capabilities.workspace_symbol_provider);
    assert!(capabilities.rename_provider);
    assert!(capabilities.rename_prepare_provider);
    assert!(capabilities.document_highlight_provider);
    assert!(capabilities.document_formatting_provider);
    assert!(capabilities.semantic_tokens_range_provider);
}

fn change(range: Option<Range>, text: &str) -> TextDocumentContentChangeEvent {
    TextDocumentContentChangeEvent { range, text: text.to_string() }
}

#[test]
fn changes_are_merged_in_the_order_in_which_they_came() {
    let mut server = server();
    let uri = Uri::file("/main.tex");
    server.did_open(document("/main.tex", "hello\nworld", &[]));
    let changes = vec![
        change(Some(Range::new_simple(0, 0, 0, 5)), "HELLO"),
        change(Some(Range::new_simple(1, 0, 1, 5)), "WORLD"),
    ];
    for change in &changes {
        let old = server.workspace.get(&uri).unwrap();
        let text = server.merge_text_changes(&old, change);
        server.workspace.open(document("/main.tex", &text, &[]), WorkspaceSource::Client);
    }
    assert_eq!(server.workspace.get(&uri).unwrap().text, "HELLO\nWORLD");
    assert_eq!(merge_all_text_changes("hello\nworld", &changes), Some("HELLO\nWORLD".to_string()));
    assert_eq!(merge_all_text_changes("hello", &vec![]), Some("hello".to_string()));
    assert_eq!(
        merge_all_text_changes("ab", &vec![change(None, "xyz"), change(Some(Range::new_simple(0, 1, 0, 2)), "")]),
        Some("xz".to_string())
    );
    assert_eq!(merge_text("ab", &change(Some(Range::new_simple(0, 1, 0, 1)), "-")), Some("a-b".to_string()));
}

#[test]
fn tools_that_cannot_run_have_a_result_all_the_same() {
    assert_eq!(build_result(None), BuildStatus::Failure);
    assert_eq!(build_result(Some(BuildStatus::Success)), BuildStatus::Success);
    assert_eq!(build_result(Some(BuildStatus::Cancelled)), BuildStatus::Cancelled);
    assert_eq!(forward_search_result(None), ForwardSearchStatus::Error);
    assert_eq!(
        forward_search_result(Some(ForwardSearchStatus::Unconfigured)),
        ForwardSearchStatus::Unconfigured
    );
}

#[test]
fn a_change_replaces_a_range_or_the_whole_text() {
    let server = server();
    let old = document("/main.tex", "a\u{1f600}b\nsecond line\n", &[]);
    let merged = |range, text| server.merge_text_changes(&old, &change(range, text));
    assert_eq!(merged(None, "new"), "new");
    assert_eq!(merged(Some(Range::new_simple(0, 1, 0, 3)), "-"), "a-b\nsecond line\n");
    assert_eq!(merged(Some(Range::new_simple(0, 4, 1, 0)), " "), "a\u{1f600}b second line\n");
    assert_eq!(merged(Some(Range::new_simple(1, 7, 1, 7)), "x"), "a\u{1f600}b\nsecond xline\n");
    assert_eq!(merged(Some(Range::new_simple(2, 0, 2, 0)), "end"), "a\u{1f600}b\nsecond line\nend");
    assert_eq!(merged(Some(Range::new_simple(9, 9, 9, 9)), "end"), "a\u{1f600}b\nsecond line\nend");
    assert_eq!(merged(Some(Range::new_simple(0, 0, 9, 0)), ""), "");
    // An end before the start keeps what lies between them twice.
    assert_eq!(merged(Some(Range::new_simple(1, 6, 1, 0)), "|"), "a\u{1f600}b\nsecond|second line\n");
}

#[test]
fn a_change_moves_the_position_to_the_first_line_that_differs() {
    assert_eq!(TestServer::changed_line("a\nb\nc", "a\nb\nX"), 2);
    assert_eq!(TestServer::changed_line("a\nb\nc", "X\nb\nc"), 0);
    assert_eq!(TestServer::changed_line("a\nb", "a\nb"), 0);
    assert_eq!(TestServer::changed_line("a\nb", "a\nb\nc"), 0);
    assert_eq!(TestServer::changed_line("", "x"), 0);
    assert_eq!(TestServer::changed_line("a\n\n\nb", "a\n\n\nc"), 3);
    assert_eq!(TestServer::changed_line("a\nb", "a\nbc"), 1);
    assert_eq!(TestServer::changed_line("a\nbc", "a\nb"), 1);
    assert_eq!(TestServer::changed_line("a\r\nb", "a\nb"), 0);
    assert_eq!(TestServer::changed_line("x\ny\r\nz", "x\ny\nZ"), 2);
    assert_eq!(TestServer::changed_line("a\nb\n", "a\nb"), 0);
    assert_eq!(TestServer::changed_line("a\nb\r", "a\nb"), 1);
    assert_eq!(TestServer::changed_line("a\n\nb", "a\nb"), 1);
    for (old, new) in [
        ("a\nb", "a\nbc"),
        ("one\ntwo\nthree", "one\nTWO\nthree"),
        ("same\n", "same"),
        ("", ""),
        ("a\r\nb\r\nc", "a\nb\nd"),
        ("k\n\n\n", "k\n\n\nl"),
    ] {
        let expected =
            old.lines().zip(new.lines()).position(|(a, b)| a != b).unwrap_or_default() as u32;
        assert_eq!(TestServer::changed_line(old, new), expected, "{:?} {:?}", old, new);
    }

    let mut server = server();
    let uri = Uri::file("/main.tex");
    server.did_open(document("/main.tex", "a\nb\nc", &[]));
    let last_line = vec![change(Some(Range::new_simple(2, 0, 2, 1)), "X")];
    let followup = server.did_change(&last_line, document("/main.tex", "a\nb\nX", &[])).unwrap();
    assert!(followup.lint.is_none());
    assert!(followup.build.is_none());
    assert_eq!(server.positions_by_uri.last().unwrap(), &(uri.duplicate(), Position::new(2, 0)));
    assert_eq!(server.workspace.get(&uri).unwrap().text, "a\nb\nX");
    // Typing at the end of the last line.
    let typed = vec![change(Some(Range::new_simple(2, 1, 2, 1)), "Y")];
    assert!(server.did_change(&typed, document("/main.tex", "a\nb\nXY", &[])).is_some());
    assert_eq!(server.positions_by_uri.last().unwrap(), &(uri.duplicate(), Position::new(2, 0)));
    // A snapshot that is not what the changes make is passed over.
    assert!(server.did_change(&typed, document("/main.tex", "a\nb\nXY", &[])).is_none());
    assert!(server.did_change(&vec![], document("/main.tex", "other", &[])).is_none());
    assert!(server.did_change(&vec![], document("/new.tex", "", &[])).is_none());
    assert_eq!(server.workspace.get(&uri).unwrap().text, "a\nb\nXY");
    assert_eq!(server.positions_by_uri.len(), 2);
    server.options.chktex.on_edit = true;
    server.options.chktex.on_open_and_save = false;
    let whole = vec![change(None, "new")];
    let followup = server.did_change(&whole, document("/main.tex", "new", &[])).unwrap();
    assert_eq!(followup.lint.unwrap().text, "new");
    assert_eq!(server.positions_by_uri.last().unwrap(), &(uri.duplicate(), Position::new(0, 0)));
    // A document that the workspace does not hold takes the last change whole.
    let unknown = Uri::file("/unknown.tex");
    let followup = server.did_change(&whole, document("/unknown.tex", "new", &[])).unwrap();
    assert_eq!(followup.lint.unwrap().uri, unknown);
    assert_eq!(server.positions_by_uri.last().unwrap(), &(unknown, Position::new(0, 0)));
    server.options.chktex.on_edit = false;
    server.options.chktex.on_open_and_save = true;
    let again = vec![change(None, "again")];
    let followup = server.did_change(&again, document("/main.tex", "again", &[])).unwrap();
    assert!(followup.lint.is_none());
    server.note_position(&Uri::file("/other.tex"), Position::new(4, 2));
    assert_eq!(server.positions_by_uri.len(), 6);
}

#[test]
fn opening_and_saving_lint_and_build_where_that_is_set() {
    let mut server = server();
    let uri = Uri::file("/main.tex");
    assert_eq!(TestServer::language_of_opened("bibtex"), DocumentLanguage::Bibtex);
    assert_eq!(TestServer::language_of_opened("latex"), DocumentLanguage::Latex);
    assert_eq!(TestServer::language_of_opened("markdown"), DocumentLanguage::Latex);

    let followup = server.did_open(document("/main.tex", "one", &["/child.tex"]));
    assert!(followup.lint.is_none());
    assert!(server.workspace.is_open(&uri));
    let nothing = server.did_save(&uri);
    assert!(nothing.lint.is_none() && nothing.build.is_none());

    server.options.chktex = ChktexOptions { on_open_and_save: true, on_edit: false };
    server.options.build.on_save = true;
    let followup = server.did_open(document("/main.tex", "two", &["/child.tex"]));
    assert_eq!(followup.lint.unwrap().text, "two");
    server.workspace.open(document("/child.tex", "", &[]), WorkspaceSource::Server);
    let saved = server.did_save(&uri);
    assert_eq!(saved.lint.unwrap().text, "two");
    let build = saved.build.unwrap();
    assert_eq!(build.params.text_document, uri);
    assert_eq!(build.subset.documents.len(), 2);
    assert_eq!(build.main_document().text, "two");
    let unknown = server.did_save(&Uri::file("/gone.tex"));
    assert!(unknown.lint.is_none() && unknown.build.is_none());

    assert!(server.feature_request(&Uri::file("/gone.tex"), ()).is_none());
    assert_eq!(server.feature_request(&uri, 5u8).unwrap().params, 5);
    server.did_close(&uri);
    assert!(server.workspace.documents().is_empty());
}

#[test]
fn settings_are_pulled_or_taken_in() {
    let mut server = server();
    let mut pushed = Options::new();
    pushed.aux_directory = Some("/build".to_string());
    pushed.build.on_save = true;
    assert_eq!(
        server.did_change_configuration(Some(pushed.clone())),
        ConfigurationAction::Reparse { watch: Some("/build".to_string()) }
    );
    assert_eq!(server.options, pushed);
    assert_eq!(
        server.did_change_configuration(None),
        ConfigurationAction::Reparse { watch: Some("/build".to_string()) }
    );
    server.pull_configuration = true;
    assert_eq!(
        server.did_change_configuration(Some(Options::new())),
        ConfigurationAction::PullAndReparse
    );
    assert_eq!(server.options, pushed);
    assert_eq!(
        Server::<Storage, (), ()>::with_connection(Storage::new(), true).did_change_configuration(None),
        ConfigurationAction::Reparse { watch: None }
    );
}

#[test]
fn diagnostics_are_published_for_every_document() {
    let mut workspace = Storage::new();
    workspace.open(document("/a.tex", "", &[]), WorkspaceSource::Client);
    workspace.open(document("/b.tex", "", &[]), WorkspaceSource::Client);
    let mut manager = DiagnosticsManager::new();
    let lint = Diagnostic {
        range: Range::new_simple(0, 0, 0, 1),
        severity: DiagnosticSeverity::Hint,
        code: None,
        source: "chktex".to_string(),
        message: "m".to_string(),
    };
    manager.update_chktex(&Uri::file("/b.tex"), vec![lint.clone()]);
    let published = publish_diagnostics(&workspace, &manager);
    assert_eq!(published.len(), 2);
    assert_eq!(published[0].uri, Uri::file("/a.tex"));
    assert!(published[0].diagnostics.is_empty());
    assert_eq!(published[1].uri, Uri::file("/b.tex"));
    assert_eq!(published[1].diagnostics, vec![lint]);

    reparse_all(&mut workspace, vec![document("/a.tex", "again", &[]), document("/c.tex", "", &[])]);
    assert_eq!(workspace.documents().len(), 3);
    assert_eq!(workspace.get(&Uri::file("/a.tex")).unwrap().text, "again");
    assert!(workspace.is_open(&Uri::file("/c.tex")));
}

#[test]
fn a_rejected_request_leaves_the_others_as_they_are() {
    let mut server = server();
    server.register_incoming_request(RequestId::Number(1), "first");
    server.register_incoming_request(RequestId::Number(7), "earlier");
    assert!(matches!(
        server.process_message(request(7, "textDocument/unknown")),
        Action::Reject { .. }
    ));
    assert!(!server.req_queue.incoming.pending.contains(&RequestId::Number(7)));
    assert_eq!(server.req_queue.incoming.pending.len(), 1);
    assert_eq!(server.cancel(&RequestId::Number(1)), Some("first"));
}

#[test]
fn a_cancelled_request_leaves_the_others_as_they_are() {
    let mut server = server();
    server.register_incoming_request(RequestId::Number(1), "one");
    server.register_incoming_request(RequestId::Text("1".to_string()), "text");
    server.register_incoming_request(RequestId::Number(2), "two");
    let waiting = server.req_queue.outgoing.register(40).unwrap();
    assert_eq!(server.cancel(&RequestId::Number(1)), Some("one"));
    assert_eq!(server.req_queue.incoming.pending.len(), 2);
    assert!(server.req_queue.outgoing.pending.contains(&waiting));
    assert_eq!(server.req_queue.outgoing.next_id, 1);
    assert_eq!(server.cancel(&RequestId::Number(2)), Some("two"));
    assert_eq!(server.cancel(&RequestId::Text("1".to_string())), Some("text"));
    assert_eq!(server.req_queue.incoming.pending.len(), 0);
    match server.process_message(Message::Response { id: waiting }) {
        Action::Resolve { sink, .. } => assert_eq!(sink, 40),
        _ => panic!("expected the sink"),
    }
}

#[test]
fn a_registered_request_takes_the_place_of_one_with_its_identifier() {
    let mut server = server();
    server.register_incoming_request(RequestId::Number(1), "old");
    server.register_incoming_request(RequestId::Number(2), "other");
    server.register_incoming_request(RequestId::Number(1), "new");
    assert_eq!(server.req_queue.incoming.pending.len(), 2);
    assert_eq!(server.cancel(&RequestId::Number(2)), Some("other"));
    assert_eq!(server.cancel(&RequestId::Number(1)), Some("new"));
}

#[test]
fn an_answered_request_leaves_the_table() {
    let mut server = server();
    assert!(matches!(
        server.process_message(request(3, "textDocument/hover")),
        Action::Handle { .. }
    ));
    assert!(matches!(
        server.process_message(request(4, "textDocument/rename")),
        Action::Handle { .. }
    ));
    let done: Response<u8> = server.complete_request(RequestId::Number(3), 5, false);
    assert_eq!(done, Response { id: RequestId::Number(3), result: Some(5), error: None });
    assert!(!server.req_queue.incoming.pending.contains(&RequestId::Number(3)));
    assert!(server.req_queue.incoming.pending.contains(&RequestId::Number(4)));
    assert_eq!(server.cancel(&RequestId::Number(3)), None);

    assert_eq!(server.cancel(&RequestId::Number(4)), Some("token"));
    let cancelled: Response<u8> = server.complete_request(RequestId::Number(4), 5, true);
    assert_eq!(cancelled, cancel_response(RequestId::Number(4)));
    assert_eq!(server.req_queue.incoming.pending.len(), 0);

    server.register_incoming_request(RequestId::Number(5), "five");
    server.register_incoming_request(RequestId::Number(6), "six");
    let failed: Response<()> = server.fail_request(RequestId::Number(5));
    assert_eq!(failed, TestServer::send_feature_error(RequestId::Number(5)));
    assert!(!server.req_queue.incoming.pending.contains(&RequestId::Number(5)));
    assert_eq!(server.cancel(&RequestId::Number(6)), Some("six"));
}

#[test]
fn the_text_after_changes_is_made_in_the_order_in_which_they_came() {
    let first = change(None, "xyz");
    let second = change(Some(Range::new_simple(0, 1, 0, 2)), "");
    assert_eq!(changed_text(Some("ab"), &vec![first, second]), Some("xz".to_string()));
    let first = change(None, "xyz");
    let second = change(Some(Range::new_simple(0, 1, 0, 2)), "");
    assert_eq!(changed_text(Some("ab"), &vec![second, first]), Some("xyz".to_string()));
    assert_eq!(
        changed_text(
            Some("hello\nworld"),
            &vec![
                change(Some(Range::new_simple(0, 0, 0, 5)), "HELLO"),
                change(Some(Range::new_simple(1, 0, 1, 5)), "WORLD"),
            ]
        ),
        Some("HELLO\nWORLD".to_string())
    );
    assert_eq!(changed_text(Some("same"), &vec![]), Some("same".to_string()));
}

#[test]
fn a_document_without_a_text_takes_the_text_of_the_last_change() {
    assert_eq!(changed_text(None, &vec![]), None);
    assert_eq!(changed_text(None, &vec![change(None, "only")]), Some("only".to_string()));
    assert_eq!(
        changed_text(
            None,
            &vec![change(None, "first"), change(Some(Range::new_simple(0, 0, 0, 1)), "last")]
        ),
        Some("last".to_string())
    );
}

#[test]
fn the_text_after_changes_starts_from_what_the_workspace_holds() {
    let mut server = server();
    let known = Uri::file("/main.tex");
    let unknown = Uri::file("/other.tex");
    server.did_open(document("/main.tex", "hello\nworld", &[]));
    let changes = vec![
        change(Some(Range::new_simple(0, 0, 0, 5)), "HELLO"),
        change(Some(Range::new_simple(1, 0, 1, 5)), "WORLD"),
    ];
    assert_eq!(server.text_after_changes(&known, &changes), Some("HELLO\nWORLD".to_string()));
    assert_eq!(server.text_after_changes(&unknown, &changes), Some("WORLD".to_string()));
    assert_eq!(server.text_after_changes(&known, &vec![]), Some("hello\nworld".to_string()));
    assert_eq!(server.text_after_changes(&unknown, &vec![]), None);

    let text = server.text_after_changes(&known, &changes).unwrap();
    let followup = server.did_change(&changes, document("/main.tex", &text, &[])).unwrap();
    assert!(followup.lint.is_none());
    assert_eq!(server.workspace.get(&known).unwrap().text, "HELLO\nWORLD");
    assert_eq!(server.positions_by_uri.last().unwrap(), &(known, Position::new(0, 0)));
}
