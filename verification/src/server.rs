//! What the server decides: which handler a message goes to, what is sent
//! back, and what follows from the editor's notifications. Carrying the
//! decisions out (reading and writing messages, running handlers, starting
//! tools) is left to the owner of the [`Server`].

use crate::diagnostics::DiagnosticsManager;
use crate::document::{share, Document, DocumentLanguage, Uri, UriView, WorkspaceSource};
use crate::features::FeatureRequest;
use crate::line_index::{char_index_at, Position, Range};
use crate::protocol::{diagnostic_views, Diagnostic};
use crate::req_queue::{ReqQueue, RequestId, RequestIdView};
use crate::text::{chars_of, lines, lines_of, opt_text, str_eq, string_of, texts};
use crate::workspace::{closure, documents_at, lookup, position, with_document, Workspace};
use std::sync::Arc;
use vstd::prelude::*;
use vstd::string::StringExecFns;

verus! {

/// How the documents of an editor are kept in step with the server.
#[derive(Debug, PartialEq, Eq, Clone, Copy, Structural)]
pub enum TextDocumentSyncKind {
    NoSync,
    Full,
    Incremental,
}

/// What the server tells the editor it can do.
#[derive(Debug, PartialEq, Eq, Clone)]
pub struct ServerCapabilities {
    /// The editor tells of documents it opens and closes.
    pub open_close: bool,
    pub change: TextDocumentSyncKind,
    /// Whether the editor sends the text along when a document is saved.
    pub save_include_text: bool,
    pub document_link_provider: bool,
    pub document_link_resolve_provider: bool,
    pub folding_range_provider: bool,
    pub definition_provider: bool,
    pub references_provider: bool,
    pub hover_provider: bool,
    pub completion_provider: bool,
    pub completion_resolve_provider: bool,
    pub completion_trigger_characters: Vec<String>,
    pub document_symbol_provider: bool,
    pub workspace_symbol_provider: bool,
    pub rename_provider: bool,
    pub rename_prepare_provider: bool,
    pub document_highlight_provider: bool,
    pub document_formatting_provider: bool,
    pub semantic_tokens_range_provider: bool,
}

/// The characters that make the editor ask for completions.
pub open spec fn trigger_characters() -> Seq<Seq<char>> {
    seq!["\\"@, "{"@, "}"@, "@"@, "/"@, " "@]
}

/// The codes of errors in answers.
#[derive(Debug, PartialEq, Eq, Clone, Copy, Structural)]
pub enum ErrorCode {
    ParseError,
    InvalidRequest,
    MethodNotFound,
    InvalidParams,
    InternalError,
    RequestCanceled,
    ContentModified,
}

impl ErrorCode {
    /// The number that stands for the code.
    pub open spec fn number(self) -> i32 {
        match self {
            ErrorCode::ParseError => -32700i32,
            ErrorCode::InvalidRequest => -32600i32,
            ErrorCode::MethodNotFound => -32601i32,
            ErrorCode::InvalidParams => -32602i32,
            ErrorCode::InternalError => -32603i32,
            ErrorCode::RequestCanceled => -32800i32,
            ErrorCode::ContentModified => -32801i32,
        }
    }

    /// The number that stands for the code.
    pub fn code(self) -> (r: i32)
        ensures
            r == self.number(),
    {
        match self {
            ErrorCode::ParseError => -32700,
            ErrorCode::InvalidRequest => -32600,
            ErrorCode::MethodNotFound => -32601,
            ErrorCode::InvalidParams => -32602,
            ErrorCode::InternalError => -32603,
            ErrorCode::RequestCanceled => -32800,
            ErrorCode::ContentModified => -32801,
        }
    }
}

/// Why a request was not answered with a result.
#[derive(Debug, PartialEq, Eq, Clone)]
pub struct ResponseError {
    pub code: i32,
    pub message: String,
}

/// The answer to a request: a result or an error, never both.
#[derive(Debug, PartialEq, Eq, Clone)]
pub struct Response<R> {
    pub id: RequestId,
    pub result: Option<R>,
    pub error: Option<ResponseError>,
}

impl<R> Response<R> {
    /// Whether the answer is the error with the given code and message for
    /// the given request.
    pub open spec fn is_error(&self, id: RequestIdView, code: ErrorCode, message: Seq<char>)
        -> bool {
        &&& self.id@ == id
        &&& self.result is None
        &&& self.error matches Some(e) && e.code == code.number() && e.message@ == message
    }

    /// The answer with a result.
    pub fn new_ok(id: RequestId, result: R) -> (r: Response<R>)
        ensures
            r.id == id,
            r.result == Some(result),
            r.error is None,
    {
        Response { id, result: Some(result), error: None }
    }

    /// The answer with an error.
    pub fn new_err(id: RequestId, code: ErrorCode, message: &str) -> (r: Response<R>)
        ensures
            r.id == id,
            r.is_error(id@, code, message@),
    {
        Response {
            id,
            result: None,
            error: Some(ResponseError { code: code.code(), message: String::from_str(message) }),
        }
    }
}

/// The answer to a request that was cancelled.
pub fn cancel_response<R>(id: RequestId) -> (r: Response<R>)
    ensures
        r.is_error(id@, ErrorCode::RequestCanceled, "canceled by client"@),
{
    Response::new_err(id, ErrorCode::RequestCanceled, "canceled by client")
}

/// The answer of a handler that is done: where the request was cancelled
/// meanwhile, the error that says so, whatever the handler found; else the
/// handler's result. There is one answer either way.
pub fn finish_request<R>(id: RequestId, result: R, canceled: bool) -> (r: Response<R>)
    ensures
        canceled ==> r.is_error(id@, ErrorCode::RequestCanceled, "canceled by client"@),
        !canceled ==> r.id == id && r.result == Some(result) && r.error is None,
{
    if canceled {
        cancel_response(id)
    } else {
        Response::new_ok(id, result)
    }
}

/// The requests that the server has a handler for.
#[derive(Debug, PartialEq, Eq, Clone, Copy, Structural)]
pub enum RequestKind {
    DocumentLink,
    FoldingRange,
    References,
    Hover,
    DocumentSymbol,
    WorkspaceSymbol,
    Completion,
    ResolveCompletionItem,
    GotoDefinition,
    PrepareRename,
    Rename,
    DocumentHighlight,
    Formatting,
    Build,
    ForwardSearch,
    SemanticTokensRange,
}

/// The notifications that the server acts on.
#[derive(Debug, PartialEq, Eq, Clone, Copy, Structural)]
pub enum NotificationKind {
    Cancel,
    DidChangeConfiguration,
    DidOpenTextDocument,
    DidChangeTextDocument,
    DidSaveTextDocument,
    DidCloseTextDocument,
}

impl RequestKind {
    /// The name of the request on the wire.
    pub open spec fn method(self) -> Seq<char> {
        match self {
            RequestKind::DocumentLink => "textDocument/documentLink"@,
            RequestKind::FoldingRange => "textDocument/foldingRange"@,
            RequestKind::References => "textDocument/references"@,
            RequestKind::Hover => "textDocument/hover"@,
            RequestKind::DocumentSymbol => "textDocument/documentSymbol"@,
            RequestKind::WorkspaceSymbol => "workspace/symbol"@,
            RequestKind::Completion => "textDocument/completion"@,
            RequestKind::ResolveCompletionItem => "completionItem/resolve"@,
            RequestKind::GotoDefinition => "textDocument/definition"@,
            RequestKind::PrepareRename => "textDocument/prepareRename"@,
            RequestKind::Rename => "textDocument/rename"@,
            RequestKind::DocumentHighlight => "textDocument/documentHighlight"@,
            RequestKind::Formatting => "textDocument/formatting"@,
            RequestKind::Build => "textDocument/build"@,
            RequestKind::ForwardSearch => "textDocument/forwardSearch"@,
            RequestKind::SemanticTokensRange => "textDocument/semanticTokens/range"@,
        }
    }

    /// The request with the given name, if the server has a handler for it.
    pub fn by_method(method: &str) -> (r: Option<RequestKind>)
        ensures
            r matches Some(kind) ==> kind.method() == method@,
            r is None ==> forall|kind: RequestKind| #[trigger] kind.method() != method@,
    {
        if str_eq(method, "textDocument/documentLink") {
            Some(RequestKind::DocumentLink)
        } else if str_eq(method, "textDocument/foldingRange") {
            Some(RequestKind::FoldingRange)
        } else if str_eq(method, "textDocument/references") {
            Some(RequestKind::References)
        } else if str_eq(method, "textDocument/hover") {
            Some(RequestKind::Hover)
        } else if str_eq(method, "textDocument/documentSymbol") {
            Some(RequestKind::DocumentSymbol)
        } else if str_eq(method, "workspace/symbol") {
            Some(RequestKind::WorkspaceSymbol)
        } else if str_eq(method, "textDocument/completion") {
            Some(RequestKind::Completion)
        } else if str_eq(method, "completionItem/resolve") {
            Some(RequestKind::ResolveCompletionItem)
        } else if str_eq(method, "textDocument/definition") {
            Some(RequestKind::GotoDefinition)
        } else if str_eq(method, "textDocument/prepareRename") {
            Some(RequestKind::PrepareRename)
        } else if str_eq(method, "textDocument/rename") {
            Some(RequestKind::Rename)
        } else if str_eq(method, "textDocument/documentHighlight") {
            Some(RequestKind::DocumentHighlight)
        } else if str_eq(method, "textDocument/formatting") {
            Some(RequestKind::Formatting)
        } else if str_eq(method, "textDocument/build") {
            Some(RequestKind::Build)
        } else if str_eq(method, "textDocument/forwardSearch") {
            Some(RequestKind::ForwardSearch)
        } else if str_eq(method, "textDocument/semanticTokens/range") {
            Some(RequestKind::SemanticTokensRange)
        } else {
            None
        }
    }
}

impl NotificationKind {
    /// The name of the notification on the wire.
    pub open spec fn method(self) -> Seq<char> {
        match self {
            NotificationKind::Cancel => "$/cancelRequest"@,
            NotificationKind::DidChangeConfiguration => "workspace/didChangeConfiguration"@,
            NotificationKind::DidOpenTextDocument => "textDocument/didOpen"@,
            NotificationKind::DidChangeTextDocument => "textDocument/didChange"@,
            NotificationKind::DidSaveTextDocument => "textDocument/didSave"@,
            NotificationKind::DidCloseTextDocument => "textDocument/didClose"@,
        }
    }

    /// The notification with the given name, if the server acts on it.
    pub fn by_method(method: &str) -> (r: Option<NotificationKind>)
        ensures
            r matches Some(kind) ==> kind.method() == method@,
            r is None ==> forall|kind: NotificationKind| #[trigger] kind.method() != method@,
    {
        if str_eq(method, "$/cancelRequest") {
            Some(NotificationKind::Cancel)
        } else if str_eq(method, "workspace/didChangeConfiguration") {
            Some(NotificationKind::DidChangeConfiguration)
        } else if str_eq(method, "textDocument/didOpen") {
            Some(NotificationKind::DidOpenTextDocument)
        } else if str_eq(method, "textDocument/didChange") {
            Some(NotificationKind::DidChangeTextDocument)
        } else if str_eq(method, "textDocument/didSave") {
            Some(NotificationKind::DidSaveTextDocument)
        } else if str_eq(method, "textDocument/didClose") {
            Some(NotificationKind::DidCloseTextDocument)
        } else {
            None
        }
    }
}

/// A message from the editor. `token` is what the owner keeps for a request
/// to be able to cancel it.
pub enum Message<I> {
    Request { id: RequestId, method: String, token: I },
    Notification { method: String },
    Response { id: RequestId },
}

/// What to do about a message.
pub enum Action<I, O> {
    /// The editor asked the server to shut down: acknowledge, and stop
    /// reading messages. The token was not taken in.
    Shutdown { id: RequestId, token: I },
    /// Run the handler of the request; its answer is made by
    /// [`finish_request`].
    Handle { id: RequestId, request: RequestKind },
    /// Send this answer: no handler is known for the request.
    Reject { response: Response<()> },
    /// Act on the notification.
    Notify { notification: NotificationKind },
    /// Pass over the message: a notification that the server does not act
    /// on, or an answer to a request that the server did not send.
    Ignore,
    /// Hand the editor's answer to whoever waits for it.
    Resolve { id: RequestId, sink: O },
}

/// When to run the linter.
#[derive(Debug, PartialEq, Eq, Clone, Copy, Structural)]
pub struct ChktexOptions {
    pub on_open_and_save: bool,
    pub on_edit: bool,
}

/// How to build a document.
#[derive(Debug, PartialEq, Eq, Clone)]
pub struct BuildOptions {
    pub on_save: bool,
    pub executable: Option<String>,
    pub args: Option<Vec<String>>,
    pub forward_search_after: bool,
}

/// What the editor has set.
#[derive(Debug, PartialEq, Eq, Clone)]
pub struct Options {
    /// The directory where the tools leave their auxiliary files; it is
    /// watched for changes.
    pub aux_directory: Option<String>,
    pub chktex: ChktexOptions,
    pub build: BuildOptions,
}

impl Options {
    /// The settings of an editor that has set nothing.
    pub fn new() -> (r: Options)
        ensures
            r.aux_directory is None,
            !r.chktex.on_open_and_save,
            !r.chktex.on_edit,
            !r.build.on_save,
            r.build.executable is None,
            r.build.args is None,
            !r.build.forward_search_after,
    {
        Options {
            aux_directory: None,
            chktex: ChktexOptions { on_open_and_save: false, on_edit: false },
            build: BuildOptions {
                on_save: false,
                executable: None,
                args: None,
                forward_search_after: false,
            },
        }
    }
}

/// How a build ended.
#[derive(Debug, PartialEq, Eq, Clone, Copy, Structural)]
pub enum BuildStatus {
    Success,
    Error,
    Failure,
    Cancelled,
}

/// How a search from the source to its place in the output ended.
#[derive(Debug, PartialEq, Eq, Clone, Copy, Structural)]
pub enum ForwardSearchStatus {
    Success,
    Error,
    Failure,
    Unconfigured,
}

/// The result of a request to build: how the build ended, or a failure where
/// it could not be run at all.
pub fn build_result(outcome: Option<BuildStatus>) -> (r: BuildStatus)
    ensures
        r == (match outcome {
            Some(status) => status,
            None => BuildStatus::Failure,
        }),
{
    match outcome {
        Some(status) => status,
        None => BuildStatus::Failure,
    }
}

/// The result of a request to search forward: how the search ended, or an
/// error where it could not be run at all.
pub fn forward_search_result(outcome: Option<ForwardSearchStatus>) -> (r: ForwardSearchStatus)
    ensures
        r == (match outcome {
            Some(status) => status,
            None => ForwardSearchStatus::Error,
        }),
{
    match outcome {
        Some(status) => status,
        None => ForwardSearchStatus::Error,
    }
}

/// What a request to build carries.
pub struct BuildParams {
    pub text_document: Uri,
}

/// A change to the text of a document: the text at `range` becomes `text`;
/// without a range, the whole text does.
pub struct TextDocumentContentChangeEvent {
    pub range: Option<Range>,
    pub text: String,
}

/// The text after a change.
pub open spec fn merged_text(old_text: Seq<char>, range: Option<Range>, text: Seq<char>) -> Seq<
    char,
> {
    match range {
        Some(range) => old_text.take(char_index_at(old_text, range.start)) + text + old_text.skip(
            char_index_at(old_text, range.end),
        ),
        None => text,
    }
}

/// The text after each of the first `k` changes was made in turn.
pub open spec fn merged_all(
    old_text: Seq<char>,
    changes: Seq<TextDocumentContentChangeEvent>,
    k: int,
) -> Seq<char>
    decreases k,
{
    if k <= 0 {
        old_text
    } else {
        merged_text(
            merged_all(old_text, changes, k - 1),
            changes[k - 1].range,
            changes[k - 1].text@,
        )
    }
}

/// Whether a change can be made in a text: a change with a range needs the
/// text to be at most `u32::MAX` bytes long.
pub open spec fn can_merge(old_text: Seq<char>, range: Option<Range>) -> bool {
    range is None || crate::text::utf8_len(old_text) <= u32::MAX
}

/// Whether each of the first `k` changes can be made in turn.
pub open spec fn can_merge_all(
    old_text: Seq<char>,
    changes: Seq<TextDocumentContentChangeEvent>,
    k: int,
) -> bool
    decreases k,
{
    k <= 0 || (can_merge_all(old_text, changes, k - 1) && can_merge(
        merged_all(old_text, changes, k - 1),
        changes[k - 1].range,
    ))
}

/// The text after a change; `None` where the change cannot be made.
pub fn merge_text(old_text: &str, change: &TextDocumentContentChangeEvent) -> (r: Option<String>)
    ensures
        r is Some <==> can_merge(old_text@, change.range),
        r matches Some(new_text) ==> new_text@ == merged_text(
            old_text@,
            change.range,
            change.text@,
        ),
{
    match change.range {
        Some(range) => {
            let index = match crate::line_index::LineIndex::new(old_text) {
                Some(index) => index,
                None => {
                    return None;
                },
            };
            let chars = chars_of(old_text);
            let start = index.locate(range.start).0;
            let end = index.locate(range.end).0;
            let mut new_text = string_of(&chars, 0, start);
            new_text.append(change.text.as_str());
            let rest = string_of(&chars, end, chars.len());
            new_text.append(rest.as_str());
            proof {
                assert(chars@.subrange(0, start as int) =~= old_text@.take(start as int));
                assert(chars@.subrange(end as int, chars.len() as int) =~= old_text@.skip(
                    end as int,
                ));
            }
            Some(new_text)
        },
        None => Some(change.text.clone()),
    }
}

/// The text after each of the changes was made in turn, in the order in
/// which they came; `None` where one of them cannot be made.
pub fn merge_all_text_changes(old_text: &str, changes: &Vec<TextDocumentContentChangeEvent>) -> (r:
    Option<String>)
    ensures
        r is Some <==> can_merge_all(old_text@, changes@, changes.len() as int),
        r matches Some(new_text) ==> new_text@ == merged_all(
            old_text@,
            changes@,
            changes.len() as int,
        ),
{
    let mut text = old_text.to_owned();
    let mut k: usize = 0;
    while k < changes.len()
        invariant
            k <= changes.len(),
            can_merge_all(old_text@, changes@, k as int),
            text@ == merged_all(old_text@, changes@, k as int),
        decreases changes.len() - k,
    {
        match merge_text(text.as_str(), &changes[k]) {
            Some(next) => {
                text = next;
            },
            None => {
                proof {
                    lemma_cannot_merge_later(old_text@, changes@, k + 1, changes.len() as int);
                }
                return None;
            },
        }
        k += 1;
    }
    Some(text)
}

/// The text that a document has after the editor's changes, given the text
/// that it had (`None` for a document that the workspace does not hold).
///
/// On a text the changes are made in turn, in the order in which they came.
/// For a document without a text, the text of the last change is taken
/// whole. `None` where one of the changes cannot be made, and where a
/// document without a text comes with no change at all.
pub open spec fn text_after(
    old_text: Option<Seq<char>>,
    changes: Seq<TextDocumentContentChangeEvent>,
) -> Option<Seq<char>> {
    match old_text {
        Some(text) => if can_merge_all(text, changes, changes.len() as int) {
            Some(merged_all(text, changes, changes.len() as int))
        } else {
            None
        },
        None => if changes.len() > 0 {
            Some(changes.last().text@)
        } else {
            None
        },
    }
}

/// The text that a document has after the editor's changes, given the text
/// that it had (`None` for a document that the workspace does not hold).
pub fn changed_text(old_text: Option<&str>, changes: &Vec<TextDocumentContentChangeEvent>) -> (r:
    Option<String>)
    ensures
        opt_text(r) == text_after(
            match old_text {
                Some(text) => Some(text@),
                None => None,
            },
            changes@,
        ),
{
    match old_text {
        Some(text) => merge_all_text_changes(text, changes),
        None => if changes.len() > 0 {
            Some(changes[changes.len() - 1].text.clone())
        } else {
            None
        },
    }
}

/// Where the first `k` changes cannot all be made, neither can more.
proof fn lemma_cannot_merge_later(
    old_text: Seq<char>,
    changes: Seq<TextDocumentContentChangeEvent>,
    k: int,
    n: int,
)
    requires
        0 <= k <= n,
        !can_merge_all(old_text, changes, k),
    ensures
        !can_merge_all(old_text, changes, n),
    decreases n - k,
{
    if k < n {
        lemma_cannot_merge_later(old_text, changes, k, n - 1);
    }
}

/// The index of the first line from `k` on at which two lists of lines
/// differ; `None` where they agree as far as the shorter goes.
pub open spec fn first_unlike(a: Seq<Seq<char>>, b: Seq<Seq<char>>, k: int) -> Option<int>
    decreases a.len() - k,
{
    if k < 0 || k >= a.len() || k >= b.len() {
        None
    } else if a[k] != b[k] {
        Some(k)
    } else {
        first_unlike(a, b, k + 1)
    }
}

/// What [`first_unlike`] gives is the least index of a line that the two
/// lists both have and at which they differ.
pub proof fn lemma_first_unlike(a: Seq<Seq<char>>, b: Seq<Seq<char>>, k: int)
    requires
        0 <= k,
    ensures
        match first_unlike(a, b, k) {
            Some(i) => k <= i < a.len() && i < b.len() && a[i] != b[i] && forall|j: int|
                k <= j < i ==> a[j] == b[j],
            None => forall|j: int| k <= j < a.len() && j < b.len() ==> a[j] == b[j],
        },
    decreases a.len() - k,
{
    if k < a.len() && k < b.len() && a[k] == b[k] {
        lemma_first_unlike(a, b, k + 1);
    }
}

/// The number of the first line at which two texts differ, the lines of
/// each counted from 0 and compared in pairs: the first with the first, and
/// so on, as far as the text with fewer lines goes. 0 where no pair differs.
pub open spec fn first_changed_line(old_text: Seq<char>, new_text: Seq<char>) -> nat {
    match first_unlike(lines_of(old_text), lines_of(new_text), 0) {
        Some(i) => i as nat,
        None => 0,
    }
}

/// The line that is noted after a change: the first line at which the old
/// and the new text differ, cut to 32 bits; 0 where there was no old text.
pub open spec fn changed_line_of(old_text: Option<Seq<char>>, new_text: Seq<char>) -> u32 {
    match old_text {
        Some(text) => (first_changed_line(text, new_text) % 0x1_0000_0000) as u32,
        None => 0,
    }
}

/// What follows from a notification that a document was opened, changed or
/// saved.
pub struct Followup<P> {
    /// The document to run the linter on, if any.
    pub lint: Option<Arc<Document>>,
    /// The request to build with, if any.
    pub build: Option<FeatureRequest<P>>,
}

/// What to do about a change of the settings.
#[derive(Debug, PartialEq, Eq, Clone)]
pub enum ConfigurationAction {
    /// Ask the editor for the settings, then read all documents anew.
    PullAndReparse,
    /// The settings were taken in; watch the directory, if one is given,
    /// and read all documents anew.
    Reparse { watch: Option<String> },
}

/// The diagnostics to show for one document.
pub struct PublishDiagnosticsParams {
    pub uri: Uri,
    pub diagnostics: Vec<Diagnostic>,
}

/// The state of the server.
pub struct Server<W, I, O> {
    pub workspace: W,
    pub req_queue: ReqQueue<I, O>,
    pub options: Options,
    /// Whether the editor lets the server ask for its settings.
    pub pull_configuration: bool,
    pub load_resolver: bool,
    /// The position in each document that the editor was last at.
    pub positions_by_uri: Vec<(Uri, Position)>,
}

/// The position noted for a document among the first `k` entries; of two
/// entries for one document the later counts.
pub open spec fn noted_position(entries: Seq<(Uri, Position)>, k: int, uri: UriView) -> Option<
    Position,
>
    decreases k,
{
    if k <= 0 || k > entries.len() {
        None
    } else if entries[k - 1].0@ == uri {
        Some(entries[k - 1].1)
    } else {
        noted_position(entries, k - 1, uri)
    }
}

impl<W: Workspace, I, O> Server<W, I, O> {
    /// What holds of a server between calls.
    pub open spec fn inv(&self) -> bool {
        self.workspace.inv() && self.req_queue.inv()
    }

    /// The requests of the editor that are under way, each with what is
    /// kept for it.
    pub open spec fn incoming(&self) -> Map<RequestIdView, I> {
        self.req_queue.incoming.pending.table()
    }

    /// The requests to the editor that are under way, each with what is
    /// kept for it.
    pub open spec fn outgoing(&self) -> Map<RequestIdView, O> {
        self.req_queue.outgoing.pending.table()
    }

    /// The state but for the requests of the editor: the workspace, the
    /// requests to the editor with the next number, the settings, and the
    /// positions.
    pub open spec fn apart_from_incoming(&self) -> (
        W,
        crate::req_queue::Outgoing<O>,
        Options,
        bool,
        bool,
        Seq<(Uri, Position)>,
    ) {
        (
            self.workspace,
            self.req_queue.outgoing,
            self.options,
            self.pull_configuration,
            self.load_resolver,
            self.positions_by_uri@,
        )
    }

    /// The state but for the requests to the editor: the workspace, the
    /// requests of the editor, the next number, the settings, and the
    /// positions.
    pub open spec fn apart_from_outgoing(&self) -> (
        W,
        crate::req_queue::Incoming<I>,
        i32,
        Options,
        bool,
        bool,
        Seq<(Uri, Position)>,
    ) {
        (
            self.workspace,
            self.req_queue.incoming,
            self.req_queue.outgoing.next_id,
            self.options,
            self.pull_configuration,
            self.load_resolver,
            self.positions_by_uri@,
        )
    }

    /// The state but for the workspace: the requests, the settings, and
    /// the positions.
    pub open spec fn apart_from_workspace(&self) -> (
        ReqQueue<I, O>,
        Options,
        bool,
        bool,
        Seq<(Uri, Position)>,
    ) {
        (
            self.req_queue,
            self.options,
            self.pull_configuration,
            self.load_resolver,
            self.positions_by_uri@,
        )
    }

    /// The state but for the positions: the workspace, the requests, and
    /// the settings.
    pub open spec fn apart_from_positions(&self) -> (W, ReqQueue<I, O>, Options, bool, bool) {
        (
            self.workspace,
            self.req_queue,
            self.options,
            self.pull_configuration,
            self.load_resolver,
        )
    }

    /// The position that the editor was last at in a document.
    pub open spec fn position_in(&self, uri: UriView) -> Option<Position> {
        noted_position(self.positions_by_uri@, self.positions_by_uri@.len() as int, uri)
    }

    /// A server over a workspace, with no request under way and nothing set.
    pub fn with_connection(workspace: W, load_resolver: bool) -> (r: Self)
        requires
            workspace.inv(),
        ensures
            r.inv(),
            r.workspace == workspace,
            r.load_resolver == load_resolver,
            !r.pull_configuration,
            r.options.aux_directory is None,
            !r.options.chktex.on_open_and_save && !r.options.chktex.on_edit,
            !r.options.build.on_save,
            r.positions_by_uri@.len() == 0,
            r.incoming() == Map::<RequestIdView, I>::empty(),
            r.outgoing() == Map::<RequestIdView, O>::empty(),
            r.req_queue.outgoing.next_id == 0,
    {
        Server {
            workspace,
            req_queue: ReqQueue::new(),
            options: Options::new(),
            pull_configuration: false,
            load_resolver,
            positions_by_uri: Vec::new(),
        }
    }

    /// What the server tells the editor it can do: it takes changes
    /// piecewise, wants no text on saving, and offers links (unresolved),
    /// folding, definitions, references, hovers, completions (resolved, with
    /// the trigger characters), symbols of a document and of the workspace,
    /// renaming (with preparation), highlights, formatting and semantic
    /// tokens for a range.
    pub fn capabilities(&self) -> (r: ServerCapabilities)
        ensures
            r.open_close,
            r.change == TextDocumentSyncKind::Incremental,
            !r.save_include_text,
            r.document_link_provider && !r.document_link_resolve_provider,
            r.folding_range_provider,
            r.definition_provider,
            r.references_provider,
            r.hover_provider,
            r.completion_provider && r.completion_resolve_provider,
            texts(r.completion_trigger_characters@) == trigger_characters(),
            r.document_symbol_provider,
            r.workspace_symbol_provider,
            r.rename_provider && r.rename_prepare_provider,
            r.document_highlight_provider,
            r.document_formatting_provider,
            r.semantic_tokens_range_provider,
    {
        let mut triggers: Vec<String> = Vec::new();
        triggers.push(String::from_str("\\"));
        triggers.push(String::from_str("{"));
        triggers.push(String::from_str("}"));
        triggers.push(String::from_str("@"));
        triggers.push(String::from_str("/"));
        triggers.push(String::from_str(" "));
        proof {
            assert(texts(triggers@) =~= trigger_characters());
        }
        ServerCapabilities {
            open_close: true,
            change: TextDocumentSyncKind::Incremental,
            save_include_text: false,
            document_link_provider: true,
            document_link_resolve_provider: false,
            folding_range_provider: true,
            definition_provider: true,
            references_provider: true,
            hover_provider: true,
            completion_provider: true,
            completion_resolve_provider: true,
            completion_trigger_characters: triggers,
            document_symbol_provider: true,
            workspace_symbol_provider: true,
            rename_provider: true,
            rename_prepare_provider: true,
            document_highlight_provider: true,
            document_formatting_provider: true,
            semantic_tokens_range_provider: true,
        }
    }

    /// Takes note of a request of the editor. The other requests stay as
    /// they are, and so does the rest of the state.
    pub fn register_incoming_request(&mut self, id: RequestId, token: I)
        requires
            old(self).inv(),
        ensures
            final(self).inv(),
            final(self).apart_from_incoming() == old(self).apart_from_incoming(),
            final(self).incoming() == old(self).incoming().insert(id@, token),
    {
        self.req_queue.incoming.register(id, token);
    }

    /// The editor cancels a request: the request leaves the table, and what
    /// was kept for it is handed out for its owner to cancel. `None` for a
    /// request that is not under way, so a request is cancelled at most
    /// once. The other requests stay as they are, and so does the rest of
    /// the state.
    pub fn cancel(&mut self, id: &RequestId) -> (r: Option<I>)
        requires
            old(self).inv(),
        ensures
            final(self).inv(),
            r == (if old(self).incoming().contains_key(id@) {
                Some(old(self).incoming()[id@])
            } else {
                None
            }),
            final(self).apart_from_incoming() == old(self).apart_from_incoming(),
            final(self).incoming() == old(self).incoming().remove(id@),
    {
        self.req_queue.incoming.complete(id)
    }

    /// A request was worked off: it leaves the table, and its answer is the
    /// result, or the error for a cancelled request where the request was
    /// cancelled meanwhile. The other requests stay as they are, and so
    /// does the rest of the state.
    pub fn complete_request<R>(&mut self, id: RequestId, result: R, canceled: bool) -> (r:
        Response<R>)
        requires
            old(self).inv(),
        ensures
            final(self).inv(),
            final(self).apart_from_incoming() == old(self).apart_from_incoming(),
            final(self).incoming() == old(self).incoming().remove(id@),
            r.id@ == id@,
            if canceled {
                r.is_error(id@, ErrorCode::RequestCanceled, "canceled by client"@)
            } else {
                r.result == Some(result) && r.error is None
            },
    {
        let _ = self.req_queue.incoming.complete(&id);
        finish_request(id, result, canceled)
    }

    /// A request about a document that the workspace does not hold was
    /// given up: it leaves the table, and its answer is the error that says
    /// so. The other requests stay as they are, and so does the rest of the
    /// state.
    pub fn fail_request<R>(&mut self, id: RequestId) -> (r: Response<R>)
        requires
            old(self).inv(),
        ensures
            final(self).inv(),
            final(self).apart_from_incoming() == old(self).apart_from_incoming(),
            final(self).incoming() == old(self).incoming().remove(id@),
            r.is_error(id@, ErrorCode::InternalError, "unknown document URI"@),
    {
        let _ = self.req_queue.incoming.complete(&id);
        Self::send_feature_error(id)
    }

    /// What to do about a message. A request to shut down ends the loop.
    /// Any other request is taken note of, and goes to its handler; where
    /// there is none it is answered with an error at once, and is under way
    /// no longer. A notification goes to its handler or is passed over. An
    /// answer goes to whoever waits for it, and the request that it answers
    /// leaves its table. The requests that the message is not about stay as
    /// they are, and so does the rest of the state.
    pub fn process_message(&mut self, message: Message<I>) -> (r: Action<I, O>)
        requires
            old(self).inv(),
        ensures
            final(self).inv(),
            match message {
                Message::Request { id, method, token } => if method@ == "shutdown"@ {
                    &&& r == (Action::<I, O>::Shutdown { id, token })
                    &&& *final(self) == *old(self)
                } else {
                    &&& final(self).apart_from_incoming() == old(self).apart_from_incoming()
                    &&& (exists|kind: RequestKind| kind.method() == method@) ==> {
                        &&& r matches Action::Handle { id: i, request } && i@ == id@
                            && request.method() == method@
                        &&& final(self).incoming() == old(self).incoming().insert(id@, token)
                    }
                    &&& !(exists|kind: RequestKind| kind.method() == method@) ==> {
                        &&& r matches Action::Reject { response } && response.is_error(
                            id@,
                            ErrorCode::MethodNotFound,
                            "Unknown request"@,
                        )
                        &&& final(self).incoming() == old(self).incoming().remove(id@)
                    }
                },
                Message::Notification { method } => {
                    &&& *final(self) == *old(self)
                    &&& (exists|kind: NotificationKind| kind.method() == method@) ==> (
                    r matches Action::Notify { notification } && notification.method() == method@)
                    &&& !(exists|kind: NotificationKind| kind.method() == method@) ==> r
                        is Ignore
                },
                Message::Response { id } => {
                    &&& final(self).apart_from_outgoing() == old(self).apart_from_outgoing()
                    &&& final(self).outgoing() == old(self).outgoing().remove(id@)
                    &&& old(self).outgoing().contains_key(id@) ==> (
                    r matches Action::Resolve { id: i, sink } && i == id && sink == old(
                        self,
                    ).outgoing()[id@])
                    &&& !old(self).outgoing().contains_key(id@) ==> r is Ignore
                },
            },
    {
        match message {
            Message::Request { id, method, token } => {
                if str_eq(method.as_str(), "shutdown") {
                    return Action::Shutdown { id, token };
                }
                match RequestKind::by_method(method.as_str()) {
                    Some(request) => {
                        self.req_queue.incoming.register(id.duplicate(), token);
                        Action::Handle { id, request }
                    },
                    None => {
                        let _ = self.req_queue.incoming.complete(&id);
                        Action::Reject {
                            response: Response::new_err(
                                id,
                                ErrorCode::MethodNotFound,
                                "Unknown request",
                            ),
                        }
                    },
                }
            },
            Message::Notification { method } => {
                match NotificationKind::by_method(method.as_str()) {
                    Some(notification) => Action::Notify { notification },
                    None => Action::Ignore,
                }
            },
            Message::Response { id } => {
                match self.req_queue.outgoing.complete(&id) {
                    Some(sink) => Action::Resolve { id, sink },
                    None => Action::Ignore,
                }
            },
        }
    }

    /// The language to read a document in that the editor opens: the one
    /// that the editor names, else LaTeX.
    pub fn language_of_opened(language_id: &str) -> (r: DocumentLanguage)
        ensures
            r == (match crate::document::language_of_id(language_id@) {
                Some(language) => language,
                None => DocumentLanguage::Latex,
            }),
    {
        match DocumentLanguage::by_language_id(language_id) {
            Some(language) => language,
            None => DocumentLanguage::Latex,
        }
    }

    /// The editor opened a document: the snapshot is taken in, and the
    /// linter is to run on it where that is set.
    pub fn did_open(&mut self, document: Arc<Document>) -> (r: Followup<BuildParams>)
        requires
            old(self).inv(),
        ensures
            final(self).inv(),
            final(self).apart_from_workspace() == old(self).apart_from_workspace(),
            final(self).workspace.documents_of() == with_document(
                old(self).workspace.documents_of(),
                document,
            ),
            final(self).workspace.opened_of() == old(self).workspace.opened_of().insert(
                document.uri@,
            ),
            r.build is None,
            r.lint == (if old(self).options.chktex.on_open_and_save {
                lookup(final(self).workspace.documents_of(), document.uri@)
            } else {
                None
            }),
    {
        let document = self.workspace.open(document, WorkspaceSource::Client);
        let lint = if self.options.chktex.on_open_and_save {
            self.workspace.get(&document.uri)
        } else {
            None
        };
        Followup { lint, build: None }
    }

    /// The text of a document after a change.
    pub fn merge_text_changes(
        &self,
        old_document: &Document,
        change: &TextDocumentContentChangeEvent,
    ) -> (new_text: String)
        requires
            old_document.well_formed(),
        ensures
            new_text@ == merged_text(old_document.text@, change.range, change.text@),
    {
        match change.range {
            Some(range) => {
                let chars = chars_of(old_document.text.as_str());
                let start = old_document.line_index.locate(range.start).0;
                let end = old_document.line_index.locate(range.end).0;
                let mut new_text = string_of(&chars, 0, start);
                new_text.append(change.text.as_str());
                let rest = string_of(&chars, end, chars.len());
                new_text.append(rest.as_str());
                proof {
                    assert(chars@.subrange(0, start as int) =~= old_document.text@.take(
                        start as int,
                    ));
                    assert(chars@.subrange(end as int, chars.len() as int)
                        =~= old_document.text@.skip(end as int));
                }
                new_text
            },
            None => change.text.clone(),
        }
    }

    /// The text that a document has after the editor's changes:
    /// [`text_after`] the changes, of the text that the workspace holds for
    /// the document.
    pub fn text_after_changes(
        &self,
        uri: &Uri,
        changes: &Vec<TextDocumentContentChangeEvent>,
    ) -> (r: Option<String>)
        requires
            self.inv(),
        ensures
            opt_text(r) == text_after(self.text_in(uri@), changes@),
    {
        match self.workspace.get(uri) {
            Some(document) => changed_text(Some(document.text.as_str()), changes),
            None => changed_text(None, changes),
        }
    }

    /// The number of the first line at which two texts differ, cut to 32
    /// bits; 0 where they differ in no line that both have.
    pub fn changed_line(old_text: &str, new_text: &str) -> (line: u32)
        ensures
            line == changed_line_of(Some(old_text@), new_text@),
    {
        let a = lines(old_text);
        let b = lines(new_text);
        let mut k: usize = 0;
        while k < a.len() && k < b.len()
            invariant
                texts(a@) == lines_of(old_text@),
                texts(b@) == lines_of(new_text@),
                first_unlike(texts(a@), texts(b@), k as int) == first_unlike(
                    texts(a@),
                    texts(b@),
                    0,
                ),
            decreases a.len() - k,
        {
            proof {
                assert(texts(a@)[k as int] == a@[k as int]@);
                assert(texts(b@)[k as int] == b@[k as int]@);
            }
            if !str_eq(a[k].as_str(), b[k].as_str()) {
                let cut: u64 = (k as u64) % 0x1_0000_0000;
                return cut as u32;
            }
            k += 1;
        }
        0
    }

    /// Takes note of the position that the editor is at in a document. The
    /// positions in the other documents stay as they are, and so does the
    /// rest of the state.
    pub fn note_position(&mut self, uri: &Uri, position: Position)
        ensures
            final(self).apart_from_positions() == old(self).apart_from_positions(),
            final(self).position_in(uri@) == Some(position),
            forall|other: UriView|
                other != uri@ ==> #[trigger] final(self).position_in(other) == old(
                    self,
                ).position_in(other),
    {
        let ghost before = self.positions_by_uri@;
        self.positions_by_uri.push((uri.duplicate(), position));
        proof {
            assert(self.positions_by_uri@.drop_last() =~= before);
            assert forall|other: UriView| other != uri@ implies #[trigger] self.position_in(other)
                == noted_position(before, before.len() as int, other) by {
                assert(forall|i: int| 0 <= i < before.len() ==> self.positions_by_uri@[i] == before[i]);
                lemma_noted_take(self.positions_by_uri@, before, before.len() as int, other);
            }
        }
    }

    /// The text of a document in the workspace, if the workspace holds it.
    pub open spec fn text_in(&self, uri: UriView) -> Option<Seq<char>> {
        match lookup(self.workspace.documents_of(), uri) {
            Some(document) => Some(document.text@),
            None => None,
        }
    }

    /// The editor changed a document, and this is the new snapshot. It is
    /// taken in where its text is what the changes make of the text that
    /// the workspace holds for the document; any other is passed over, and
    /// nothing changes.
    ///
    /// With the snapshot taken in, the editor's position is taken to be at
    /// the start of the first line at which the new text differs from the
    /// old (of the first line where there was no old text), and the linter
    /// is to run on the new snapshot where that is set for changes. The
    /// positions in the other documents stay as they are, and so do the
    /// requests and the settings.
    pub fn did_change(
        &mut self,
        changes: &Vec<TextDocumentContentChangeEvent>,
        new_document: Arc<Document>,
    ) -> (r: Option<Followup<BuildParams>>)
        requires
            old(self).inv(),
        ensures
            final(self).inv(),
            r is Some <==> text_after(old(self).text_in(new_document.uri@), changes@) == Some(
                new_document.text@,
            ),
            r is None ==> *final(self) == *old(self),
            r matches Some(followup) ==> {
                &&& final(self).req_queue == old(self).req_queue
                &&& final(self).options == old(self).options
                &&& final(self).pull_configuration == old(self).pull_configuration
                &&& final(self).load_resolver == old(self).load_resolver
                &&& final(self).workspace.documents_of() == with_document(
                    old(self).workspace.documents_of(),
                    new_document,
                )
                &&& final(self).workspace.opened_of() == old(self).workspace.opened_of().insert(
                    new_document.uri@,
                )
                &&& forall|other: UriView|
                    other != new_document.uri@ ==> #[trigger] final(self).position_in(other)
                        == old(self).position_in(other)
                &&& final(self).position_in(new_document.uri@) == Some(
                    Position {
                        line: changed_line_of(
                            old(self).text_in(new_document.uri@),
                            new_document.text@,
                        ),
                        character: 0,
                    },
                )
                &&& followup.build is None
                &&& followup.lint == (if old(self).options.chktex.on_edit {
                    lookup(final(self).workspace.documents_of(), new_document.uri@)
                } else {
                    None
                })
            },
    {
        let agrees = match self.text_after_changes(&new_document.uri, changes) {
            Some(text) => str_eq(text.as_str(), new_document.text.as_str()),
            None => false,
        };
        if !agrees {
            return None;
        }
        let line = match self.workspace.get(&new_document.uri) {
            Some(old_document) => Self::changed_line(
                old_document.text.as_str(),
                new_document.text.as_str(),
            ),
            None => 0,
        };
        let document = self.workspace.open(new_document, WorkspaceSource::Client);
        self.note_position(&document.uri, Position::new(line, 0));
        let lint = if self.options.chktex.on_edit {
            self.workspace.get(&document.uri)
        } else {
            None
        };
        Some(Followup { lint, build: None })
    }

    /// A request about a document, with the documents that belong to it;
    /// `None` where the workspace does not hold the document.
    pub fn feature_request<P>(&self, uri: &Uri, params: P) -> (r: Option<FeatureRequest<P>>)
        requires
            self.inv(),
        ensures
            r is Some <==> position(self.workspace.documents_of(), uri@) is Some,
            r matches Some(request) ==> request.params == params && request.well_formed()
                && request.subset.documents@ == documents_at(
                self.workspace.documents_of(),
                closure(
                    self.workspace.documents_of(),
                    position(self.workspace.documents_of(), uri@)->0,
                ),
            ),
    {
        match self.workspace.subset(uri) {
            Some(subset) => {
                proof {
                    crate::workspace::lemma_position_bounds(self.workspace.documents_of(), uri@, 0);
                    crate::workspace::lemma_subset_is_closure(
                        self.workspace.documents_of(),
                        position(self.workspace.documents_of(), uri@)->0,
                    );
                }
                Some(FeatureRequest { params, subset })
            },
            None => None,
        }
    }

    /// The answer to a request about a document that the workspace does not
    /// hold.
    pub fn send_feature_error<R>(id: RequestId) -> (r: Response<R>)
        ensures
            r.is_error(id@, ErrorCode::InternalError, "unknown document URI"@),
    {
        Response::new_err(id, ErrorCode::InternalError, "unknown document URI")
    }

    /// The editor saved a document: where the workspace holds it, it is to
    /// be built where that is set, and the linter is to run on it where that
    /// is set.
    pub fn did_save(&self, uri: &Uri) -> (r: Followup<BuildParams>)
        requires
            self.inv(),
        ensures
            r.build is Some <==> self.options.build.on_save && position(
                self.workspace.documents_of(),
                uri@,
            ) is Some,
            r.build matches Some(request) ==> request.params.text_document@ == uri@
                && request.well_formed() && request.subset.documents@ == documents_at(
                self.workspace.documents_of(),
                closure(
                    self.workspace.documents_of(),
                    position(self.workspace.documents_of(), uri@)->0,
                ),
            ),
            r.lint == (if self.options.chktex.on_open_and_save {
                lookup(self.workspace.documents_of(), uri@)
            } else {
                None
            }),
    {
        let build = if self.options.build.on_save {
            self.feature_request(uri, BuildParams { text_document: uri.duplicate() })
        } else {
            None
        };
        let lint = if self.options.chktex.on_open_and_save {
            self.workspace.get(uri)
        } else {
            None
        };
        Followup { lint, build }
    }

    /// The editor closed a document.
    pub fn did_close(&mut self, uri: &Uri)
        requires
            old(self).inv(),
        ensures
            final(self).inv(),
            final(self).apart_from_workspace() == old(self).apart_from_workspace(),
            final(self).workspace.opened_of() == old(self).workspace.opened_of().remove(uri@),
            final(self).workspace.documents_of() == crate::workspace::kept(
                old(self).workspace.documents_of(),
                old(self).workspace.opened_of().remove(uri@),
                old(self).workspace.documents_of().len() as int,
            ),
    {
        self.workspace.close(uri);
    }

    /// The editor's settings changed. An editor that lets the server ask is
    /// asked; else the settings that came with the notification, if they
    /// could be read, are taken in.
    pub fn did_change_configuration(&mut self, pushed: Option<Options>) -> (r: ConfigurationAction)
        ensures
            final(self).workspace == old(self).workspace,
            final(self).req_queue == old(self).req_queue,
            final(self).pull_configuration == old(self).pull_configuration,
            final(self).load_resolver == old(self).load_resolver,
            final(self).positions_by_uri@ == old(self).positions_by_uri@,
            final(self).options == (if old(self).pull_configuration {
                old(self).options
            } else {
                match pushed {
                    Some(options) => options,
                    None => old(self).options,
                }
            }),
            old(self).pull_configuration ==> r is PullAndReparse,
            !old(self).pull_configuration ==> (r matches ConfigurationAction::Reparse { watch }
                && opt_text(watch) == opt_text(final(self).options.aux_directory)),
    {
        if self.pull_configuration {
            ConfigurationAction::PullAndReparse
        } else {
            match pushed {
                Some(options) => {
                    self.options = options;
                },
                None => {},
            }
            let watch = crate::document::opt_str_clone(&self.options.aux_directory);
            ConfigurationAction::Reparse { watch }
        }
    }
}

/// Two lists that agree on their first `k` entries note the same among
/// them.
proof fn lemma_noted_take(a: Seq<(Uri, Position)>, b: Seq<(Uri, Position)>, k: int, uri: UriView)
    requires
        0 <= k <= a.len(),
        k <= b.len(),
        forall|i: int| 0 <= i < k ==> a[i] == b[i],
    ensures
        noted_position(a, k, uri) == noted_position(b, k, uri),
    decreases k,
{
    if k > 0 {
        lemma_noted_take(a, b, k - 1, uri);
    }
}

/// The diagnostics to show, for every document of the workspace: for each,
/// the latest of the analysis of structure, then the latest of the linter.
pub fn publish_diagnostics<W: Workspace>(workspace: &W, diag_manager: &DiagnosticsManager) -> (r:
    Vec<PublishDiagnosticsParams>)
    requires
        workspace.inv(),
    ensures
        r.len() == workspace.documents_of().len(),
        forall|i: int|
            0 <= i < r.len() ==> (#[trigger] r@[i]).uri@ == workspace.documents_of()[i].uri@
                && diagnostic_views(r@[i].diagnostics@) == diag_manager.static_of(
                workspace.documents_of()[i].uri@.text,
            ) + diag_manager.external_of(workspace.documents_of()[i].uri@.text),
{
    let documents = workspace.documents();
    let mut out: Vec<PublishDiagnosticsParams> = Vec::new();
    let mut i: usize = 0;
    while i < documents.len()
        invariant
            i <= documents.len(),
            out.len() == i,
            forall|k: int|
                0 <= k < i ==> (#[trigger] out@[k]).uri@ == documents@[k].uri@ && diagnostic_views(
                    out@[k].diagnostics@,
                ) == diag_manager.static_of(documents@[k].uri@.text) + diag_manager.external_of(
                    documents@[k].uri@.text,
                ),
        decreases documents.len() - i,
    {
        let diagnostics = diag_manager.publish(&documents[i].uri);
        out.push(PublishDiagnosticsParams { uri: documents[i].uri.duplicate(), diagnostics });
        i += 1;
    }
    out
}

/// Takes the documents in anew, each as one that the editor has open.
pub fn reparse_all<W: Workspace>(workspace: &mut W, documents: Vec<Arc<Document>>)
    requires
        old(workspace).inv(),
    ensures
        final(workspace).inv(),
        final(workspace).documents_of() == crate::workspace::open_all(
            old(workspace).documents_of(),
            documents@,
        ),
{
    let mut i: usize = 0;
    proof {
        assert(documents@.take(0) =~= Seq::empty());
    }
    while i < documents.len()
        invariant
            i <= documents.len(),
            workspace.inv(),
            workspace.documents_of() == crate::workspace::open_all(
                old(workspace).documents_of(),
                documents@.take(i as int),
            ),
        decreases documents.len() - i,
    {
        proof {
            assert(documents@.take(i + 1).drop_last() =~= documents@.take(i as int));
        }
        let _ = workspace.open(share(&documents[i]), WorkspaceSource::Client);
        i += 1;
    }
    proof {
        assert(documents@.take(documents.len() as int) =~= documents@);
    }
}

} // verus!
