//! The plain data this server exchanges with the editor.
//!
//! Each type holds exactly what the session logic fills in; the program that
//! owns the transport turns these values into wire messages. Every type with
//! text in it has a view that replaces each string by its characters, so that
//! contracts can say what a message holds.

use vstd::prelude::*;

verus! {

/// A place in a text document: a zero-based line and a zero-based offset into
/// that line, counted in UTF-16 code units.
#[derive(Clone, Copy, Debug, PartialEq, Eq, Structural)]
pub struct Position {
    pub line: u32,
    pub character: u32,
}

/// A stretch of a text document from `start` up to, but not including, `end`.
#[derive(Clone, Copy, Debug, PartialEq, Eq, Structural)]
pub struct Range {
    pub start: Position,
    pub end: Position,
}

/// How the editor is asked to report edits: the whole document each time, or
/// only what changed.
#[derive(Clone, Copy, Debug, PartialEq, Eq, Structural)]
pub enum TextDocumentSyncKind {
    Full,
    Incremental,
}

/// How text in a message is to be rendered.
#[derive(Clone, Copy, Debug, PartialEq, Eq, Structural)]
pub enum MarkupKind {
    PlainText,
    Markdown,
}

/// What a completion item stands for. Every item of this server is a note,
/// which editors show as a file.
#[derive(Clone, Copy, Debug, PartialEq, Eq, Structural)]
pub enum CompletionItemKind {
    File,
}

/// How serious a diagnostic is.
#[derive(Clone, Copy, Debug, PartialEq, Eq, Structural)]
pub enum DiagnosticSeverity {
    Error,
    Warning,
    Information,
    Hint,
}

/// How a message to the editor's log or user is classed.
#[derive(Clone, Copy, Debug, PartialEq, Eq, Structural)]
pub enum MessageType {
    Error,
    Warning,
    Info,
    Log,
}

/// The error codes JSON-RPC reserves for a failed request.
#[derive(Clone, Copy, Debug, PartialEq, Eq, Structural)]
pub enum ErrorCode {
    ParseError,
    InvalidRequest,
    MethodNotFound,
    InvalidParams,
    InternalError,
}

/// Text together with the way to render it.
#[derive(Clone, Debug, PartialEq, Eq)]
pub struct MarkupContent {
    pub kind: MarkupKind,
    pub value: String,
}

/// The view of [`MarkupContent`]: every text as its characters.
pub struct MarkupContentView {
    pub kind: MarkupKind,
    pub value: Seq<char>,
}

impl View for MarkupContent {
    type V = MarkupContentView;

    open spec fn view(&self) -> MarkupContentView {
        MarkupContentView { kind: self.kind, value: self.value@ }
    }
}

/// One entry of a completion list.
#[derive(Clone, Debug, PartialEq, Eq)]
pub struct CompletionItem {
    /// What the list shows.
    pub label: String,
    pub kind: CompletionItemKind,
    /// A line of detail beside the label, if there is any.
    pub detail: Option<String>,
    /// What the editor shows when the entry is selected.
    pub documentation: MarkupContent,
    /// What is inserted when the entry is chosen.
    pub insert_text: String,
}

/// The view of [`CompletionItem`]: every text as its characters.
pub struct CompletionItemView {
    pub label: Seq<char>,
    pub kind: CompletionItemKind,
    pub detail: Option<Seq<char>>,
    pub documentation: MarkupContentView,
    pub insert_text: Seq<char>,
}

impl View for CompletionItem {
    type V = CompletionItemView;

    open spec fn view(&self) -> CompletionItemView {
        CompletionItemView {
            label: self.label@,
            kind: self.kind,
            detail: self.detail.deep_view(),
            documentation: self.documentation@,
            insert_text: self.insert_text@,
        }
    }
}

impl DeepView for CompletionItem {
    type V = CompletionItemView;

    open spec fn deep_view(&self) -> CompletionItemView {
        self@
    }
}

/// A remark about a stretch of a document.
#[derive(Clone, Debug, PartialEq, Eq)]
pub struct Diagnostic {
    pub range: Range,
    pub severity: DiagnosticSeverity,
    /// Who makes the remark.
    pub source: String,
    pub message: String,
}

/// The view of [`Diagnostic`]: every text as its characters.
pub struct DiagnosticView {
    pub range: Range,
    pub severity: DiagnosticSeverity,
    pub source: Seq<char>,
    pub message: Seq<char>,
}

impl View for Diagnostic {
    type V = DiagnosticView;

    open spec fn view(&self) -> DiagnosticView {
        DiagnosticView {
            range: self.range,
            severity: self.severity,
            source: self.source@,
            message: self.message@,
        }
    }
}

impl DeepView for Diagnostic {
    type V = DiagnosticView;

    open spec fn deep_view(&self) -> DiagnosticView {
        self@
    }
}

/// A message for the editor's log.
#[derive(Clone, Debug, PartialEq, Eq)]
pub struct LogMessage {
    pub typ: MessageType,
    pub message: String,
}

/// The view of [`LogMessage`]: every text as its characters.
pub struct LogMessageView {
    pub typ: MessageType,
    pub message: Seq<char>,
}

impl View for LogMessage {
    type V = LogMessageView;

    open spec fn view(&self) -> LogMessageView {
        LogMessageView { typ: self.typ, message: self.message@ }
    }
}

impl DeepView for LogMessage {
    type V = LogMessageView;

    open spec fn deep_view(&self) -> LogMessageView {
        self@
    }
}

/// The error a failed request is answered with.
#[derive(Clone, Debug, PartialEq, Eq)]
pub struct ResponseError {
    pub code: ErrorCode,
    pub message: String,
}

/// The view of [`ResponseError`]: every text as its characters.
pub struct ResponseErrorView {
    pub code: ErrorCode,
    pub message: Seq<char>,
}

impl View for ResponseError {
    type V = ResponseErrorView;

    open spec fn view(&self) -> ResponseErrorView {
        ResponseErrorView { code: self.code, message: self.message@ }
    }
}

/// Who answers the handshake.
#[derive(Clone, Debug, PartialEq, Eq)]
pub struct ServerInfo {
    pub name: String,
    pub version: String,
}

/// The view of [`ServerInfo`]: every text as its characters.
pub struct ServerInfoView {
    pub name: Seq<char>,
    pub version: Seq<char>,
}

impl View for ServerInfo {
    type V = ServerInfoView;

    open spec fn view(&self) -> ServerInfoView {
        ServerInfoView { name: self.name@, version: self.version@ }
    }
}

/// What the server declares it can do.
#[derive(Clone, Debug, PartialEq, Eq)]
pub struct ServerCapabilities {
    /// How edits are to be reported.
    pub text_document_sync: TextDocumentSyncKind,
    /// Whether the editor is to report saves.
    pub save: bool,
    pub hover_provider: bool,
    /// Whether completion items are filled in by a second request.
    pub completion_resolve_provider: bool,
    /// The characters whose typing makes the editor ask for completion.
    pub completion_trigger_characters: Vec<String>,
    pub document_link_provider: bool,
    /// Whether document links are filled in by a second request.
    pub document_link_resolve_provider: bool,
}

/// The view of [`ServerCapabilities`]: every text as its characters.
pub struct ServerCapabilitiesView {
    pub text_document_sync: TextDocumentSyncKind,
    pub save: bool,
    pub hover_provider: bool,
    pub completion_resolve_provider: bool,
    pub completion_trigger_characters: Seq<Seq<char>>,
    pub document_link_provider: bool,
    pub document_link_resolve_provider: bool,
}

impl View for ServerCapabilities {
    type V = ServerCapabilitiesView;

    open spec fn view(&self) -> ServerCapabilitiesView {
        ServerCapabilitiesView {
            text_document_sync: self.text_document_sync,
            save: self.save,
            hover_provider: self.hover_provider,
            completion_resolve_provider: self.completion_resolve_provider,
            completion_trigger_characters: self.completion_trigger_characters.deep_view(),
            document_link_provider: self.document_link_provider,
            document_link_resolve_provider: self.document_link_resolve_provider,
        }
    }
}

/// The answer to a successful handshake.
#[derive(Clone, Debug, PartialEq, Eq)]
pub struct InitializeResult {
    pub server_info: ServerInfo,
    pub capabilities: ServerCapabilities,
}

/// The view of [`InitializeResult`]: every text as its characters.
pub struct InitializeResultView {
    pub server_info: ServerInfoView,
    pub capabilities: ServerCapabilitiesView,
}

impl View for InitializeResult {
    type V = InitializeResultView;

    open spec fn view(&self) -> InitializeResultView {
        InitializeResultView {
            server_info: self.server_info@,
            capabilities: self.capabilities@,
        }
    }
}

} // verus!
