//! The session: what the server remembers between editor events, and what
//! each event does to it.
//!
//! The program around this crate owns the transport and the indexing engine.
//! For each event it calls the method of [`Backend`] named after it; where an
//! event rebuilds the index, it runs the engine on [`Backend::root`] and hands
//! the outcome in. Methods that only read take `&self`, methods that change
//! the session take `&mut self`, so a reader/writer lock around the backend
//! gives each its kind of access.

use crate::error::Error;
use crate::lsp::{
    CompletionItem, CompletionItemKind, CompletionItemView, Diagnostic, DiagnosticSeverity,
    DiagnosticView, ErrorCode, InitializeResult, InitializeResultView, LogMessage, LogMessageView,
    MarkupContent, MarkupContentView, MarkupKind, MessageType, ResponseError, ResponseErrorView,
    ServerCapabilities, ServerCapabilitiesView, ServerInfo, ServerInfoView, TextDocumentSyncKind,
};
use crate::uri::{local_path, lossy_text, path_text, to_file_path};
use crate::utils::{lsp_range, range_to_lsp_range};
use crate::vault::{first_match, with_path, Index, InvalidLinkView, Note, NoteView};
use std::path::PathBuf;
use tower_lsp::lsp_types::Url;
use vstd::prelude::*;

verus! {

/// How the server decides that a completion request asks for note links.
#[derive(Clone, Copy, Debug, PartialEq, Eq, Structural)]
pub enum TriggerMode {
    /// Only by what was typed: the text since the last blank must be the
    /// marker that opens a link.
    TrackAndCompare,
    /// Also by what the editor says: a request that names the link-opening
    /// character as its trigger asks for note links, whatever was typed.
    Context,
}

/// What is fixed when the server starts.
#[derive(Clone, Debug, PartialEq, Eq)]
pub struct Settings {
    pub trigger_mode: TriggerMode,
    /// How the editor is asked to report edits.
    pub text_document_sync: TextDocumentSyncKind,
    /// The version the server announces in the handshake.
    pub version: String,
}

/// The view of [`Settings`]: every text as its characters.
pub struct SettingsView {
    pub trigger_mode: TriggerMode,
    pub text_document_sync: TextDocumentSyncKind,
    pub version: Seq<char>,
}

impl View for Settings {
    type V = SettingsView;

    open spec fn view(&self) -> SettingsView {
        SettingsView {
            trigger_mode: self.trigger_mode,
            text_document_sync: self.text_document_sync,
            version: self.version@,
        }
    }
}

/// What the server remembers between events.
#[derive(Debug)]
struct State {
    pending_token: String,
    root: Option<PathBuf>,
    index: Option<Index>,
}

/// What the server remembers between events, with every text as its
/// characters.
pub struct StateView {
    /// What was typed since the last blank.
    pub pending_token: Seq<char>,
    /// The directory of the vault, once the editor has named one.
    pub root: Option<PathBuf>,
    /// The notes of the vault, once they have been read.
    pub index: Option<Seq<(u64, NoteView)>>,
}

impl View for State {
    type V = StateView;

    closed spec fn view(&self) -> StateView {
        StateView {
            pending_token: self.pending_token@,
            root: self.root,
            index: self.index.deep_view(),
        }
    }
}

/// How far the session has come.
#[derive(Clone, Copy, Debug, PartialEq, Eq, Structural)]
pub enum Phase {
    /// No workspace yet.
    Uninitialized,
    /// A workspace, but no index of it yet.
    Initializing,
    /// An index to answer from.
    Ready,
}

impl StateView {
    /// The state of a server that has heard nothing yet.
    pub open spec fn initial() -> StateView {
        StateView { pending_token: Seq::empty(), root: None, index: None }
    }

    /// How far a session in this state has come.
    pub open spec fn phase(self) -> Phase {
        if self.index is Some {
            Phase::Ready
        } else if self.root is Some {
            Phase::Initializing
        } else {
            Phase::Uninitialized
        }
    }
}

/// The handler of the session's events, with the state it keeps.
#[derive(Debug)]
pub struct Backend {
    settings: Settings,
    state: State,
}

/// What a save leads to.
#[derive(Debug, PartialEq, Eq)]
pub enum SaveOutcome {
    /// Nothing to tell the editor.
    Quiet,
    /// The rebuild failed; this goes to the editor's log.
    Failed(LogMessage),
    /// These diagnostics are published for the saved document.
    Publish(Vec<Diagnostic>),
}

/// The view of [`SaveOutcome`]: every text as its characters.
pub enum SaveOutcomeView {
    Quiet,
    Failed(LogMessageView),
    Publish(Seq<DiagnosticView>),
}

impl View for SaveOutcome {
    type V = SaveOutcomeView;

    open spec fn view(&self) -> SaveOutcomeView {
        match self {
            SaveOutcome::Quiet => SaveOutcomeView::Quiet,
            SaveOutcome::Failed(line) => SaveOutcomeView::Failed(line@),
            SaveOutcome::Publish(found) => SaveOutcomeView::Publish(found.deep_view()),
        }
    }
}

/// The marker that opens a link to a note.
pub open spec fn open_link() -> Seq<char> {
    "[["@
}

/// The marker that closes a link to a note.
pub open spec fn close_link() -> Seq<char> {
    "]]"@
}

/// The character whose typing makes the editor ask for note links.
pub open spec fn link_trigger() -> Seq<char> {
    "["@
}

/// Whether `c` is blank: a space, a tab, a line feed or a carriage return.
pub open spec fn is_blank(c: char) -> bool {
    c == ' ' || c == '\t' || c == '\n' || c == '\r'
}

/// Whether a change ends the token being typed: it holds nothing but blanks.
/// The empty change is one of these.
pub open spec fn is_boundary(text: Seq<char>) -> bool {
    forall|i: int| 0 <= i < text.len() ==> is_blank(#[trigger] text[i])
}

/// The pending token after a change of `text`: empty after a boundary, else
/// longer by `text`.
pub open spec fn typed(pending_token: Seq<char>, text: Seq<char>) -> Seq<char> {
    if is_boundary(text) {
        Seq::empty()
    } else {
        pending_token + text
    }
}

/// Whether a completion request asks for note links: the pending token is
/// the opening marker, or, in context mode, the request names the
/// link-opening character as its trigger.
pub open spec fn triggered(
    mode: TriggerMode,
    pending_token: Seq<char>,
    trigger_character: Option<Seq<char>>,
) -> bool {
    pending_token == open_link() || (mode == TriggerMode::Context && trigger_character == Some(
        link_trigger(),
    ))
}

impl StateView {
    /// The state after a change event that carries `changes`: only the first
    /// of them counts.
    pub open spec fn after_change(self, changes: Seq<Seq<char>>) -> StateView {
        if changes.len() == 0 {
            self
        } else {
            StateView { pending_token: typed(self.pending_token, changes[0]), ..self }
        }
    }

    /// The state after `root` has been offered as the directory of the
    /// vault: it is taken if there is one.
    pub open spec fn after_open(self, root: Option<PathBuf>) -> StateView {
        match root {
            Some(path) => StateView { root: Some(path), ..self },
            None => self,
        }
    }

    /// The state after an index build that ended as `built`: a new index
    /// takes the place of the old one whole, a failure changes nothing.
    /// Without a workspace there is nothing an index could be of, and
    /// nothing changes either.
    pub open spec fn after_rebuild(
        self,
        built: Result<Seq<(u64, NoteView)>, Seq<char>>,
    ) -> StateView {
        match built {
            Ok(entries) => if self.root is Some {
                StateView { index: Some(entries), ..self }
            } else {
                self
            },
            Err(_) => self,
        }
    }

    /// Whether there is a workspace wherever there is an index.
    pub open spec fn consistent(self) -> bool {
        self.index is Some ==> self.root is Some
    }
}

/// The outcome of an index build as plain values: the entries of the new
/// index, or the cause of the failure.
pub open spec fn built_view(built: Result<Index, Error>) -> Result<
    Seq<(u64, NoteView)>,
    Seq<char>,
> {
    match built {
        Ok(index) => Ok(index@),
        Err(failure) => Err(failure@),
    }
}

/// The completion item that offers `note`.
pub open spec fn item_for(note: NoteView) -> CompletionItemView {
    CompletionItemView {
        label: note.title,
        kind: CompletionItemKind::File,
        detail: note.path,
        documentation: MarkupContentView { kind: MarkupKind::Markdown, value: note.content },
        insert_text: note.title + close_link(),
    }
}

/// One completion item for each entry, in the order of the entries.
pub open spec fn items_for(entries: Seq<(u64, NoteView)>) -> Seq<CompletionItemView> {
    Seq::new(entries.len(), |i: int| item_for(entries[i].1))
}

/// The answer to a completion request: nothing unless the request asks for
/// note links; else the items for the index, or none where there is no index.
pub open spec fn completion_response(
    settings: SettingsView,
    state: StateView,
    trigger_character: Option<Seq<char>>,
) -> Option<Seq<CompletionItemView>> {
    if triggered(settings.trigger_mode, state.pending_token, trigger_character) {
        match state.index {
            Some(entries) => Some(items_for(entries)),
            None => Some(Seq::empty()),
        }
    } else {
        None
    }
}

/// The warning about a link of a note with text `content` that leads nowhere.
pub open spec fn diagnostic_for(content: Seq<char>, link: InvalidLinkView) -> DiagnosticView {
    DiagnosticView {
        range: lsp_range(content, link.start, link.end),
        severity: DiagnosticSeverity::Warning,
        source: "mdzk"@,
        message: "Missing link destination: "@ + link.text,
    }
}

/// The warnings about `note`, one for each of its links that lead nowhere.
pub open spec fn diagnostics_for(note: NoteView) -> Seq<DiagnosticView> {
    Seq::new(
        note.invalid_internal_links.len(),
        |i: int| diagnostic_for(note.content, note.invalid_internal_links[i]),
    )
}

/// The line for the editor's log about a rebuild that failed for `cause`.
pub open spec fn rebuild_failed(cause: Seq<char>) -> LogMessageView {
    LogMessageView { typ: MessageType::Error, message: cause }
}

/// What is published for the document at `path` from `entries`: the warnings
/// about the first note read from that path, if there is one.
pub open spec fn published(entries: Seq<(u64, NoteView)>, path: Option<Seq<char>>) -> Option<
    Seq<DiagnosticView>,
> {
    match path {
        Some(path) => match first_match(entries, with_path(path), 0) {
            Some(k) => Some(diagnostics_for(entries[k].1)),
            None => None,
        },
        None => None,
    }
}

/// What a save of the document at `path` leads to in `state`, given the
/// outcome of the rebuild: nothing before a workspace is known; else a line
/// for the log if the rebuild failed, or what the new index has to publish
/// for the document.
pub open spec fn save_outcome(
    state: StateView,
    path: Option<Seq<char>>,
    rebuilt: Result<Seq<(u64, NoteView)>, Seq<char>>,
) -> SaveOutcomeView {
    if state.root is None {
        SaveOutcomeView::Quiet
    } else {
        match rebuilt {
            Err(cause) => SaveOutcomeView::Failed(rebuild_failed(cause)),
            Ok(entries) => match published(entries, path) {
                Some(found) => SaveOutcomeView::Publish(found),
                None => SaveOutcomeView::Quiet,
            },
        }
    }
}

/// What newly created files lead to in `state`, given the outcome of the
/// rebuild: a line for the log if there is a workspace and the rebuild
/// failed, else nothing.
pub open spec fn creation_report(
    state: StateView,
    rebuilt: Result<Seq<(u64, NoteView)>, Seq<char>>,
) -> Option<LogMessageView> {
    match rebuilt {
        Err(cause) => if state.root is Some {
            Some(rebuild_failed(cause))
        } else {
            None
        },
        Ok(_) => None,
    }
}

/// The text of the local path of `document`, `None` for a document that is
/// no local file.
pub open spec fn document_path(document: Url) -> Option<Seq<char>> {
    match local_path(document) {
        Some(path) => Some(lossy_text(path)),
        None => None,
    }
}

/// The local path of the root the editor names, `None` where it names none
/// or one that is no local directory.
pub open spec fn workspace_path(root_uri: Option<&Url>) -> Option<PathBuf> {
    match root_uri {
        Some(uri) => local_path(*uri),
        None => None,
    }
}

/// The answer that closes a handshake in `state`, given the outcome of the
/// first index build: without a workspace the handshake fails for want of
/// one, with a failed build it fails for the build's cause, else the server
/// introduces itself.
pub open spec fn handshake_answer(
    settings: SettingsView,
    state: StateView,
    built: Result<Seq<(u64, NoteView)>, Seq<char>>,
) -> Result<InitializeResultView, ResponseErrorView> {
    if state.root is None {
        Err(workspace_required())
    } else {
        match built {
            Ok(_) => Ok(initialize_result(settings)),
            Err(cause) => Err(index_failed(cause)),
        }
    }
}

/// The name the server goes by.
pub open spec fn server_name() -> Seq<char> {
    "mdzk-language-server"@
}

/// The error that ends a handshake which names no usable workspace.
pub open spec fn workspace_required() -> ResponseErrorView {
    ResponseErrorView {
        code: ErrorCode::InternalError,
        message: "mdzk-language-server needs a workspace to load a vault"@,
    }
}

/// The error that ends a handshake whose index build failed for `cause`.
pub open spec fn index_failed(cause: Seq<char>) -> ResponseErrorView {
    ResponseErrorView { code: ErrorCode::InternalError, message: cause }
}

/// What the server answers to a successful handshake: who it is, and that it
/// wants edits and saves reported, answers hover and completion requests
/// (completion on `[` and `#`, in one step) and knows document links (in one
/// step).
pub open spec fn initialize_result(settings: SettingsView) -> InitializeResultView {
    InitializeResultView {
        server_info: ServerInfoView { name: server_name(), version: settings.version },
        capabilities: ServerCapabilitiesView {
            text_document_sync: settings.text_document_sync,
            save: true,
            hover_provider: true,
            completion_resolve_provider: false,
            completion_trigger_characters: seq!["["@, "#"@],
            document_link_provider: true,
            document_link_resolve_provider: false,
        },
    }
}

impl Backend {
    /// The settings the backend was made with.
    pub closed spec fn settings_view(&self) -> SettingsView {
        self.settings@
    }

    /// The state the backend is in.
    pub closed spec fn state_view(&self) -> StateView {
        self.state@
    }

    /// A backend that has heard nothing yet.
    pub fn new(settings: Settings) -> (backend: Backend)
        ensures
            backend.settings_view() == settings@,
            backend.state_view() == StateView::initial(),
    {
        Backend { settings, state: State { pending_token: String::new(), root: None, index: None } }
    }

    /// Opens the handshake: takes the workspace the editor names.
    ///
    /// The handshake fails where the editor names no root, or one that does
    /// not resolve to a local path. Else the path is taken as the directory
    /// of the vault; the caller then builds the index of
    /// [`root`](Self::root) and closes the handshake with
    /// [`complete_initialize`](Self::complete_initialize).
    pub fn initialize(&mut self, root_uri: Option<&Url>) -> (accepted: Result<(), ResponseError>)
        ensures
            final(self).settings_view() == old(self).settings_view(),
            final(self).state_view() == old(self).state_view().after_open(
                workspace_path(root_uri),
            ),
            accepted is Ok <==> workspace_path(root_uri) is Some,
            accepted matches Err(e) ==> e@ == workspace_required(),
    {
        let root = match root_uri {
            Some(uri) => to_file_path(uri),
            None => None,
        };
        self.open_workspace(root)
    }

    /// Takes `root` as the directory of the vault, or fails the handshake if
    /// there is none.
    pub fn open_workspace(&mut self, root: Option<PathBuf>) -> (opened: Result<(), ResponseError>)
        ensures
            final(self).settings_view() == old(self).settings_view(),
            final(self).state_view() == old(self).state_view().after_open(root),
            opened is Ok <==> root is Some,
            opened matches Err(e) ==> e@ == workspace_required(),
    {
        match root {
            Some(path) => {
                self.state.root = Some(path);
                Ok(())
            },
            None => Err(workspace_error()),
        }
    }

    /// Closes the handshake with the outcome of the first index build: the
    /// index is kept and the server introduces itself, or the build's failure
    /// fails the handshake and nothing changes. A session that has no
    /// workspace cannot be made ready: the handshake fails for want of one,
    /// whatever the outcome says.
    pub fn complete_initialize(&mut self, built: Result<Index, Error>) -> (answer: Result<
        InitializeResult,
        ResponseError,
    >)
        ensures
            final(self).settings_view() == old(self).settings_view(),
            final(self).state_view() == old(self).state_view().after_rebuild(built_view(built)),
            match handshake_answer(
                old(self).settings_view(),
                old(self).state_view(),
                built_view(built),
            ) {
                Ok(result) => answer matches Ok(given) && given@ == result,
                Err(error) => answer matches Err(given) && given@ == error,
            },
    {
        if self.state.root.is_none() {
            return Err(workspace_error());
        }
        match self.update_vault(built) {
            Ok(_) => {
                let mut triggers: Vec<String> = Vec::new();
                triggers.push("[".to_owned());
                triggers.push("#".to_owned());
                assert(triggers.deep_view() =~= seq!["["@, "#"@]);
                Ok(
                    InitializeResult {
                        server_info: ServerInfo {
                            name: "mdzk-language-server".to_owned(),
                            version: self.settings.version.clone(),
                        },
                        capabilities: ServerCapabilities {
                            text_document_sync: self.settings.text_document_sync,
                            save: true,
                            hover_provider: true,
                            completion_resolve_provider: false,
                            completion_trigger_characters: triggers,
                            document_link_provider: true,
                            document_link_resolve_provider: false,
                        },
                    },
                )
            },
            Err(failure) => Err(ResponseError::from(failure)),
        }
    }

    /// Takes in the outcome of an index build: a new index replaces the old
    /// one whole, a failure is handed back and leaves what was there. Before
    /// a workspace is known no index is kept.
    pub fn update_vault(&mut self, built: Result<Index, Error>) -> (taken: Result<(), Error>)
        ensures
            final(self).settings_view() == old(self).settings_view(),
            final(self).state_view() == old(self).state_view().after_rebuild(built_view(built)),
            match built {
                Ok(_) => taken is Ok,
                Err(failure) => taken == Err::<(), Error>(failure),
            },
    {
        match built {
            Ok(index) => {
                if self.state.root.is_some() {
                    self.state.index = Some(index);
                }
                Ok(())
            },
            Err(failure) => Err(failure),
        }
    }

    /// Whether a save or a notice of created files is passed over: before a
    /// workspace is known there is nothing to rebuild, so the event changes
    /// nothing and is answered with nothing.
    pub fn skipped_without_root(&self) -> (skip: bool)
        ensures
            skip == (self.state_view().root is None),
    {
        self.state.root.is_none()
    }

    /// What the server writes to the editor's log once the handshake is over.
    pub fn initialized(&self) -> (greeting: LogMessage)
        ensures
            greeting@ == (LogMessageView {
                typ: MessageType::Info,
                message: "mdzk-language-server initialized!"@,
            }),
    {
        LogMessage {
            typ: MessageType::Info,
            message: "mdzk-language-server initialized!".to_owned(),
        }
    }

    /// Follows the typing: the first of `changes` ends the pending token if
    /// it is a boundary and lengthens it if not. An event without changes
    /// leaves the token as it is.
    pub fn did_change(&mut self, changes: &Vec<String>)
        ensures
            final(self).settings_view() == old(self).settings_view(),
            final(self).state_view() == old(self).state_view().after_change(changes.deep_view()),
    {
        if changes.len() > 0 {
            assert(changes.deep_view()[0] == changes[0]@);
            let text = changes[0].as_str();
            if ends_token(text) {
                self.state.pending_token = String::new();
            } else {
                self.state.pending_token.append(text);
            }
        }
    }

    /// Answers a completion request that came with `trigger_character`:
    /// nothing if the request does not ask for note links, else one item for
    /// each note of the index, in the order of the index (none where there is
    /// no index yet).
    pub fn completion(&self, trigger_character: Option<&str>) -> (items: Option<
        Vec<CompletionItem>,
    >)
        ensures
            items.deep_view() == completion_response(
                self.settings_view(),
                self.state_view(),
                trigger_character.deep_view(),
            ),
    {
        let by_token = self.state.pending_token == "[[".to_owned();
        let by_context = match self.settings.trigger_mode {
            TriggerMode::Context => match trigger_character {
                Some(c) => c.to_owned() == "[".to_owned(),
                None => false,
            },
            TriggerMode::TrackAndCompare => false,
        };
        if !(by_token || by_context) {
            return None;
        }
        let mut items: Vec<CompletionItem> = Vec::new();
        match &self.state.index {
            Some(index) => {
                let entries = index.entries();
                let mut i: usize = 0;
                while i < entries.len()
                    invariant
                        i <= entries.len(),
                        entries.deep_view() == index@,
                        index@.len() == entries.len(),
                        items.len() == i,
                        forall|j: int|
                            0 <= j < i ==> (#[trigger] items[j])@ == item_for(index@[j].1),
                    decreases entries.len() - i,
                {
                    assert(index@[i as int].1 == entries[i as int].1@);
                    items.push(completion_item(&entries[i].1));
                    i = i + 1;
                }
                assert(items.deep_view() =~= items_for(index@));
            },
            None => {
                assert(items.deep_view() =~= Seq::<CompletionItemView>::empty());
            },
        }
        Some(items)
    }

    /// Takes in a save of `document` together with the outcome of the index
    /// rebuild that the save calls for.
    ///
    /// Before a workspace is known the save is passed over. Else a failed
    /// rebuild is reported and changes nothing; a new index replaces the old
    /// one, and the warnings of the first note in it that was read from the
    /// local path of `document` are published. Nothing is published for a
    /// document that is no local file, or that no note was read from.
    pub fn did_save(&mut self, document: &Url, rebuilt: Result<Index, Error>) -> (outcome:
        SaveOutcome)
        ensures
            final(self).settings_view() == old(self).settings_view(),
            final(self).state_view() == old(self).state_view().after_rebuild(built_view(rebuilt)),
            outcome@ == save_outcome(
                old(self).state_view(),
                document_path(*document),
                built_view(rebuilt),
            ),
    {
        let path = match to_file_path(document) {
            Some(path) => Some(path_text(&path)),
            None => None,
        };
        self.document_saved(&path, rebuilt)
    }

    /// Takes in a save of the document at `path` (`None` for a document that
    /// is no local file) together with the outcome of the index rebuild.
    ///
    /// Before a workspace is known the save is passed over. Else a failed
    /// rebuild is reported and changes nothing; a new index replaces the old
    /// one, and the diagnostics of the first note in it that was read from
    /// `path` are published: one warning for each of its links that lead
    /// nowhere. Where no note was read from `path`, nothing is published.
    pub fn document_saved(
        &mut self,
        path: &Option<String>,
        rebuilt: Result<Index, Error>,
    ) -> (outcome: SaveOutcome)
        ensures
            final(self).settings_view() == old(self).settings_view(),
            final(self).state_view() == old(self).state_view().after_rebuild(built_view(rebuilt)),
            outcome@ == save_outcome(
                old(self).state_view(),
                path.deep_view(),
                built_view(rebuilt),
            ),
    {
        if self.skipped_without_root() {
            return SaveOutcome::Quiet;
        }
        match self.update_vault(rebuilt) {
            Err(failure) => SaveOutcome::Failed(
                LogMessage { typ: MessageType::Error, message: failure.to_string() },
            ),
            Ok(_) => {
                let found = match (&self.state.index, path) {
                    (Some(index), Some(path)) => match index.id_of_path(path.as_str()) {
                        Some(id) => index.get(id),
                        None => None,
                    },
                    _ => None,
                };
                match found {
                    Some(note) => SaveOutcome::Publish(diagnostics(note)),
                    None => SaveOutcome::Quiet,
                }
            },
        }
    }

    /// Takes in the outcome of the index rebuild that newly created files
    /// call for: a new index replaces the old one, a failure is handed back
    /// as a line for the editor's log and changes nothing. Before a
    /// workspace is known the notice is passed over.
    pub fn did_create_files(&mut self, rebuilt: Result<Index, Error>) -> (report: Option<
        LogMessage,
    >)
        ensures
            final(self).settings_view() == old(self).settings_view(),
            final(self).state_view() == old(self).state_view().after_rebuild(built_view(rebuilt)),
            report.deep_view() == creation_report(old(self).state_view(), built_view(rebuilt)),
    {
        if self.skipped_without_root() {
            return None;
        }
        match self.update_vault(rebuilt) {
            Ok(_) => None,
            Err(failure) => Some(
                LogMessage { typ: MessageType::Error, message: failure.to_string() },
            ),
        }
    }

    /// The settings the backend was made with.
    pub fn settings(&self) -> (settings: &Settings)
        ensures
            settings@ == self.settings_view(),
    {
        &self.settings
    }

    /// The directory of the vault: where the index is built from.
    pub fn root(&self) -> (root: &Option<PathBuf>)
        ensures
            *root == self.state_view().root,
    {
        &self.state.root
    }

    /// The index that requests are answered from.
    pub fn index(&self) -> (index: &Option<Index>)
        ensures
            index.deep_view() == self.state_view().index,
    {
        &self.state.index
    }

    /// What was typed since the last boundary.
    pub fn pending_token(&self) -> (token: &String)
        ensures
            token@ == self.state_view().pending_token,
    {
        &self.state.pending_token
    }

    /// How far the session has come.
    pub fn phase(&self) -> (phase: Phase)
        ensures
            phase == self.state_view().phase(),
    {
        if self.state.index.is_some() {
            Phase::Ready
        } else if self.state.root.is_some() {
            Phase::Initializing
        } else {
            Phase::Uninitialized
        }
    }
}

/// The error that ends a handshake for want of a workspace.
fn workspace_error() -> (error: ResponseError)
    ensures
        error@ == workspace_required(),
{
    ResponseError {
        code: ErrorCode::InternalError,
        message: "mdzk-language-server needs a workspace to load a vault".to_owned(),
    }
}

/// Whether `text` ends the token being typed.
fn ends_token(text: &str) -> (ends: bool)
    ensures
        ends == is_boundary(text@),
{
    if !text.is_ascii() {
        assert(!is_boundary(text@)) by {
            let i: int = choose|i: int|
                0 <= i < text@.len() && !('\0' <= #[trigger] text@[i] <= '\u{7f}');
            assert(!is_blank(text@[i]));
        }
        return false;
    }
    let bytes = text.as_bytes();
    proof {
        vstd::string::is_ascii_spec_bytes(text);
    }
    let mut i: usize = 0;
    while i < bytes.len()
        invariant
            i <= bytes.len(),
            bytes@.len() == text@.len(),
            forall|j: int| 0 <= j < bytes@.len() ==> bytes@[j] == text@[j] as u8,
            forall|j: int| 0 <= j < text@.len() ==> '\0' <= #[trigger] text@[j] <= '\u{7f}',
            forall|j: int| 0 <= j < i ==> is_blank(#[trigger] text@[j]),
        decreases bytes.len() - i,
    {
        let byte: u8 = bytes[i];
        if !(byte == 0x20 || byte == 0x09 || byte == 0x0a || byte == 0x0d) {
            assert(!is_blank(text@[i as int]));
            return false;
        }
        assert(is_blank(text@[i as int]));
        i = i + 1;
    }
    true
}

/// The completion item that offers `note`: labelled with the title, with the
/// note's file as detail and its text as documentation, and inserting the
/// title and the marker that closes the link.
pub fn completion_item(note: &Note) -> (item: CompletionItem)
    ensures
        item@ == item_for(note@),
{
    let detail = match note.path() {
        Some(path) => Some(path.clone()),
        None => None,
    };
    CompletionItem {
        label: note.title().clone(),
        kind: CompletionItemKind::File,
        detail,
        documentation: MarkupContent { kind: MarkupKind::Markdown, value: note.content().clone() },
        insert_text: note.title().clone().concat("]]"),
    }
}

/// The diagnostics of `note`: one warning for each link that leads nowhere,
/// in the order in which the note reports them, each at the editor range of
/// its link.
pub fn diagnostics(note: &Note) -> (found: Vec<Diagnostic>)
    ensures
        found.deep_view() == diagnostics_for(note@),
{
    let links = note.invalid_internal_links();
    let content = note.content().as_str();
    let mut found: Vec<Diagnostic> = Vec::new();
    let mut i: usize = 0;
    while i < links.len()
        invariant
            i <= links.len(),
            links.deep_view() == note@.invalid_internal_links,
            note@.invalid_internal_links.len() == links.len(),
            note@.well_formed(),
            content@ == note@.content,
            found.len() == i,
            forall|j: int|
                0 <= j < i ==> (#[trigger] found[j])@ == diagnostic_for(
                    note@.content,
                    note@.invalid_internal_links[j],
                ),
        decreases links.len() - i,
    {
        let link = &links[i];
        assert(note@.invalid_internal_links[i as int] == link@);
        assert(note@.invalid_internal_links[i as int].fits(note@.content));
        let range = range_to_lsp_range(&(link.start..link.end), content);
        found.push(
            Diagnostic {
                range,
                severity: DiagnosticSeverity::Warning,
                source: "mdzk".to_owned(),
                message: "Missing link destination: ".to_owned().concat(link.text.as_str()),
            },
        );
        i = i + 1;
    }
    assert(found.deep_view() =~= diagnostics_for(note@));
    found
}

/// The pending token after the changes `texts`, taken in one by one.
pub open spec fn token_after(pending_token: Seq<char>, texts: Seq<Seq<char>>) -> Seq<char>
    decreases texts.len(),
{
    if texts.len() == 0 {
        pending_token
    } else {
        typed(token_after(pending_token, texts.drop_last()), texts.last())
    }
}

/// The texts one after the other.
pub open spec fn joined(texts: Seq<Seq<char>>) -> Seq<char>
    decreases texts.len(),
{
    if texts.len() == 0 {
        Seq::empty()
    } else {
        joined(texts.drop_last()) + texts.last()
    }
}

/// Only what was typed since the last boundary counts: after a run of
/// changes of which `texts[k]` is the last boundary, the pending token is
/// what the changes behind it spell, whatever it was before.
pub proof fn lemma_token_is_text_since_boundary(
    pending_token: Seq<char>,
    texts: Seq<Seq<char>>,
    k: int,
)
    requires
        0 <= k < texts.len(),
        is_boundary(texts[k]),
        forall|j: int| k < j < texts.len() ==> !is_boundary(#[trigger] texts[j]),
    ensures
        token_after(pending_token, texts) == joined(texts.subrange(k + 1, texts.len() as int)),
    decreases texts.len(),
{
    let since = texts.subrange(k + 1, texts.len() as int);
    if k == texts.len() - 1 {
        assert(since =~= Seq::<Seq<char>>::empty());
    } else {
        let earlier = texts.drop_last();
        assert(earlier[k] == texts[k]);
        assert forall|j: int| k < j < earlier.len() implies !is_boundary(#[trigger] earlier[j]) by {
            assert(earlier[j] == texts[j]);
        }
        lemma_token_is_text_since_boundary(pending_token, earlier, k);
        assert(since.drop_last() =~= earlier.subrange(k + 1, earlier.len() as int));
        assert(since.last() == texts.last());
    }
}

/// The session only moves forward: typing leaves the phase as it is, a
/// failed build too, and a build that succeeds makes a session with a
/// workspace ready. Once ready, it stays ready.
pub proof fn lemma_phase_moves_forward(
    state: StateView,
    changes: Seq<Seq<char>>,
    built: Result<Seq<(u64, NoteView)>, Seq<char>>,
)
    ensures
        state.after_change(changes).phase() == state.phase(),
        built is Ok && state.root is Some ==> state.after_rebuild(built).phase() == Phase::Ready,
        built is Err || state.root is None ==> state.after_rebuild(built) == state,
        state.phase() == Phase::Ready ==> state.after_rebuild(built).phase() == Phase::Ready,
{
}

/// No session is ready by halves: a server that has heard nothing has no
/// index, and whatever the editor does next, an index is only ever kept
/// where a workspace is known.
pub proof fn lemma_index_needs_workspace(
    state: StateView,
    root: Option<PathBuf>,
    changes: Seq<Seq<char>>,
    built: Result<Seq<(u64, NoteView)>, Seq<char>>,
)
    requires
        state.consistent(),
    ensures
        StateView::initial().consistent(),
        state.after_open(root).consistent(),
        state.after_change(changes).consistent(),
        state.after_rebuild(built).consistent(),
{
}

/// Before a workspace is known, a save and a notice of created files change
/// nothing and are answered with nothing, whatever came with them.
pub proof fn lemma_passed_over_without_workspace(
    state: StateView,
    path: Option<Seq<char>>,
    rebuilt: Result<Seq<(u64, NoteView)>, Seq<char>>,
)
    requires
        state.root is None,
    ensures
        state.after_rebuild(rebuilt) == state,
        save_outcome(state, path, rebuilt) == SaveOutcomeView::Quiet,
        creation_report(state, rebuilt) is None,
{
}

/// Notes are only offered by a session that is ready.
pub proof fn lemma_items_only_when_ready(
    settings: SettingsView,
    state: StateView,
    trigger_character: Option<Seq<char>>,
)
    ensures
        completion_response(settings, state, trigger_character) matches Some(items) ==> {
            items.len() > 0 ==> state.phase() == Phase::Ready
        },
{
}

/// A request that does not ask for note links is answered with nothing,
/// whatever the index holds.
pub proof fn lemma_untriggered_completion_is_none(
    settings: SettingsView,
    state: StateView,
    trigger_character: Option<Seq<char>>,
)
    requires
        !triggered(settings.trigger_mode, state.pending_token, trigger_character),
    ensures
        completion_response(settings, state, trigger_character) is None,
{
}

/// A request that asks for note links is answered with exactly one item for
/// each note of the index, and the item of a note inserts the note's title
/// and the marker that closes the link.
pub proof fn lemma_triggered_completion_offers_each_note(
    settings: SettingsView,
    state: StateView,
    trigger_character: Option<Seq<char>>,
)
    requires
        triggered(settings.trigger_mode, state.pending_token, trigger_character),
        state.index is Some,
    ensures
        completion_response(settings, state, trigger_character) matches Some(items) && {
            &&& items.len() == state.index->0.len()
            &&& forall|i: int|
                0 <= i < items.len() ==> {
                    &&& (#[trigger] items[i]).label == state.index->0[i].1.title
                    &&& items[i].insert_text == state.index->0[i].1.title + close_link()
                }
        },
{
}

/// A rebuild that fails leaves the state as it was, so a completion request
/// behind it is answered as it would have been before it.
pub proof fn lemma_failed_rebuild_keeps_completions(
    settings: SettingsView,
    state: StateView,
    cause: Seq<char>,
    trigger_character: Option<Seq<char>>,
)
    ensures
        state.after_rebuild(Err(cause)) == state,
        completion_response(settings, state.after_rebuild(Err(cause)), trigger_character)
            == completion_response(settings, state, trigger_character),
{
}

/// A note with links that lead nowhere gets exactly one warning for each,
/// worded after the link and placed at the link's editor range.
pub proof fn lemma_one_warning_for_each_link(note: NoteView)
    ensures
        diagnostics_for(note).len() == note.invalid_internal_links.len(),
        forall|i: int|
            0 <= i < note.invalid_internal_links.len() ==> {
                &&& (#[trigger] diagnostics_for(note)[i]).severity == DiagnosticSeverity::Warning
                &&& diagnostics_for(note)[i].message == "Missing link destination: "@
                    + note.invalid_internal_links[i].text
                &&& diagnostics_for(note)[i].range == lsp_range(
                    note.content,
                    note.invalid_internal_links[i].start,
                    note.invalid_internal_links[i].end,
                )
            },
{
}

} // verus!
