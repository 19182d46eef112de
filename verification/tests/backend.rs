use mdzk_language_server::backend::{
    completion_item, diagnostics, Backend, Phase, SaveOutcome, Settings, TriggerMode,
};
use mdzk_language_server::error::Error;
use mdzk_language_server::lsp::{
    CompletionItem, CompletionItemKind, Diagnostic, DiagnosticSeverity, ErrorCode, LogMessage,
    MarkupContent, MarkupKind, MessageType, Position, Range, ResponseError, TextDocumentSyncKind,
};
use mdzk_language_server::vault::{Index, InvalidLink, Note};
use std::path::PathBuf;
use tower_lsp::lsp_types::Url;

fn settings(trigger_mode: TriggerMode) -> Settings {
    Settings {
        trigger_mode,
        text_document_sync: TextDocumentSyncKind::Incremental,
        version: "1.2.3".to_owned(),
    }
}

fn tracking() -> Backend {
    Backend::new(settings(TriggerMode::TrackAndCompare))
}

fn note(title: &str, path: Option<&str>, content: &str) -> Note {
    Note::new(title.to_owned(), path.map(str::to_owned), content.to_owned(), vec![]).unwrap()
}

fn alpha_and_beta() -> Index {
    let mut index = Index::new();
    index.insert(1, note("Alpha", Some("/vault/Alpha.md"), "# Alpha\n"));
    index.insert(2, note("Beta", None, "# Beta\n"));
    index
}

fn missing_note() -> Note {
    Note::new(
        "Action".to_owned(),
        Some("/vault/Action.md".to_owned()),
        "See [[Missing Note]] here".to_owned(),
        vec![InvalidLink { start: 4, end: 20, text: "[[Missing Note]]".to_owned() }],
    )
    .unwrap()
}

fn type_keys(backend: &mut Backend, keys: &[&str]) {
    for key in keys {
        backend.did_change(&vec![(*key).to_owned()]);
    }
}

fn opened(mode: TriggerMode) -> Backend {
    let mut backend = Backend::new(settings(mode));
    let root = Url::parse("file:///vault").unwrap();
    backend.initialize(Some(&root)).unwrap();
    backend
}

fn ready(mode: TriggerMode, index: Index) -> Backend {
    let mut backend = opened(mode);
    backend.complete_initialize(Ok(index)).unwrap();
    backend
}

fn failure(cause: &str) -> Error {
    Error::MdzkError(cause.to_owned())
}

#[test]
fn new_backend_has_heard_nothing() {
    let backend = tracking();
    assert_eq!(backend.phase(), Phase::Uninitialized);
    assert_eq!(backend.root(), &None);
    assert!(backend.index().is_none());
    assert_eq!(backend.pending_token(), "");
    assert_eq!(backend.settings(), &settings(TriggerMode::TrackAndCompare));
}

#[test]
fn two_opening_brackets_trigger() {
    let mut backend = ready(TriggerMode::TrackAndCompare, alpha_and_beta());
    type_keys(&mut backend, &["[", "["]);
    assert_eq!(backend.pending_token(), "[[");
    assert!(backend.completion(None).is_some());
}

#[test]
fn blank_between_the_brackets_resets() {
    let mut backend = ready(TriggerMode::TrackAndCompare, alpha_and_beta());
    type_keys(&mut backend, &["[", " ", "["]);
    assert_eq!(backend.pending_token(), "[");
    assert_eq!(backend.completion(None), None);
}

#[test]
fn marker_triggers_only_as_the_whole_token() {
    let mut backend = ready(TriggerMode::TrackAndCompare, alpha_and_beta());
    type_keys(&mut backend, &["a", "[", "["]);
    assert_eq!(backend.pending_token(), "a[[");
    assert_eq!(backend.completion(None), None);
    type_keys(&mut backend, &[" ", "[", "["]);
    assert_eq!(backend.pending_token(), "[[");
    assert!(backend.completion(None).is_some());
}

#[test]
fn single_bracket_does_not_trigger() {
    let mut backend = ready(TriggerMode::TrackAndCompare, alpha_and_beta());
    type_keys(&mut backend, &["["]);
    assert_eq!(backend.completion(None), None);
    type_keys(&mut backend, &["[", "["]);
    assert_eq!(backend.pending_token(), "[[[");
    assert_eq!(backend.completion(None), None);
}

#[test]
fn every_boundary_resets_the_token() {
    for boundary in ["", " ", "\n", "\t", "\r"] {
        let mut backend = tracking();
        type_keys(&mut backend, &["a", "b", boundary]);
        assert_eq!(backend.pending_token(), "", "after {boundary:?}");
    }
}

#[test]
fn longer_blank_text_is_a_boundary_too() {
    for boundary in ["\r\n", "  ", " \t\n\r ", "\n\n\n"] {
        let mut backend = tracking();
        type_keys(&mut backend, &["[", boundary]);
        assert_eq!(backend.pending_token(), "", "after {boundary:?}");
    }
    let mut backend = tracking();
    type_keys(&mut backend, &["a", "  ", "\r\n", "b"]);
    assert_eq!(backend.pending_token(), "b");
}

#[test]
fn line_break_between_the_brackets_resets() {
    let mut backend = ready(TriggerMode::TrackAndCompare, alpha_and_beta());
    type_keys(&mut backend, &["[", "\r\n", "["]);
    assert_eq!(backend.pending_token(), "[");
    assert_eq!(backend.completion(None), None);
}

#[test]
fn text_that_holds_more_than_blanks_is_no_boundary() {
    let mut backend = tracking();
    type_keys(&mut backend, &["a", " b", "c ", " \u{a0}", "\u{3000}", "é"]);
    assert_eq!(backend.pending_token(), "a bc  \u{a0}\u{3000}é");
}

#[test]
fn change_of_several_characters_is_appended_whole() {
    let mut backend = tracking();
    type_keys(&mut backend, &["[[", ]);
    assert_eq!(backend.pending_token(), "[[");
    type_keys(&mut backend, &["něco"]);
    assert_eq!(backend.pending_token(), "[[něco");
}

#[test]
fn only_the_first_change_of_an_event_counts() {
    let mut backend = tracking();
    backend.did_change(&vec!["a".to_owned(), "b".to_owned(), " ".to_owned()]);
    assert_eq!(backend.pending_token(), "a");
    backend.did_change(&vec![" ".to_owned(), "c".to_owned()]);
    assert_eq!(backend.pending_token(), "");
}

#[test]
fn event_without_changes_is_ignored() {
    let mut backend = tracking();
    type_keys(&mut backend, &["["]);
    backend.did_change(&vec![]);
    assert_eq!(backend.pending_token(), "[");
}

#[test]
fn typing_changes_nothing_but_the_token() {
    let mut backend = ready(TriggerMode::Context, alpha_and_beta());
    type_keys(&mut backend, &["x", "\n", "y"]);
    assert_eq!(backend.phase(), Phase::Ready);
    assert_eq!(backend.root(), &Some(PathBuf::from("/vault")));
    assert_eq!(backend.index(), &Some(alpha_and_beta()));
    assert_eq!(backend.settings(), &settings(TriggerMode::Context));
}

#[test]
fn triggered_completion_offers_alpha_and_beta() {
    let mut backend = ready(TriggerMode::TrackAndCompare, alpha_and_beta());
    type_keys(&mut backend, &["[", "["]);
    let items = backend.completion(None).unwrap();
    assert_eq!(items.len(), 2);
    let mut inserted: Vec<&str> = items.iter().map(|item| item.insert_text.as_str()).collect();
    inserted.sort();
    assert_eq!(inserted, vec!["Alpha]]", "Beta]]"]);
    assert_eq!(
        items,
        vec![
            CompletionItem {
                label: "Alpha".to_owned(),
                kind: CompletionItemKind::File,
                detail: Some("/vault/Alpha.md".to_owned()),
                documentation: MarkupContent {
                    kind: MarkupKind::Markdown,
                    value: "# Alpha\n".to_owned(),
                },
                insert_text: "Alpha]]".to_owned(),
            },
            CompletionItem {
                label: "Beta".to_owned(),
                kind: CompletionItemKind::File,
                detail: None,
                documentation: MarkupContent {
                    kind: MarkupKind::Markdown,
                    value: "# Beta\n".to_owned(),
                },
                insert_text: "Beta]]".to_owned(),
            },
        ]
    );
}

#[test]
fn untriggered_completion_is_empty_whatever_the_index_holds() {
    let backend = ready(TriggerMode::TrackAndCompare, alpha_and_beta());
    assert_eq!(backend.completion(None), None);
    assert_eq!(backend.completion(Some("[")), None);
    let backend = ready(TriggerMode::TrackAndCompare, Index::new());
    assert_eq!(backend.completion(None), None);
    let backend = ready(TriggerMode::Context, alpha_and_beta());
    assert_eq!(backend.completion(None), None);
    assert_eq!(backend.completion(Some("#")), None);
}

#[test]
fn triggered_completion_on_an_empty_index_is_an_empty_list() {
    let mut backend = ready(TriggerMode::TrackAndCompare, Index::new());
    type_keys(&mut backend, &["[", "["]);
    assert_eq!(backend.completion(None), Some(vec![]));
}

#[test]
fn triggered_completion_before_any_index_is_an_empty_list() {
    let mut backend = tracking();
    type_keys(&mut backend, &["[", "["]);
    assert_eq!(backend.phase(), Phase::Uninitialized);
    assert_eq!(backend.completion(None), Some(vec![]));
}

#[test]
fn context_mode_trusts_the_trigger_character() {
    let mut backend = ready(TriggerMode::Context, alpha_and_beta());
    type_keys(&mut backend, &["w", "o", "r", "d", "["]);
    assert_eq!(backend.completion(Some("[")).map(|items| items.len()), Some(2));
    assert_eq!(backend.completion(Some("#")), None);
    assert_eq!(backend.completion(Some("[[")), None);
    assert_eq!(backend.completion(None), None);
}

#[test]
fn context_mode_falls_back_on_the_token() {
    let mut backend = ready(TriggerMode::Context, alpha_and_beta());
    type_keys(&mut backend, &["[", "["]);
    assert_eq!(backend.completion(None).map(|items| items.len()), Some(2));
    assert_eq!(backend.completion(Some("#")).map(|items| items.len()), Some(2));
}

#[test]
fn track_and_compare_mode_ignores_the_trigger_character() {
    let mut backend = ready(TriggerMode::TrackAndCompare, alpha_and_beta());
    type_keys(&mut backend, &["w", "["]);
    assert_eq!(backend.completion(Some("[")), None);
}

#[test]
fn completion_item_of_a_note() {
    let item = completion_item(&note("Žluťoučký kůň", Some("/vault/kůň.md"), "text\n"));
    assert_eq!(item.label, "Žluťoučký kůň");
    assert_eq!(item.kind, CompletionItemKind::File);
    assert_eq!(item.detail, Some("/vault/kůň.md".to_owned()));
    assert_eq!(item.documentation.kind, MarkupKind::Markdown);
    assert_eq!(item.documentation.value, "text\n");
    assert_eq!(item.insert_text, "Žluťoučký kůň]]");
}

#[test]
fn missing_link_gives_one_warning() {
    let found = diagnostics(&missing_note());
    assert_eq!(
        found,
        vec![Diagnostic {
            range: Range {
                start: Position { line: 0, character: 4 },
                end: Position { line: 0, character: 20 },
            },
            severity: DiagnosticSeverity::Warning,
            source: "mdzk".to_owned(),
            message: "Missing link destination: [[Missing Note]]".to_owned(),
        }]
    );
}

#[test]
fn note_without_missing_links_gives_no_warning() {
    assert_eq!(diagnostics(&note("Fine", None, "See [[Alpha]]")), vec![]);
}

#[test]
fn warnings_come_in_the_order_of_the_links() {
    let content = "Úvod 😀\n[[A]] a [[B]]\n";
    let first = content.find("[[A]]").unwrap();
    let second = content.find("[[B]]").unwrap();
    let both = Note::new(
        "Two".to_owned(),
        None,
        content.to_owned(),
        vec![
            InvalidLink { start: first, end: first + 5, text: "[[A]]".to_owned() },
            InvalidLink { start: second, end: second + 5, text: "[[B]]".to_owned() },
        ],
    )
    .unwrap();
    let found = diagnostics(&both);
    assert_eq!(found.len(), 2);
    assert_eq!(found[0].message, "Missing link destination: [[A]]");
    assert_eq!(
        found[0].range,
        Range {
            start: Position { line: 1, character: 0 },
            end: Position { line: 1, character: 5 },
        }
    );
    assert_eq!(found[1].message, "Missing link destination: [[B]]");
    assert_eq!(
        found[1].range,
        Range {
            start: Position { line: 1, character: 8 },
            end: Position { line: 1, character: 13 },
        }
    );
}

#[test]
fn save_publishes_the_warnings_of_the_saved_note() {
    let mut backend = ready(TriggerMode::TrackAndCompare, Index::new());
    let mut rebuilt = alpha_and_beta();
    rebuilt.insert(3, missing_note());
    let saved = Url::parse("file:///vault/Action.md").unwrap();
    let outcome = backend.did_save(&saved, Ok(rebuilt));
    assert_eq!(outcome, SaveOutcome::Publish(diagnostics(&missing_note())));
    match outcome {
        SaveOutcome::Publish(found) => {
            assert_eq!(found.len(), 1);
            assert_eq!(found[0].severity, DiagnosticSeverity::Warning);
            assert_eq!(found[0].message, "Missing link destination: [[Missing Note]]");
            assert_eq!(found[0].range.start, Position { line: 0, character: 4 });
            assert_eq!(found[0].range.end, Position { line: 0, character: 20 });
        }
        other => panic!("nothing published: {other:?}"),
    }
    assert_eq!(backend.index().as_ref().map(Index::len), Some(3));
}

#[test]
fn save_of_a_note_without_missing_links_publishes_an_empty_list() {
    let mut backend = ready(TriggerMode::TrackAndCompare, Index::new());
    let saved = Url::parse("file:///vault/Alpha.md").unwrap();
    assert_eq!(backend.did_save(&saved, Ok(alpha_and_beta())), SaveOutcome::Publish(vec![]));
}

#[test]
fn save_resolves_escapes_in_the_uri() {
    let mut backend = ready(TriggerMode::TrackAndCompare, Index::new());
    let mut rebuilt = Index::new();
    rebuilt.insert(1, note("My note", Some("/vault/My note.md"), ""));
    let saved = Url::parse("file:///vault/My%20note.md").unwrap();
    assert_eq!(backend.did_save(&saved, Ok(rebuilt)), SaveOutcome::Publish(vec![]));
}

#[test]
fn save_of_a_document_outside_the_index_publishes_nothing() {
    let mut backend = ready(TriggerMode::TrackAndCompare, Index::new());
    let saved = Url::parse("file:///elsewhere/Action.md").unwrap();
    let mut rebuilt = Index::new();
    rebuilt.insert(3, missing_note());
    assert_eq!(backend.did_save(&saved, Ok(rebuilt)), SaveOutcome::Quiet);
    assert_eq!(backend.index().as_ref().map(Index::len), Some(1));
}

#[test]
fn save_of_a_document_that_is_no_local_file_publishes_nothing() {
    let mut backend = ready(TriggerMode::TrackAndCompare, Index::new());
    let mut rebuilt = Index::new();
    rebuilt.insert(3, missing_note());
    let saved = Url::parse("untitled:Untitled-1").unwrap();
    assert_eq!(backend.did_save(&saved, Ok(rebuilt)), SaveOutcome::Quiet);
    let mut rebuilt = Index::new();
    rebuilt.insert(3, missing_note());
    let saved = Url::parse("file://example.org/vault/Action.md").unwrap();
    assert_eq!(backend.did_save(&saved, Ok(rebuilt)), SaveOutcome::Quiet);
    assert_eq!(backend.index().as_ref().map(Index::len), Some(1));
}

#[test]
fn failed_rebuild_on_save_is_logged() {
    let mut backend = ready(TriggerMode::TrackAndCompare, alpha_and_beta());
    let saved = Url::parse("file:///vault/Alpha.md").unwrap();
    assert_eq!(
        backend.did_save(&saved, Err(failure("cannot read /vault"))),
        SaveOutcome::Failed(LogMessage {
            typ: MessageType::Error,
            message: "cannot read /vault".to_owned(),
        })
    );
}

#[test]
fn failed_rebuild_on_save_keeps_the_index_for_completion() {
    let mut backend = ready(TriggerMode::TrackAndCompare, alpha_and_beta());
    type_keys(&mut backend, &["[", "["]);
    let before = backend.completion(None);
    let saved = Url::parse("file:///vault/Alpha.md").unwrap();
    backend.did_save(&saved, Err(failure("a note does not parse")));
    assert_eq!(backend.phase(), Phase::Ready);
    assert_eq!(backend.index(), &Some(alpha_and_beta()));
    let after = backend.completion(None);
    assert_eq!(after, before);
    assert_eq!(after.map(|items| items.len()), Some(2));
}

#[test]
fn failed_rebuild_before_any_index_leaves_none() {
    let mut backend = opened(TriggerMode::TrackAndCompare);
    let saved = Url::parse("file:///vault/Alpha.md").unwrap();
    assert_eq!(
        backend.did_save(&saved, Err(failure("no vault"))),
        SaveOutcome::Failed(LogMessage { typ: MessageType::Error, message: "no vault".to_owned() })
    );
    assert!(backend.index().is_none());
    assert_eq!(backend.phase(), Phase::Initializing);
}

#[test]
fn save_before_any_workspace_is_passed_over() {
    let mut backend = tracking();
    assert!(backend.skipped_without_root());
    let saved = Url::parse("file:///vault/Action.md").unwrap();
    let mut rebuilt = Index::new();
    rebuilt.insert(3, missing_note());
    assert_eq!(backend.did_save(&saved, Ok(rebuilt)), SaveOutcome::Quiet);
    assert_eq!(backend.did_save(&saved, Err(failure("no vault"))), SaveOutcome::Quiet);
    assert!(backend.index().is_none());
    assert_eq!(backend.phase(), Phase::Uninitialized);
}

#[test]
fn created_files_before_any_workspace_are_passed_over() {
    let mut backend = tracking();
    assert_eq!(backend.did_create_files(Ok(alpha_and_beta())), None);
    assert_eq!(backend.did_create_files(Err(failure("no vault"))), None);
    assert!(backend.index().is_none());
    assert_eq!(backend.phase(), Phase::Uninitialized);
}

#[test]
fn no_index_is_kept_before_a_workspace_is_known() {
    let mut backend = tracking();
    assert_eq!(backend.update_vault(Ok(alpha_and_beta())), Ok(()));
    assert!(backend.index().is_none());
    assert_eq!(backend.update_vault(Err(failure("broken"))), Err(failure("broken")));
    assert_eq!(backend.phase(), Phase::Uninitialized);
}

#[test]
fn events_are_taken_in_once_a_workspace_is_known() {
    let mut backend = tracking();
    assert!(backend.skipped_without_root());
    backend.open_workspace(Some(PathBuf::from("/vault"))).unwrap();
    assert!(!backend.skipped_without_root());
    assert_eq!(backend.did_create_files(Ok(alpha_and_beta())), None);
    assert_eq!(backend.phase(), Phase::Ready);
}

#[test]
fn successful_rebuild_on_save_replaces_the_index_whole() {
    let mut backend = ready(TriggerMode::TrackAndCompare, alpha_and_beta());
    let mut rebuilt = Index::new();
    rebuilt.insert(9, note("Gamma", None, ""));
    let saved = Url::parse("file:///vault/Gamma.md").unwrap();
    backend.did_save(&saved, Ok(rebuilt));
    type_keys(&mut backend, &["[", "["]);
    let labels: Vec<String> =
        backend.completion(None).unwrap().into_iter().map(|item| item.label).collect();
    assert_eq!(labels, vec!["Gamma".to_owned()]);
}

#[test]
fn document_saved_takes_the_path_as_text() {
    let mut backend = opened(TriggerMode::TrackAndCompare);
    let mut rebuilt = Index::new();
    rebuilt.insert(3, missing_note());
    let outcome = backend.document_saved(&Some("/vault/Action.md".to_owned()), Ok(rebuilt));
    assert_eq!(outcome, SaveOutcome::Publish(diagnostics(&missing_note())));
    let mut rebuilt = Index::new();
    rebuilt.insert(3, missing_note());
    assert_eq!(backend.document_saved(&None, Ok(rebuilt)), SaveOutcome::Quiet);
    assert_eq!(
        backend.document_saved(&Some("/vault/Action.md".to_owned()), Err(failure("gone"))),
        SaveOutcome::Failed(LogMessage { typ: MessageType::Error, message: "gone".to_owned() })
    );
    assert_eq!(backend.index().as_ref().map(Index::len), Some(1));
}

#[test]
fn created_files_replace_the_index() {
    let mut backend = ready(TriggerMode::TrackAndCompare, Index::new());
    assert_eq!(backend.did_create_files(Ok(alpha_and_beta())), None);
    assert_eq!(backend.index(), &Some(alpha_and_beta()));
}

#[test]
fn failed_rebuild_on_created_files_is_logged_and_keeps_the_index() {
    let mut backend = ready(TriggerMode::TrackAndCompare, alpha_and_beta());
    assert_eq!(
        backend.did_create_files(Err(failure("unreadable"))),
        Some(LogMessage { typ: MessageType::Error, message: "unreadable".to_owned() })
    );
    assert_eq!(backend.index(), &Some(alpha_and_beta()));
}

#[test]
fn update_vault_hands_a_failure_back() {
    let mut backend = ready(TriggerMode::TrackAndCompare, alpha_and_beta());
    assert_eq!(backend.update_vault(Err(failure("broken"))), Err(failure("broken")));
    assert_eq!(backend.index(), &Some(alpha_and_beta()));
    assert_eq!(backend.update_vault(Ok(Index::new())), Ok(()));
    assert_eq!(backend.index(), &Some(Index::new()));
}

#[test]
fn handshake_without_a_root_is_rejected() {
    let mut backend = tracking();
    assert_eq!(
        backend.initialize(None),
        Err(ResponseError {
            code: ErrorCode::InternalError,
            message: "mdzk-language-server needs a workspace to load a vault".to_owned(),
        })
    );
    assert_eq!(backend.phase(), Phase::Uninitialized);
    assert_eq!(backend.root(), &None);
    assert!(backend.index().is_none());
}

#[test]
fn handshake_with_a_root_that_is_no_local_path_is_rejected() {
    for uri in ["https://example.org/vault", "file://example.org/vault", "untitled:vault"] {
        let mut backend = tracking();
        let root = Url::parse(uri).unwrap();
        assert_eq!(
            backend.initialize(Some(&root)),
            Err(ResponseError {
                code: ErrorCode::InternalError,
                message: "mdzk-language-server needs a workspace to load a vault".to_owned(),
            }),
            "for {uri}"
        );
        assert_eq!(backend.phase(), Phase::Uninitialized);
    }
}

#[test]
fn open_workspace_without_a_path_is_rejected() {
    let mut backend = tracking();
    assert_eq!(
        backend.open_workspace(None),
        Err(ResponseError {
            code: ErrorCode::InternalError,
            message: "mdzk-language-server needs a workspace to load a vault".to_owned(),
        })
    );
    assert_eq!(backend.open_workspace(Some(PathBuf::from("/vault"))), Ok(()));
    assert_eq!(backend.root(), &Some(PathBuf::from("/vault")));
}

#[test]
fn handshake_with_a_local_root_takes_it() {
    let mut backend = tracking();
    let root = Url::parse("file:///home/me/my%20vault").unwrap();
    assert_eq!(backend.initialize(Some(&root)), Ok(()));
    assert_eq!(backend.root(), &Some(PathBuf::from("/home/me/my vault")));
    assert_eq!(backend.phase(), Phase::Initializing);
    assert!(backend.index().is_none());
}

#[test]
fn handshake_ends_with_the_server_introducing_itself() {
    let mut backend = Backend::new(Settings {
        trigger_mode: TriggerMode::TrackAndCompare,
        text_document_sync: TextDocumentSyncKind::Incremental,
        version: "0.4.1".to_owned(),
    });
    let root = Url::parse("file:///vault").unwrap();
    backend.initialize(Some(&root)).unwrap();
    let result = backend.complete_initialize(Ok(alpha_and_beta())).unwrap();
    assert_eq!(result.server_info.name, "mdzk-language-server");
    assert_eq!(result.server_info.version, "0.4.1");
    assert_eq!(result.capabilities.text_document_sync, TextDocumentSyncKind::Incremental);
    assert!(result.capabilities.save);
    assert!(result.capabilities.hover_provider);
    assert!(!result.capabilities.completion_resolve_provider);
    assert_eq!(
        result.capabilities.completion_trigger_characters,
        vec!["[".to_owned(), "#".to_owned()]
    );
    assert!(result.capabilities.document_link_provider);
    assert!(!result.capabilities.document_link_resolve_provider);
    assert_eq!(backend.phase(), Phase::Ready);
    assert_eq!(backend.index(), &Some(alpha_and_beta()));
}

#[test]
fn handshake_announces_full_sync_when_set_so() {
    let mut backend = Backend::new(Settings {
        trigger_mode: TriggerMode::Context,
        text_document_sync: TextDocumentSyncKind::Full,
        version: "1".to_owned(),
    });
    let root = Url::parse("file:///vault").unwrap();
    backend.initialize(Some(&root)).unwrap();
    let result = backend.complete_initialize(Ok(Index::new())).unwrap();
    assert_eq!(result.capabilities.text_document_sync, TextDocumentSyncKind::Full);
}

#[test]
fn handshake_cannot_be_closed_without_a_workspace() {
    let mut backend = tracking();
    assert_eq!(
        backend.complete_initialize(Ok(alpha_and_beta())),
        Err(ResponseError {
            code: ErrorCode::InternalError,
            message: "mdzk-language-server needs a workspace to load a vault".to_owned(),
        })
    );
    assert_eq!(backend.phase(), Phase::Uninitialized);
    assert!(backend.index().is_none());
    assert_eq!(
        backend.complete_initialize(Err(failure("no vault"))),
        Err(ResponseError {
            code: ErrorCode::InternalError,
            message: "mdzk-language-server needs a workspace to load a vault".to_owned(),
        })
    );
}

#[test]
fn same_uri_resolves_to_the_same_root_each_time() {
    let root = Url::parse("file:///home/me/vault").unwrap();
    let mut first = tracking();
    let mut second = tracking();
    first.initialize(Some(&root)).unwrap();
    second.initialize(Some(&root)).unwrap();
    assert_eq!(first.root(), second.root());
    assert_eq!(first.root(), &Some(PathBuf::from("/home/me/vault")));
}

#[test]
fn failed_first_build_fails_the_handshake() {
    let mut backend = tracking();
    let root = Url::parse("file:///vault").unwrap();
    backend.initialize(Some(&root)).unwrap();
    assert_eq!(
        backend.complete_initialize(Err(failure("/vault does not exist"))),
        Err(ResponseError {
            code: ErrorCode::InternalError,
            message: "/vault does not exist".to_owned(),
        })
    );
    assert_eq!(backend.phase(), Phase::Initializing);
    assert!(backend.index().is_none());
}

#[test]
fn greeting_is_an_info_line() {
    assert_eq!(
        tracking().initialized(),
        LogMessage {
            typ: MessageType::Info,
            message: "mdzk-language-server initialized!".to_owned(),
        }
    );
}

#[test]
fn failure_reads_as_its_cause() {
    assert_eq!(failure("no such directory").to_string(), "no such directory");
}

#[test]
fn failure_becomes_an_internal_error_with_its_cause() {
    assert_eq!(
        ResponseError::from(failure("no such directory")),
        ResponseError { code: ErrorCode::InternalError, message: "no such directory".to_owned() }
    );
}
