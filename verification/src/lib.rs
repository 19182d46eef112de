//! Session logic of a language server for a vault of interlinked Markdown
//! notes.
//!
//! The server keeps three things between editor events: the directory of the
//! vault, an index of its notes, and the text typed since the last blank.
//! From these it decides when a completion request asks for note links, what
//! to offer then, and which links of a saved note to warn about.
//!
//! - [`backend`] holds the session and what each event does to it.
//! - [`vault`] holds the notes and their index.
//! - [`utils`] maps byte ranges of a text to editor positions.
//! - [`lsp`] holds the plain messages that go to the editor.
//! - [`error`] holds the failure of an index build.
//! - [`uri`] resolves the editor's URIs to local paths.
//!
//! Nothing here reads the disk or talks to the editor. The program around
//! this crate runs the indexing engine and the transport, guards one
//! [`backend::Backend`] with a reader/writer lock, and calls the method named
//! after each event it receives.

pub mod backend;
pub mod error;
pub mod lsp;
pub mod uri;
pub mod utils;
pub mod vault;
