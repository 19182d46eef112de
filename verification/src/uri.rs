//! Document and workspace addresses: the editor names them by URI, the vault
//! lives on the local filesystem.

use std::path::PathBuf;
use tower_lsp::lsp_types::Url;
use vstd::prelude::*;

verus! {

/// A parsed URI as the editor sends it. Proofs see nothing inside it; it is
/// only carried to [`to_file_path`].
#[verifier::external_type_specification]
#[verifier::external_body]
pub struct ExUrl(Url);

/// An owned filesystem path of the standard library. Proofs see nothing
/// inside it; it is stored and handed on as it came.
#[verifier::external_type_specification]
#[verifier::external_body]
pub struct ExPathBuf(PathBuf);

/// The local path that `Url::to_file_path` resolves `uri` to, `None` where it
/// fails. It is a function of the URI alone; nothing more is said of it.
pub uninterp spec fn local_path(uri: Url) -> Option<PathBuf>;

/// The text that `Path::to_string_lossy` renders `path` as. It is a function
/// of the path alone; nothing more is said of it.
pub uninterp spec fn lossy_text(path: PathBuf) -> Seq<char>;

/// Calls `Url::to_file_path`, which turns a `file:` URI into an absolute
/// local path and fails for a URI that has no path segments or names a
/// foreign host; `None` stands for its failure. The result is taken on
/// trust to be [`local_path`] of the URI: the same URI always resolves the
/// same way. Nothing is claimed about which URIs resolve or to which path.
#[verifier::external_body]
pub(crate) fn to_file_path(uri: &Url) -> (path: Option<PathBuf>)
    ensures
        path == local_path(*uri),
{
    uri.to_file_path().ok()
}

/// Calls `Path::to_string_lossy` and owns the result: the path as text, with
/// the replacement character wherever it is not valid Unicode. The result is
/// taken on trust to be [`lossy_text`] of the path: the same path always
/// reads the same. Nothing is claimed about the text itself.
#[verifier::external_body]
pub(crate) fn path_text(path: &PathBuf) -> (text: String)
    ensures
        text@ == lossy_text(*path),
{
    path.to_string_lossy().into_owned()
}

} // verus!
