//! What can go wrong while the note index is built, and how a failure is
//! reported when it ends the handshake.

use crate::lsp::{ErrorCode, ResponseError};
use vstd::prelude::*;
use vstd::std_specs::convert::FromSpecImpl;

verus! {

/// A failure to produce the note index.
#[derive(Clone, Debug, PartialEq, Eq)]
pub enum Error {
    /// The indexing engine gave up; the text is the cause it reported.
    MdzkError(String),
}

impl View for Error {
    type V = Seq<char>;

    /// The cause, as the engine worded it.
    open spec fn view(&self) -> Seq<char> {
        match self {
            Error::MdzkError(cause) => cause@,
        }
    }
}

impl Error {
    /// The cause in words, for a log line or an error response.
    pub fn to_string(&self) -> (text: String)
        ensures
            text@ == self@,
    {
        match self {
            Error::MdzkError(cause) => cause.clone(),
        }
    }
}

impl From<Error> for ResponseError {
    /// A failed index build ends a request as an internal error that carries
    /// the cause unchanged.
    fn from(err: Error) -> (response: ResponseError) {
        match err {
            Error::MdzkError(cause) => ResponseError {
                code: ErrorCode::InternalError,
                message: cause,
            },
        }
    }
}

impl FromSpecImpl<Error> for ResponseError {
    open spec fn obeys_from_spec() -> bool {
        true
    }

    open spec fn from_spec(err: Error) -> ResponseError {
        match err {
            Error::MdzkError(cause) => ResponseError {
                code: ErrorCode::InternalError,
                message: cause,
            },
        }
    }
}

} // verus!
