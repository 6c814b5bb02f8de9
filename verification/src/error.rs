//! The error value that every fallible operation of the library returns.

use vstd::prelude::*;
use vstd::string::*;
use crate::text::{lemma_starts_with_prefix, starts_with};

verus! {

/// What went wrong, by kind.
#[derive(Clone, Copy, Debug, PartialEq, Eq, Structural)]
pub enum ErrorKind {
    /// No candidate source held a usable executable.
    NotFound,
    /// The executable is there, but the version probe could not be started
    /// or did not exit successfully.
    ExecutionFailed,
    /// The registry or a mirror could not be reached.
    NetworkError,
    /// The registry or a mirror answered with a status outside 200..=299.
    HttpStatusError,
    /// The answer was no JSON of the expected shape.
    ParseError,
    /// No asset of the release fits the platform.
    UnsupportedPlatform,
    /// The archive's name ends in no extension that can be extracted.
    UnsupportedFormat,
    /// Reading, decoding or writing data failed.
    IoError,
}

/// An error: its kind, and a text meant to be shown to the user.
#[derive(Clone, Debug, PartialEq, Eq)]
pub struct ToolError {
    pub kind: ErrorKind,
    pub message: String,
}

/// The value of an error.
pub struct ToolErrorView {
    pub kind: ErrorKind,
    pub message: Seq<char>,
}

impl View for ToolError {
    type V = ToolErrorView;

    open spec fn view(&self) -> ToolErrorView {
        ToolErrorView { kind: self.kind, message: self.message@ }
    }
}

impl ToolError {
    /// An error of the kind `kind` with the text `message`.
    pub fn new(kind: ErrorKind, message: String) -> (e: ToolError)
        ensures
            e.kind == kind,
            e.message@ == message@,
    {
        ToolError { kind, message }
    }

    /// An error whose text is `prefix` followed by `detail`.
    pub fn with_detail(kind: ErrorKind, prefix: &str, detail: &str) -> (e: ToolError)
        ensures
            e.kind == kind,
            e.message@ == prefix@ + detail@,
            starts_with(e.message@, prefix@),
    {
        let mut message = String::from_str(prefix);
        message.append(detail);
        proof {
            lemma_starts_with_prefix(prefix@, detail@);
        }
        ToolError { kind, message }
    }

    /// The kind of the error.
    pub fn kind(&self) -> (k: ErrorKind)
        ensures
            k == self.kind,
    {
        self.kind
    }

    /// A copy of the error.
    pub fn duplicate(&self) -> (e: ToolError)
        ensures
            e@ == self@,
    {
        ToolError { kind: self.kind, message: self.message.clone() }
    }

    /// The text of the error.
    pub fn to_string(&self) -> (s: String)
        ensures
            s@ == self.message@,
    {
        self.message.clone()
    }
}

} // verus!
