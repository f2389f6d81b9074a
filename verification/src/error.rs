//! Error taxonomy shared by every widget: configuration errors, I/O errors
//! tagged with their direction, and user-driven outcomes (quit, empty input).

use vstd::prelude::*;
use vstd::string::StringExecFns;

verus! {

/// The kind of failure a prompt interaction ended with.
#[derive(Debug, Clone, Copy, PartialEq, Eq, Structural)]
#[non_exhaustive]
pub enum PromptErrorKind {
    PassedNoOptions,
    UserQuit,
    UserEmpty,
    StdOut,
    StdIn,
}

/// What an input-side I/O failure looked like, as plain data: the widget
/// logic only ever reads this classification, never the platform error
/// value itself. The caller that performs the reads classifies its errors
/// into one of these before handing them over.
#[derive(Debug, Clone, Copy, PartialEq, Eq, Structural)]
pub enum IoErrorClass {
    UnexpectedEof,
    InvalidData,
    Other,
}

/// An error from one prompt interaction.
#[derive(Debug)]
pub enum PromptError {
    Io { kind: PromptErrorKind, source: IoErrorClass },
    UserInput(PromptErrorKind),
    Creation(PromptErrorKind),
}

/// How an input-side failure class maps onto the error taxonomy.
pub open spec fn stdin_kind(source: IoErrorClass) -> PromptErrorKind {
    match source {
        IoErrorClass::UnexpectedEof => PromptErrorKind::UserQuit,
        IoErrorClass::InvalidData => PromptErrorKind::UserEmpty,
        IoErrorClass::Other => PromptErrorKind::StdIn,
    }
}

impl PromptError {
    /// The kind carried by this error, whichever variant holds it.
    pub open spec fn spec_kind(&self) -> PromptErrorKind {
        match self {
            PromptError::Io { kind, source: _ } => *kind,
            PromptError::UserInput(kind) => *kind,
            PromptError::Creation(kind) => *kind,
        }
    }

    pub fn kind(&self) -> (k: PromptErrorKind)
        ensures
            k == self.spec_kind(),
    {
        match self {
            PromptError::Io { kind, source: _ } => *kind,
            PromptError::UserInput(kind) => *kind,
            PromptError::Creation(kind) => *kind,
        }
    }

    /// Wrap a failure of the input side, refining its kind: an input stream
    /// that ended is treated as the user walking away (quit), and a decode
    /// failure on an empty read as an empty answer.
    pub fn from_stdin(source: IoErrorClass) -> (r: Self)
        ensures
            r == (PromptError::Io { kind: stdin_kind(source), source }),
    {
        let kind = match source {
            IoErrorClass::UnexpectedEof => PromptErrorKind::UserQuit,
            IoErrorClass::InvalidData => PromptErrorKind::UserEmpty,
            IoErrorClass::Other => PromptErrorKind::StdIn,
        };
        PromptError::Io { kind, source }
    }

    /// Wrap a failure of the output side; every write failure is the same
    /// kind, whatever the underlying class was.
    pub fn from_stdout(source: IoErrorClass) -> (r: Self)
        ensures
            r == (PromptError::Io { kind: PromptErrorKind::StdOut, source }),
    {
        PromptError::Io { kind: PromptErrorKind::StdOut, source }
    }

    /// What this error reads as: a human-readable line naming the variant
    /// and the kind.
    pub open spec fn spec_message(&self) -> Seq<char> {
        match self {
            PromptError::Io { kind, source: _ } => "std input error: "@ + spec_kind_name(*kind),
            PromptError::UserInput(kind) => "user input error: "@ + spec_kind_name(*kind),
            PromptError::Creation(kind) => "creation of prompt failed: "@ + spec_kind_name(*kind),
        }
    }

    /// The human-readable line for this error.
    pub fn message(&self) -> (r: String)
        ensures
            r@ == self.spec_message(),
    {
        let mut out = match self {
            PromptError::Io { kind: _, source: _ } => "std input error: ".to_owned(),
            PromptError::UserInput(_) => "user input error: ".to_owned(),
            PromptError::Creation(_) => "creation of prompt failed: ".to_owned(),
        };
        out.append(kind_name(&self.kind()));
        out
    }
}

/// The name of each kind, as its message text.
pub open spec fn spec_kind_name(kind: PromptErrorKind) -> Seq<char> {
    match kind {
        PromptErrorKind::PassedNoOptions => "PassedNoOptions"@,
        PromptErrorKind::UserQuit => "UserQuit"@,
        PromptErrorKind::UserEmpty => "UserEmpty"@,
        PromptErrorKind::StdOut => "StdOut"@,
        PromptErrorKind::StdIn => "StdIn"@,
    }
}

pub fn kind_name(kind: &PromptErrorKind) -> (r: &'static str)
    ensures
        r@ == spec_kind_name(*kind),
{
    match kind {
        PromptErrorKind::PassedNoOptions => "PassedNoOptions",
        PromptErrorKind::UserQuit => "UserQuit",
        PromptErrorKind::UserEmpty => "UserEmpty",
        PromptErrorKind::StdOut => "StdOut",
        PromptErrorKind::StdIn => "StdIn",
    }
}

pub type Result<T> = core::result::Result<T, PromptError>;

} // verus!
