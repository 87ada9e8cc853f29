//! The kinds of failure a pipeline invocation can report, and the text that
//! carries a failure to the caller.

use vstd::prelude::*;
use vstd::string::*;

verus! {

/// What went wrong, by the stage or boundary that detected it.
#[derive(Clone, Copy, Debug, PartialEq, Eq, Structural)]
pub enum ErrorKind {
    /// A provider name outside the supported set.
    UnknownProvider,
    /// A conversation message whose role is not user, assistant or system.
    InvalidRole,
    /// The graph store could not be introspected.
    SchemaDiscoveryFailed,
    /// The model call that should produce a query failed, or had nothing to
    /// work on.
    GenerationFailed,
    /// The model answered, but no query statement could be isolated.
    ExtractionFailed,
    /// The graph store rejected or could not run the statement.
    ExecutionFailed,
    /// The model call that should produce the answer failed.
    SynthesisFailed,
}

impl ErrorKind {
    /// The words that open every message of this kind.
    pub open spec fn label(self) -> Seq<char> {
        match self {
            ErrorKind::UnknownProvider => "Unknown provider"@,
            ErrorKind::InvalidRole => "Invalid role"@,
            ErrorKind::SchemaDiscoveryFailed => "Schema discovery failed"@,
            ErrorKind::GenerationFailed => "Cypher generation failed"@,
            ErrorKind::ExtractionFailed => "Cypher extraction failed"@,
            ErrorKind::ExecutionFailed => "Query execution failed"@,
            ErrorKind::SynthesisFailed => "Answer synthesis failed"@,
        }
    }

    /// The words that open every message of this kind.
    pub fn as_str(self) -> (s: &'static str)
        ensures
            s@ == self.label(),
    {
        match self {
            ErrorKind::UnknownProvider => "Unknown provider",
            ErrorKind::InvalidRole => "Invalid role",
            ErrorKind::SchemaDiscoveryFailed => "Schema discovery failed",
            ErrorKind::GenerationFailed => "Cypher generation failed",
            ErrorKind::ExtractionFailed => "Cypher extraction failed",
            ErrorKind::ExecutionFailed => "Query execution failed",
            ErrorKind::SynthesisFailed => "Answer synthesis failed",
        }
    }
}

/// A failure of one invocation: its kind, and a message that names the stage
/// and the underlying cause.
#[derive(Clone, Debug, PartialEq, Eq)]
pub struct PipelineError {
    pub kind: ErrorKind,
    pub message: String,
}

/// A `PipelineError` as a mathematical value.
pub struct PipelineErrorView {
    pub kind: ErrorKind,
    pub message: Seq<char>,
}

impl View for PipelineError {
    type V = PipelineErrorView;

    open spec fn view(&self) -> PipelineErrorView {
        PipelineErrorView { kind: self.kind, message: self.message@ }
    }
}

/// The message of a failure of kind `kind` caused by `cause`: the kind's
/// label, a colon, and the cause as it was reported.
pub open spec fn failure_text(kind: ErrorKind, cause: Seq<char>) -> Seq<char> {
    kind.label() + ": "@ + cause
}

/// The failure of kind `kind` caused by `cause`.
pub open spec fn failure(kind: ErrorKind, cause: Seq<char>) -> PipelineErrorView {
    PipelineErrorView { kind, message: failure_text(kind, cause) }
}

impl PipelineError {
    /// Wraps `cause` with the label of `kind`.
    pub fn new(kind: ErrorKind, cause: &str) -> (e: PipelineError)
        ensures
            e@ == failure(kind, cause@),
    {
        let mut message = String::from_str(kind.as_str());
        message.append(": ");
        message.append(cause);
        PipelineError { kind, message }
    }

    /// The message, as a caller would print it.
    pub fn to_string(&self) -> (s: String)
        ensures
            s@ == self@.message,
    {
        self.message.clone()
    }
}

} // verus!
