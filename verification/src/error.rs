//! The error kinds that the engine reports, each with the context it carries.

use vstd::prelude::*;

verus! {

/// Why an operation of the engine failed.
#[derive(Clone, Debug, PartialEq, Eq)]
pub enum EngineError {
    /// No manifest matches the name.
    NotFound { name: String },
    /// The search pattern is not a valid regular expression.
    InvalidPattern { pattern: String },
    /// The package has no recipe for the operating system and architecture.
    UnsupportedPlatform { os: String, arch: String },
    /// None of the recipe's artifact templates gave a retrievable artifact.
    ArtifactUnavailable { name: String },
    /// The digest of the downloaded artifact differs from the recipe's checksum.
    ChecksumMismatch { expected: String, actual: String },
    /// Another mutating operation holds the lock at this path.
    AlreadyRunning { lock_path: String },
    /// No install state is recorded for the name.
    NotInstalled { name: String },
    /// A command of the recipe did not succeed.
    CommandExecutionFailed { command: String },
    /// The install-state store could not be written to durable storage.
    StateNotPersisted { name: String },
}

/// The mathematical value of an [`EngineError`]: its kind and its context as character sequences.
pub enum EngineErrorView {
    NotFound { name: Seq<char> },
    InvalidPattern { pattern: Seq<char> },
    UnsupportedPlatform { os: Seq<char>, arch: Seq<char> },
    ArtifactUnavailable { name: Seq<char> },
    ChecksumMismatch { expected: Seq<char>, actual: Seq<char> },
    AlreadyRunning { lock_path: Seq<char> },
    NotInstalled { name: Seq<char> },
    CommandExecutionFailed { command: Seq<char> },
    StateNotPersisted { name: Seq<char> },
}

impl View for EngineError {
    type V = EngineErrorView;

    open spec fn view(&self) -> EngineErrorView {
        match *self {
            EngineError::NotFound { name } => EngineErrorView::NotFound { name: name@ },
            EngineError::InvalidPattern { pattern } => EngineErrorView::InvalidPattern { pattern: pattern@ },
            EngineError::UnsupportedPlatform { os, arch } => EngineErrorView::UnsupportedPlatform {
                os: os@,
                arch: arch@,
            },
            EngineError::ArtifactUnavailable { name } => EngineErrorView::ArtifactUnavailable { name: name@ },
            EngineError::ChecksumMismatch { expected, actual } => EngineErrorView::ChecksumMismatch {
                expected: expected@,
                actual: actual@,
            },
            EngineError::AlreadyRunning { lock_path } => EngineErrorView::AlreadyRunning {
                lock_path: lock_path@,
            },
            EngineError::NotInstalled { name } => EngineErrorView::NotInstalled { name: name@ },
            EngineError::CommandExecutionFailed { command } => EngineErrorView::CommandExecutionFailed {
                command: command@,
            },
            EngineError::StateNotPersisted { name } => EngineErrorView::StateNotPersisted {
                name: name@,
            },
        }
    }
}

} // verus!
