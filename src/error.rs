//! The ways a run can fail. Every one of them ends the run.
use vstd::prelude::*;

verus! {

/// Why a run stopped.
#[derive(Debug)]
pub enum WrapError {
    /// The mandatory leading caller token is missing.
    Invocation,
    /// The build tool could not be spawned.
    ToolResolution { program: String, reason: String },
    /// The build tool ran and exited unsuccessfully; `code` is its exit code,
    /// absent when it was ended by a signal, and `output` its decoded output.
    BuildFailure { code: Option<i32>, output: String },
    /// The build tool's output is not valid UTF-8.
    OutputDecoding,
    /// The build tool's output holds no artifact path.
    ArtifactMissing,
    /// The reported artifact path is a directory.
    ArtifactType { path: String },
    /// The reported artifact path does not exist or cannot be inspected.
    ArtifactNotFound { path: String, reason: String },
    /// The secondary tool could not be spawned.
    SecondarySpawn { program: String, reason: String },
}

/// A `WrapError` with its strings seen as character sequences.
pub enum ErrorView {
    Invocation,
    ToolResolution { program: Seq<char>, reason: Seq<char> },
    BuildFailure { code: Option<i32>, output: Seq<char> },
    OutputDecoding,
    ArtifactMissing,
    ArtifactType { path: Seq<char> },
    ArtifactNotFound { path: Seq<char>, reason: Seq<char> },
    SecondarySpawn { program: Seq<char>, reason: Seq<char> },
}

impl View for WrapError {
    type V = ErrorView;

    open spec fn view(&self) -> ErrorView {
        match self {
            WrapError::Invocation => ErrorView::Invocation,
            WrapError::ToolResolution { program, reason } => ErrorView::ToolResolution {
                program: program@,
                reason: reason@,
            },
            WrapError::BuildFailure { code, output } => ErrorView::BuildFailure {
                code: *code,
                output: output@,
            },
            WrapError::OutputDecoding => ErrorView::OutputDecoding,
            WrapError::ArtifactMissing => ErrorView::ArtifactMissing,
            WrapError::ArtifactType { path } => ErrorView::ArtifactType { path: path@ },
            WrapError::ArtifactNotFound { path, reason } => ErrorView::ArtifactNotFound {
                path: path@,
                reason: reason@,
            },
            WrapError::SecondarySpawn { program, reason } => ErrorView::SecondarySpawn {
                program: program@,
                reason: reason@,
            },
        }
    }
}

} // verus!
