//! What a run hands back: captured text, or a classified failure.

use vstd::prelude::*;

verus! {

/// The ways a run can fail.
#[derive(Clone, Copy, Debug, PartialEq, Eq, Structural, Hash)]
pub enum FailureKind {
    /// No registered backend claims the filetype at the requested level.
    NoBackendAvailable,
    /// The backend's directory could not be created.
    WorkspaceCreationError,
    /// The code could not be written to the artifact.
    ArtifactWriteError,
    /// The external program could not be found or started.
    ProcessLaunchError,
    /// The external program ran and reported failure.
    RuntimeError,
    /// The captured output is not valid UTF-8.
    DecodingError,
    /// The external program was stopped because it ran too long.
    Timeout,
}

/// A failure together with its diagnostic text.
#[derive(Debug, PartialEq, Eq)]
pub enum SniprunError {
    /// No backend for the filetype, which the text names.
    NoBackendAvailable(String),
    /// The backend's directory could not be created; the text is the host's reason.
    WorkspaceCreationError(String),
    /// The artifact could not be written; the text is the host's reason.
    ArtifactWriteError(String),
    /// The program could not be started; the text is the host's reason.
    ProcessLaunchError(String),
    /// The program failed; the text is all that it wrote to standard error.
    RuntimeError(String),
    /// A captured stream is no text; the text is the decoder's message.
    DecodingError(String),
    /// The program was stopped; the text is the host's account of it.
    Timeout(String),
}

/// The mathematical content of an outcome: the text of a success, or the kind
/// and the diagnostic text of a failure.
pub enum Verdict {
    Success(Seq<char>),
    Failure(FailureKind, Seq<char>),
}

impl SniprunError {
    /// Which way the run failed.
    pub open spec fn spec_kind(&self) -> FailureKind {
        match self {
            SniprunError::NoBackendAvailable(_) => FailureKind::NoBackendAvailable,
            SniprunError::WorkspaceCreationError(_) => FailureKind::WorkspaceCreationError,
            SniprunError::ArtifactWriteError(_) => FailureKind::ArtifactWriteError,
            SniprunError::ProcessLaunchError(_) => FailureKind::ProcessLaunchError,
            SniprunError::RuntimeError(_) => FailureKind::RuntimeError,
            SniprunError::DecodingError(_) => FailureKind::DecodingError,
            SniprunError::Timeout(_) => FailureKind::Timeout,
        }
    }

    /// The diagnostic text carried by the failure.
    pub open spec fn detail(&self) -> Seq<char> {
        match self {
            SniprunError::NoBackendAvailable(text) => text@,
            SniprunError::WorkspaceCreationError(text) => text@,
            SniprunError::ArtifactWriteError(text) => text@,
            SniprunError::ProcessLaunchError(text) => text@,
            SniprunError::RuntimeError(text) => text@,
            SniprunError::DecodingError(text) => text@,
            SniprunError::Timeout(text) => text@,
        }
    }

    /// A failure of the given kind with the given diagnostic text.
    pub fn new(kind: FailureKind, detail: String) -> (e: SniprunError)
        ensures
            e.kind() == kind,
            e.detail() == detail@,
    {
        match kind {
            FailureKind::NoBackendAvailable => SniprunError::NoBackendAvailable(detail),
            FailureKind::WorkspaceCreationError => SniprunError::WorkspaceCreationError(detail),
            FailureKind::ArtifactWriteError => SniprunError::ArtifactWriteError(detail),
            FailureKind::ProcessLaunchError => SniprunError::ProcessLaunchError(detail),
            FailureKind::RuntimeError => SniprunError::RuntimeError(detail),
            FailureKind::DecodingError => SniprunError::DecodingError(detail),
            FailureKind::Timeout => SniprunError::Timeout(detail),
        }
    }

    /// Which way the run failed.
    #[verifier::when_used_as_spec(spec_kind)]
    pub fn kind(&self) -> (kind: FailureKind)
        ensures
            kind == self.spec_kind(),
    {
        match self {
            SniprunError::NoBackendAvailable(_) => FailureKind::NoBackendAvailable,
            SniprunError::WorkspaceCreationError(_) => FailureKind::WorkspaceCreationError,
            SniprunError::ArtifactWriteError(_) => FailureKind::ArtifactWriteError,
            SniprunError::ProcessLaunchError(_) => FailureKind::ProcessLaunchError,
            SniprunError::RuntimeError(_) => FailureKind::RuntimeError,
            SniprunError::DecodingError(_) => FailureKind::DecodingError,
            SniprunError::Timeout(_) => FailureKind::Timeout,
        }
    }

    /// Takes the failure apart into its kind and its diagnostic text.
    pub fn into_parts(self) -> (parts: (FailureKind, String))
        ensures
            parts.0 == self.kind(),
            parts.1@ == self.detail(),
    {
        match self {
            SniprunError::NoBackendAvailable(text) => (FailureKind::NoBackendAvailable, text),
            SniprunError::WorkspaceCreationError(text) => (
                FailureKind::WorkspaceCreationError,
                text,
            ),
            SniprunError::ArtifactWriteError(text) => (FailureKind::ArtifactWriteError, text),
            SniprunError::ProcessLaunchError(text) => (FailureKind::ProcessLaunchError, text),
            SniprunError::RuntimeError(text) => (FailureKind::RuntimeError, text),
            SniprunError::DecodingError(text) => (FailureKind::DecodingError, text),
            SniprunError::Timeout(text) => (FailureKind::Timeout, text),
        }
    }
}

/// The verdict that a result of the pipeline's stages stands for.
pub open spec fn verdict_of(result: Result<String, SniprunError>) -> Verdict {
    match result {
        Ok(text) => Verdict::Success(text@),
        Err(e) => Verdict::Failure(e.kind(), e.detail()),
    }
}

/// The result of one run, as the caller receives it.
#[derive(Debug, PartialEq, Eq)]
pub enum Outcome {
    /// The program ran; the text is its standard output.
    Success(String),
    /// The run failed; the text is the most specific diagnostic at hand.
    Failure(FailureKind, String),
}

impl View for Outcome {
    type V = Verdict;

    open spec fn view(&self) -> Verdict {
        match self {
            Outcome::Success(text) => Verdict::Success(text@),
            Outcome::Failure(kind, detail) => Verdict::Failure(*kind, detail@),
        }
    }
}

impl Outcome {
    /// Packages what the stages returned.
    pub fn from_result(result: Result<String, SniprunError>) -> (outcome: Outcome)
        ensures
            outcome@ == verdict_of(result),
    {
        match result {
            Ok(text) => Outcome::Success(text),
            Err(e) => {
                let (kind, detail) = e.into_parts();
                Outcome::Failure(kind, detail)
            },
        }
    }

    /// The outcome as a `Result`, for callers that propagate failures with `?`.
    pub fn into_result(self) -> (result: Result<String, SniprunError>)
        ensures
            verdict_of(result) == self@,
    {
        match self {
            Outcome::Success(text) => Ok(text),
            Outcome::Failure(kind, detail) => Err(SniprunError::new(kind, detail)),
        }
    }

    /// Whether the run succeeded.
    pub fn is_success(&self) -> (b: bool)
        ensures
            b == (self@ is Success),
    {
        match self {
            Outcome::Success(_) => true,
            Outcome::Failure(_, _) => false,
        }
    }
}

} // verus!
