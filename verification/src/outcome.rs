//! How a pipeline run ends: with the module it made, or with the one
//! reason it stopped for.

use vstd::prelude::*;

verus! {

/// The answer to a build request for a provider project.
pub const PROVIDERS_NOT_BUILT: &'static str =
    "wash build has not be implemented for providers yet. Please use the Makefiles for now!";

/// The answer to a build request for an interface project.
pub const INTERFACES_NOT_BUILT: &'static str =
    "wash build has not be implemented for interface yet. Please use the Makefiles for now!";

/// A project kind the pipeline does not build.
#[derive(Clone, Copy, Debug, PartialEq, Eq, Structural)]
pub enum UnsupportedKind {
    Provider,
    Interface,
}

/// Why a run stopped. Every reason is final: nothing is retried.
#[derive(Clone, Debug, PartialEq, Eq)]
pub enum PipelineError {
    /// The project is of a kind that is not built; no toolchain was run.
    UnsupportedProjectKind(UnsupportedKind),
    /// The compiler ran and reported failure, or could not be started.
    ToolchainInvocationFailed { status: String },
    /// The compiler reported success, yet its output is not where it
    /// belongs.
    ArtifactNotFound { expected: String },
    /// The module could not be moved into the output directory.
    FilesystemNormalizationFailed { reason: String },
    /// Signing failed. The unsigned module is left in place.
    SigningFailed { reason: String },
    /// Pushing failed. The signed module at `artifact` is left in place and
    /// stays valid.
    PushFailed { artifact: String, reason: String },
}

/// A `PipelineError` as contracts see it.
pub enum PipelineErrorView {
    UnsupportedProjectKind(UnsupportedKind),
    ToolchainInvocationFailed { status: Seq<char> },
    ArtifactNotFound { expected: Seq<char> },
    FilesystemNormalizationFailed { reason: Seq<char> },
    SigningFailed { reason: Seq<char> },
    PushFailed { artifact: Seq<char>, reason: Seq<char> },
}

impl View for PipelineError {
    type V = PipelineErrorView;

    open spec fn view(&self) -> PipelineErrorView {
        match self {
            PipelineError::UnsupportedProjectKind(kind) => {
                PipelineErrorView::UnsupportedProjectKind(*kind)
            },
            PipelineError::ToolchainInvocationFailed { status } => {
                PipelineErrorView::ToolchainInvocationFailed { status: status@ }
            },
            PipelineError::ArtifactNotFound { expected } => PipelineErrorView::ArtifactNotFound {
                expected: expected@,
            },
            PipelineError::FilesystemNormalizationFailed { reason } => {
                PipelineErrorView::FilesystemNormalizationFailed { reason: reason@ }
            },
            PipelineError::SigningFailed { reason } => PipelineErrorView::SigningFailed {
                reason: reason@,
            },
            PipelineError::PushFailed { artifact, reason } => PipelineErrorView::PushFailed {
                artifact: artifact@,
                reason: reason@,
            },
        }
    }
}

impl PipelineErrorView {
    /// The text shown to the user. For an unsupported kind it is fixed. A
    /// failed move and a failed signing are worded by whoever did the work;
    /// the others name the status or the path they carry.
    pub open spec fn message(self) -> Seq<char> {
        match self {
            PipelineErrorView::UnsupportedProjectKind(UnsupportedKind::Provider) => {
                PROVIDERS_NOT_BUILT@
            },
            PipelineErrorView::UnsupportedProjectKind(UnsupportedKind::Interface) => {
                INTERFACES_NOT_BUILT@
            },
            PipelineErrorView::ToolchainInvocationFailed { status } => {
                "Compiling actor failed: "@ + status
            },
            PipelineErrorView::ArtifactNotFound { expected } => {
                "Could not find compiled wasm file to sign: "@ + expected
            },
            PipelineErrorView::FilesystemNormalizationFailed { reason } => reason,
            PipelineErrorView::SigningFailed { reason } => reason,
            PipelineErrorView::PushFailed { artifact, reason } => {
                "Pushing "@ + artifact + " failed: "@ + reason
            },
        }
    }
}

impl PipelineError {
    /// Writes the text shown to the user.
    pub fn message(&self) -> (text: String)
        ensures
            text@ == self@.message(),
    {
        match self {
            PipelineError::UnsupportedProjectKind(UnsupportedKind::Provider) => String::from_str(
                PROVIDERS_NOT_BUILT,
            ),
            PipelineError::UnsupportedProjectKind(UnsupportedKind::Interface) => String::from_str(
                INTERFACES_NOT_BUILT,
            ),
            PipelineError::ToolchainInvocationFailed { status } => {
                String::from_str("Compiling actor failed: ").concat(status.as_str())
            },
            PipelineError::ArtifactNotFound { expected } => {
                String::from_str("Could not find compiled wasm file to sign: ").concat(
                    expected.as_str(),
                )
            },
            PipelineError::FilesystemNormalizationFailed { reason } => reason.clone(),
            PipelineError::SigningFailed { reason } => reason.clone(),
            PipelineError::PushFailed { artifact, reason } => {
                let mut text = String::from_str("Pushing ");
                text.append(artifact.as_str());
                text.append(" failed: ");
                text.append(reason.as_str());
                text
            },
        }
    }

    /// A copy with the same content.
    pub fn duplicate(&self) -> (copy: PipelineError)
        ensures
            copy@ == self@,
    {
        match self {
            PipelineError::UnsupportedProjectKind(kind) => {
                PipelineError::UnsupportedProjectKind(*kind)
            },
            PipelineError::ToolchainInvocationFailed { status } => {
                PipelineError::ToolchainInvocationFailed { status: status.clone() }
            },
            PipelineError::ArtifactNotFound { expected } => PipelineError::ArtifactNotFound {
                expected: expected.clone(),
            },
            PipelineError::FilesystemNormalizationFailed { reason } => {
                PipelineError::FilesystemNormalizationFailed { reason: reason.clone() }
            },
            PipelineError::SigningFailed { reason } => PipelineError::SigningFailed {
                reason: reason.clone(),
            },
            PipelineError::PushFailed { artifact, reason } => PipelineError::PushFailed {
                artifact: artifact.clone(),
                reason: reason.clone(),
            },
        }
    }
}

/// The result of a run.
#[derive(Clone, Debug, PartialEq, Eq)]
pub enum PipelineOutcome {
    /// The run went through. `status` is what the last stage said of its
    /// work; `artifact` is the path of the module it left.
    Success { status: String, artifact: String },
    Failure(PipelineError),
}

/// A `PipelineOutcome` as contracts see it.
pub enum PipelineOutcomeView {
    Success { status: Seq<char>, artifact: Seq<char> },
    Failure(PipelineErrorView),
}

impl View for PipelineOutcome {
    type V = PipelineOutcomeView;

    open spec fn view(&self) -> PipelineOutcomeView {
        match self {
            PipelineOutcome::Success { status, artifact } => PipelineOutcomeView::Success {
                status: status@,
                artifact: artifact@,
            },
            PipelineOutcome::Failure(error) => PipelineOutcomeView::Failure(error@),
        }
    }
}

impl PipelineOutcome {
    /// A copy with the same content.
    pub fn duplicate(&self) -> (copy: PipelineOutcome)
        ensures
            copy@ == self@,
    {
        match self {
            PipelineOutcome::Success { status, artifact } => PipelineOutcome::Success {
                status: status.clone(),
                artifact: artifact.clone(),
            },
            PipelineOutcome::Failure(error) => PipelineOutcome::Failure(error.duplicate()),
        }
    }
}

} // verus!
