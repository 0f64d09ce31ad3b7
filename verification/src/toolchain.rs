//! How an external compiler is named and called, and what is known once it
//! has been called. Running it is the caller's part.

use vstd::prelude::*;

verus! {

/// A process to start: the program and its arguments, in order.
#[derive(Clone, Debug, PartialEq, Eq)]
pub struct Invocation {
    pub program: String,
    pub args: Vec<String>,
}

/// An `Invocation` as contracts see it.
pub struct InvocationView {
    pub program: Seq<char>,
    pub args: Seq<Seq<char>>,
}

impl View for Invocation {
    type V = InvocationView;

    open spec fn view(&self) -> InvocationView {
        InvocationView { program: self.program@, args: self.args.deep_view() }
    }
}

/// What became of an invocation.
#[derive(Clone, Debug, PartialEq, Eq)]
pub enum ToolchainReport {
    /// The process ran to its end. `status` is its exit status as the
    /// platform words it.
    Exited { success: bool, status: String },
    /// The process could not be started.
    Unavailable { reason: String },
}

/// A `ToolchainReport` as contracts see it.
pub enum ToolchainReportView {
    Exited { success: bool, status: Seq<char> },
    Unavailable { reason: Seq<char> },
}

impl View for ToolchainReport {
    type V = ToolchainReportView;

    open spec fn view(&self) -> ToolchainReportView {
        match self {
            ToolchainReport::Exited { success, status } => ToolchainReportView::Exited {
                success: *success,
                status: status@,
            },
            ToolchainReport::Unavailable { reason } => ToolchainReportView::Unavailable {
                reason: reason@,
            },
        }
    }
}

impl ToolchainReportView {
    /// Whether the toolchain ran and reported success.
    pub open spec fn succeeded(self) -> bool {
        self matches ToolchainReportView::Exited { success, .. } && success
    }

    /// The text that says what went wrong, for a report that is no success:
    /// the exit status, or why the process did not start.
    pub open spec fn complaint(self) -> Seq<char> {
        match self {
            ToolchainReportView::Exited { status, .. } => status,
            ToolchainReportView::Unavailable { reason } => reason,
        }
    }
}

/// The program a driver resolves to: the override where one is given, else
/// the standard name, which the platform looks up on its search path.
pub open spec fn resolved_driver(configured: Option<Seq<char>>, standard: Seq<char>) -> Seq<char> {
    match configured {
        Some(path) => path,
        None => standard,
    }
}

/// Resolves a compiler driver to the program to start.
pub fn resolve_driver(configured: &Option<String>, standard: &str) -> (program: String)
    ensures
        program@ == resolved_driver(configured.deep_view(), standard@),
{
    match configured {
        Some(path) => path.clone(),
        None => standard.to_owned(),
    }
}

} // verus!
