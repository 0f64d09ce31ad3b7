//! The test command: which checks to run on a project, and how to read
//! their result. Running them is the caller's part.

use crate::config::{BackendOptions, BackendOptionsView, ProjectConfig};
use crate::toolchain::{
    resolve_driver, resolved_driver, Invocation, InvocationView, ToolchainReport,
    ToolchainReportView,
};
use vstd::prelude::*;

verus! {

/// What the user asked of the test command. It takes no options.
#[derive(Clone, Copy, Debug)]
pub struct TestCommand {}

/// What a command hands back to be shown: one keyed entry for structured
/// output, and the same as plain text.
#[derive(Clone, Debug, PartialEq, Eq)]
pub struct CommandOutput {
    pub key: String,
    pub text: String,
}

/// A `CommandOutput` as contracts see it.
pub struct CommandOutputView {
    pub key: Seq<char>,
    pub text: Seq<char>,
}

impl View for CommandOutput {
    type V = CommandOutputView;

    open spec fn view(&self) -> CommandOutputView {
        CommandOutputView { key: self.key@, text: self.text@ }
    }
}

impl CommandOutput {
    /// An output of one entry.
    pub fn from_key_and_text(key: &str, text: String) -> (output: CommandOutput)
        ensures
            output@ == (CommandOutputView { key: key@, text: text@ }),
    {
        CommandOutput { key: key.to_owned(), text }
    }
}

/// The checks of a project: the process to run, and the name the checks go
/// by in messages.
#[derive(Clone, Debug, PartialEq, Eq)]
pub struct TestPlan {
    pub invocation: Invocation,
    pub label: String,
}

/// A `TestPlan` as contracts see it.
pub struct TestPlanView {
    pub invocation: InvocationView,
    pub label: Seq<char>,
}

impl View for TestPlan {
    type V = TestPlanView;

    open spec fn view(&self) -> TestPlanView {
        TestPlanView { invocation: self.invocation@, label: self.label@ }
    }
}

/// Why the test command failed.
#[derive(Clone, Debug, PartialEq, Eq)]
pub enum TestError {
    /// The checks ran and reported failure.
    ChecksFailed { label: String, status: String },
    /// The checks could not be started.
    ToolUnavailable { reason: String },
}

/// A `TestError` as contracts see it.
pub enum TestErrorView {
    ChecksFailed { label: Seq<char>, status: Seq<char> },
    ToolUnavailable { reason: Seq<char> },
}

impl View for TestError {
    type V = TestErrorView;

    open spec fn view(&self) -> TestErrorView {
        match self {
            TestError::ChecksFailed { label, status } => TestErrorView::ChecksFailed {
                label: label@,
                status: status@,
            },
            TestError::ToolUnavailable { reason } => TestErrorView::ToolUnavailable {
                reason: reason@,
            },
        }
    }
}

impl TestErrorView {
    /// The text shown to the user.
    pub open spec fn message(self) -> Seq<char> {
        match self {
            TestErrorView::ChecksFailed { label, status } => "`"@ + label + "` failed: "@ + status,
            TestErrorView::ToolUnavailable { reason } => reason,
        }
    }
}

impl TestError {
    /// Writes the text shown to the user.
    pub fn message(&self) -> (text: String)
        ensures
            text@ == self@.message(),
    {
        match self {
            TestError::ChecksFailed { label, status } => {
                let mut text = String::from_str("`");
                text.append(label.as_str());
                text.append("` failed: ");
                text.append(status.as_str());
                text
            },
            TestError::ToolUnavailable { reason } => reason.clone(),
        }
    }
}

/// The checks that belong to a backend: the linter over all features and
/// targets for Rust, the test runner for TinyGo, each through the
/// backend's own driver.
pub open spec fn checks_for(language: BackendOptionsView) -> TestPlanView {
    match language {
        BackendOptionsView::Rust(rust) => TestPlanView {
            invocation: InvocationView {
                program: resolved_driver(rust.cargo_path, "cargo"@),
                args: seq!["clippy"@, "--all-features"@, "--all-targets"@],
            },
            label: "cargo clippy"@,
        },
        BackendOptionsView::TinyGo(tinygo) => TestPlanView {
            invocation: InvocationView {
                program: resolved_driver(tinygo.tinygo_path, "tinygo"@),
                args: seq!["test"@],
            },
            label: "tinygo test"@,
        },
    }
}

/// What the command answers once the checks have been run: the fixed
/// success output where they passed, else the failure with their label
/// and status, or the reason they did not start.
pub open spec fn verdict(plan: TestPlanView, report: ToolchainReportView) -> Result<
    CommandOutputView,
    TestErrorView,
> {
    match report {
        ToolchainReportView::Exited { success, status } => if success {
            Ok(CommandOutputView { key: "result"@, text: "tests passed!"@ })
        } else {
            Err(TestErrorView::ChecksFailed { label: plan.label, status })
        },
        ToolchainReportView::Unavailable { reason } => Err(
            TestErrorView::ToolUnavailable { reason },
        ),
    }
}

/// A result taken by the views of what it holds.
pub open spec fn verdict_view(result: Result<CommandOutput, TestError>) -> Result<
    CommandOutputView,
    TestErrorView,
> {
    match result {
        Ok(output) => Ok(output@),
        Err(error) => Err(error@),
    }
}

/// Chooses the checks for a project.
pub fn handle_command(_command: TestCommand, config: &ProjectConfig) -> (plan: TestPlan)
    ensures
        plan@ == checks_for(config@.language),
{
    match &config.language {
        BackendOptions::Rust(rust_config) => {
            let mut args: Vec<String> = Vec::new();
            args.push(String::from_str("clippy"));
            args.push(String::from_str("--all-features"));
            args.push(String::from_str("--all-targets"));
            assert(args.deep_view() =~= seq!["clippy"@, "--all-features"@, "--all-targets"@]);
            TestPlan {
                invocation: Invocation {
                    program: resolve_driver(&rust_config.cargo_path, "cargo"),
                    args,
                },
                label: String::from_str("cargo clippy"),
            }
        },
        BackendOptions::TinyGo(tinygo_config) => {
            let mut args: Vec<String> = Vec::new();
            args.push(String::from_str("test"));
            assert(args.deep_view() =~= seq!["test"@]);
            TestPlan {
                invocation: Invocation {
                    program: resolve_driver(&tinygo_config.tinygo_path, "tinygo"),
                    args,
                },
                label: String::from_str("tinygo test"),
            }
        },
    }
}

impl TestPlan {
    /// Reads what the checks reported.
    pub fn conclude(&self, report: ToolchainReport) -> (result: Result<CommandOutput, TestError>)
        ensures
            verdict_view(result) == verdict(self@, report@),
    {
        match report {
            ToolchainReport::Exited { success, status } => {
                if success {
                    Ok(CommandOutput::from_key_and_text("result", String::from_str("tests passed!")))
                } else {
                    Err(TestError::ChecksFailed { label: self.label.clone(), status })
                }
            },
            ToolchainReport::Unavailable { reason } => Err(TestError::ToolUnavailable { reason }),
        }
    }
}

} // verus!
