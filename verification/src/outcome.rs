//! What an execution ends in: a result, or a failure of a known kind.

use vstd::prelude::*;

verus! {

/// The output of a fragment that ran, or the confirmation of a launch.
#[derive(Clone, Debug, PartialEq, Eq)]
pub struct ExecutionResult {
    /// The captured standard output, or a message for the user.
    pub stdout: String,
    /// Whether a process was awaited and exited with success. It is false
    /// for a process that was launched and left running.
    pub exit_succeeded: bool,
}

/// A result, with a text in place of the string.
pub struct ExecutionResultView {
    pub stdout: Seq<char>,
    pub exit_succeeded: bool,
}

impl View for ExecutionResult {
    type V = ExecutionResultView;

    open spec fn view(&self) -> ExecutionResultView {
        ExecutionResultView { stdout: self.stdout@, exit_succeeded: self.exit_succeeded }
    }
}

/// The kinds of failure.
#[derive(Clone, Debug, PartialEq, Eq)]
pub enum FailureClass {
    /// The language tag is outside the alias table. Holds the tag.
    UnsupportedLanguage(String),
    /// The runtime environment could not be set up. Holds the package that
    /// could not be installed.
    ProvisioningFailed(String),
    /// A step could not be carried out at all: a process could not be
    /// spawned, or a file or directory could not be set up.
    ToolInvocationError(String),
    /// A package that the fragment needs is absent. Holds its name.
    MissingDependency(String),
    /// The fragment reads from standard input.
    InteractiveInputRequired,
    /// The tool ran and failed. Holds its diagnostic text.
    ToolFailure(String),
}

/// A failure, with texts in place of strings.
pub enum FailureClassView {
    UnsupportedLanguage(Seq<char>),
    ProvisioningFailed(Seq<char>),
    ToolInvocationError(Seq<char>),
    MissingDependency(Seq<char>),
    InteractiveInputRequired,
    ToolFailure(Seq<char>),
}

impl View for FailureClass {
    type V = FailureClassView;

    open spec fn view(&self) -> FailureClassView {
        match self {
            FailureClass::UnsupportedLanguage(tag) => FailureClassView::UnsupportedLanguage(tag@),
            FailureClass::ProvisioningFailed(package) => FailureClassView::ProvisioningFailed(
                package@,
            ),
            FailureClass::ToolInvocationError(detail) => FailureClassView::ToolInvocationError(
                detail@,
            ),
            FailureClass::MissingDependency(name) => FailureClassView::MissingDependency(name@),
            FailureClass::InteractiveInputRequired => FailureClassView::InteractiveInputRequired,
            FailureClass::ToolFailure(text) => FailureClassView::ToolFailure(text@),
        }
    }
}

impl FailureClassView {
    /// Whether the engine answers this kind itself, by a remediation or by
    /// an interactive run, and never hands it to the caller.
    pub open spec fn is_recoverable(self) -> bool {
        self is MissingDependency || self is InteractiveInputRequired
    }
}

impl FailureClass {
    /// Whether the engine answers this kind itself, by a remediation or by
    /// an interactive run.
    pub fn is_recoverable(&self) -> (b: bool)
        ensures
            b == self@.is_recoverable(),
    {
        match self {
            FailureClass::MissingDependency(_) => true,
            FailureClass::InteractiveInputRequired => true,
            _ => false,
        }
    }

    /// The text that the failure holds, preceded by its kind.
    pub fn message(&self) -> (text: String)
        ensures
            text@ == self@.message(),
    {
        match self {
            FailureClass::UnsupportedLanguage(tag) => String::from_str(
                "Unsupported language: ",
            ).concat(tag.as_str()),
            FailureClass::ProvisioningFailed(package) => String::from_str(
                "Provisioning failed: ",
            ).concat(package.as_str()),
            FailureClass::ToolInvocationError(detail) => detail.clone(),
            FailureClass::MissingDependency(name) => String::from_str(
                "Missing dependency: ",
            ).concat(name.as_str()),
            FailureClass::InteractiveInputRequired => String::from_str(
                "Interactive input required",
            ),
            FailureClass::ToolFailure(text) => text.clone(),
        }
    }
}

impl FailureClassView {
    /// The text that the failure holds, preceded by its kind where the
    /// text alone does not tell it.
    pub open spec fn message(self) -> Seq<char> {
        match self {
            FailureClassView::UnsupportedLanguage(tag) => "Unsupported language: "@ + tag,
            FailureClassView::ProvisioningFailed(package) => "Provisioning failed: "@ + package,
            FailureClassView::ToolInvocationError(detail) => detail,
            FailureClassView::MissingDependency(name) => "Missing dependency: "@ + name,
            FailureClassView::InteractiveInputRequired => "Interactive input required"@,
            FailureClassView::ToolFailure(text) => text,
        }
    }
}

/// How an execution ends.
pub type Outcome = Result<ExecutionResult, FailureClass>;

/// An outcome, with texts in place of strings.
pub type OutcomeView = Result<ExecutionResultView, FailureClassView>;

/// The view of an outcome.
pub open spec fn outcome_view(outcome: Outcome) -> OutcomeView {
    match outcome {
        Ok(result) => Ok(result@),
        Err(failure) => Err(failure@),
    }
}

} // verus!
