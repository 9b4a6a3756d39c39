//! The execution driver, as a state machine. The engine decides; the
//! program that drives it carries out each action and hands back what came
//! of it. `Engine::start` gives the first action, `Engine::advance` the next
//! one after each event, until the action is `Finish`.

use crate::directive::{directive, intercept, MetaCommand};
use crate::failure::{classification, classify, classify_python, python_failure};
use crate::language::{resolution, resolve, RuntimeFamily};
use crate::outcome::{
    outcome_view, ExecutionResult, ExecutionResultView, FailureClass, FailureClassView, Outcome,
    OutcomeView,
};
use crate::protocol::{
    completion, exit, Action, ActionView, Event, EventView, Invocation, InvocationView, Platform,
};
use crate::text::{decimal, push_decimal, string_of};
use crate::toolchain::{
    binary_file, binary_file_of, optional_text, source_file, source_file_of, BaselineTool,
    RunnerPackage,
};
use vstd::prelude::*;
use vstd::utf8::encode_utf8;

verus! {

/// Where the run of a fragment stands. Each phase waits for the answer to
/// the action that the engine asked for on entering it.
#[derive(Debug, PartialEq, Eq)]
pub enum Phase {
    /// The working directory is being entered.
    Entering,
    /// The source file is being written.
    Writing,
    /// The marker of the environment is being looked for.
    Probing,
    /// The Python environment is being created; `second_try` after the
    /// interpreter had to be installed.
    CreatingEnvironment { second_try: bool },
    InstallingInterpreter,
    /// A baseline tool is being upgraded; `failures` tries have failed.
    UpgradingTool { tool: BaselineTool, failures: u8 },
    /// The pause before the next try.
    Pausing { tool: BaselineTool, failures: u8 },
    InitializingManifest,
    InstallingRunner { package: RunnerPackage },
    Compiling,
    /// The fragment is running.
    Running,
    /// The fragment is running again, with the caller's streams.
    RunningInteractive,
    /// The missing dependency is being installed.
    Remediating,
    RemovingSource { outcome: Outcome },
    RemovingBinary { outcome: Outcome },
    Restoring { outcome: Outcome },
}

/// A phase, with texts in place of strings.
pub enum PhaseView {
    Entering,
    Writing,
    Probing,
    CreatingEnvironment { second_try: bool },
    InstallingInterpreter,
    UpgradingTool { tool: BaselineTool, failures: u8 },
    Pausing { tool: BaselineTool, failures: u8 },
    InitializingManifest,
    InstallingRunner { package: RunnerPackage },
    Compiling,
    Running,
    RunningInteractive,
    Remediating,
    RemovingSource { outcome: OutcomeView },
    RemovingBinary { outcome: OutcomeView },
    Restoring { outcome: OutcomeView },
}

impl View for Phase {
    type V = PhaseView;

    open spec fn view(&self) -> PhaseView {
        match self {
            Phase::Entering => PhaseView::Entering,
            Phase::Writing => PhaseView::Writing,
            Phase::Probing => PhaseView::Probing,
            Phase::CreatingEnvironment { second_try } => PhaseView::CreatingEnvironment {
                second_try: *second_try,
            },
            Phase::InstallingInterpreter => PhaseView::InstallingInterpreter,
            Phase::UpgradingTool { tool, failures } => PhaseView::UpgradingTool {
                tool: *tool,
                failures: *failures,
            },
            Phase::Pausing { tool, failures } => PhaseView::Pausing {
                tool: *tool,
                failures: *failures,
            },
            Phase::InitializingManifest => PhaseView::InitializingManifest,
            Phase::InstallingRunner { package } => PhaseView::InstallingRunner {
                package: *package,
            },
            Phase::Compiling => PhaseView::Compiling,
            Phase::Running => PhaseView::Running,
            Phase::RunningInteractive => PhaseView::RunningInteractive,
            Phase::Remediating => PhaseView::Remediating,
            Phase::RemovingSource { outcome } => PhaseView::RemovingSource {
                outcome: outcome_view(*outcome),
            },
            Phase::RemovingBinary { outcome } => PhaseView::RemovingBinary {
                outcome: outcome_view(*outcome),
            },
            Phase::Restoring { outcome } => PhaseView::Restoring {
                outcome: outcome_view(*outcome),
            },
        }
    }
}

/// The run of one fragment.
#[derive(Debug, PartialEq, Eq)]
pub struct Job {
    pub platform: Platform,
    pub family: RuntimeFamily,
    pub source: String,
    /// Whether the working directory was entered and has to be restored.
    pub entered: bool,
    /// Whether the one remediation has been spent.
    pub remediated: bool,
}

/// The run of one fragment, with texts in place of strings.
pub struct JobView {
    pub platform: Platform,
    pub family: RuntimeFamily,
    pub source: Seq<char>,
    pub entered: bool,
    pub remediated: bool,
}

impl View for Job {
    type V = JobView;

    open spec fn view(&self) -> JobView {
        JobView {
            platform: self.platform,
            family: self.family,
            source: self.source@,
            entered: self.entered,
            remediated: self.remediated,
        }
    }
}

/// The state of the engine.
#[derive(Debug, PartialEq, Eq)]
pub enum Engine {
    /// The web application is being scaffolded.
    Scaffolding,
    /// A server is being launched; `confirmation` is what the caller is
    /// told once it runs.
    Launching { confirmation: String },
    /// A fragment is being run.
    Fragment(Job, Phase),
    /// The outcome has been handed out.
    Finished,
}

/// The state of the engine, with texts in place of strings.
pub enum EngineView {
    Scaffolding,
    Launching { confirmation: Seq<char> },
    Fragment(JobView, PhaseView),
    Finished,
}

impl View for Engine {
    type V = EngineView;

    open spec fn view(&self) -> EngineView {
        match self {
            Engine::Scaffolding => EngineView::Scaffolding,
            Engine::Launching { confirmation } => EngineView::Launching {
                confirmation: confirmation@,
            },
            Engine::Fragment(job, phase) => EngineView::Fragment(job@, phase@),
            Engine::Finished => EngineView::Finished,
        }
    }
}

/// A state and the action that it waits for.
pub type Step = (EngineView, ActionView);

/// Whether a state and an action are the ones that `step` names.
pub open spec fn is_step(out: (Engine, Action), step: Step) -> bool {
    out.0@ == step.0 && out.1@ == step.1
}

/// The outcome of an execution that went well.
pub open spec fn success(stdout: Seq<char>, exit_succeeded: bool) -> OutcomeView {
    Ok(ExecutionResultView { stdout, exit_succeeded })
}

/// The outcome of a tool that ran and failed.
pub open spec fn tool_failure(text: Seq<char>) -> OutcomeView {
    Err(FailureClassView::ToolFailure(text))
}

/// The outcome of a step that could not be carried out.
pub open spec fn not_carried_out(reason: Seq<char>) -> OutcomeView {
    Err(FailureClassView::ToolInvocationError(reason))
}

/// The last step: the outcome goes to the caller.
pub open spec fn finish(outcome: OutcomeView) -> Step {
    (EngineView::Finished, ActionView::Finish(outcome))
}

/// What the caller is told when the web application has been scaffolded.
pub open spec fn scaffold_done() -> Seq<char> {
    "React application created successfully. Use 'npm start' to run the development server."@
}

/// What the caller is told when the scaffolding exited with failure.
pub open spec fn scaffold_failed() -> Seq<char> {
    "Failed to create React application"@
}

/// What the caller is told when the development server has been
/// launched.
pub open spec fn dev_server_started() -> Seq<char> {
    "React development server started. Press Ctrl+C to stop."@
}

/// What the caller is told when the static server has been launched.
pub open spec fn static_server_started(port: u16) -> Seq<char> {
    "Local server started on port "@ + decimal(port as nat) + ". Press Ctrl+C to stop."@
}

/// What the caller is told when the viewer has been launched.
pub open spec fn markup_opened() -> Seq<char> {
    "HTML file opened in browser: "@ + source_file(RuntimeFamily::Markup)
}

/// What the caller is told of a run that exited with failure and whose
/// diagnostics were not read.
pub open spec fn exit_message(family: RuntimeFamily, status: Seq<char>) -> Seq<char> {
    match family {
        RuntimeFamily::Python => "Python exited with status: "@ + status,
        RuntimeFamily::Node => "Node.js exited with status: "@ + status,
        RuntimeFamily::TypeScript => "TypeScript execution failed with status: "@ + status,
        RuntimeFamily::CompiledNative => "Rust program exited with status: "@ + status,
        RuntimeFamily::Shell => "Bash script exited with status: "@ + status,
        RuntimeFamily::Markup => "Failed to open HTML file in browser"@,
    }
}

/// The reason that a finished engine gives to a further event.
pub open spec fn nothing_pending() -> Seq<char> {
    "no step is pending"@
}

impl JobView {
    /// The same run in another phase.
    pub open spec fn at(self, phase: PhaseView) -> EngineView {
        EngineView::Fragment(self, phase)
    }

    /// Writes the source, byte for byte, to the temporary file.
    pub open spec fn write(self) -> Step {
        (
            self.at(PhaseView::Writing),
            ActionView::WriteFile {
                name: source_file(self.family),
                bytes: encode_utf8(self.source),
            },
        )
    }

    /// Runs the fragment.
    pub open spec fn run(self) -> Step {
        (
            self.at(PhaseView::Running),
            ActionView::Run(InvocationView::run(self.platform, self.family)),
        )
    }

    /// What follows the writing of the source: the environment of the
    /// family is looked for, the source is compiled, or it is run at once.
    pub open spec fn dispatch(self) -> Step {
        match self.family {
            RuntimeFamily::Python | RuntimeFamily::Node | RuntimeFamily::TypeScript =>
                self.probe(),
            RuntimeFamily::CompiledNative => (
                self.at(PhaseView::Compiling),
                ActionView::Run(InvocationView::compile()),
            ),
            RuntimeFamily::Shell | RuntimeFamily::Markup => self.run(),
        }
    }

    /// Installs a package that runs TypeScript sources.
    pub open spec fn install_runner(self, package: RunnerPackage) -> Step {
        (
            self.at(PhaseView::InstallingRunner { package }),
            ActionView::Run(InvocationView::install_node_package(package.package())),
        )
    }

    /// What follows once the environment is there.
    pub open spec fn provisioned(self) -> Step {
        if self.family == RuntimeFamily::TypeScript {
            self.install_runner(RunnerPackage::TypeScript)
        } else {
            self.run()
        }
    }

    /// Installs the missing package; the remediation is then spent.
    pub open spec fn remediate(self, package: Seq<char>) -> Step {
        (
            (JobView { remediated: true, ..self }).at(PhaseView::Remediating),
            ActionView::Run(
                InvocationView::install_dependency(self.platform, self.family, package),
            ),
        )
    }

    /// Ends the run with `outcome`, once the working directory is
    /// restored.
    pub open spec fn restore(self, outcome: OutcomeView) -> Step {
        if self.entered {
            (self.at(PhaseView::Restoring { outcome }), ActionView::RestoreDirectory)
        } else {
            finish(outcome)
        }
    }

    /// Ends the run with `outcome`, once the temporary files are removed
    /// and the working directory is restored. The file of a markup
    /// fragment stays, for the viewer.
    pub open spec fn cleanup(self, outcome: OutcomeView) -> Step {
        if self.family == RuntimeFamily::Markup {
            self.restore(outcome)
        } else {
            (
                self.at(PhaseView::RemovingSource { outcome }),
                ActionView::RemoveFile(source_file(self.family)),
            )
        }
    }

    /// Ends the run because a step could not be carried out.
    pub open spec fn abort(self, reason: Seq<char>) -> Step {
        self.cleanup(not_carried_out(reason))
    }

    /// What follows a run that exited with failure. Only the first failure
    /// of a Python or Node fragment is classified; the failure of a run
    /// that follows a remediation is final.
    pub open spec fn failed(self, stderr: Seq<char>, status: Seq<char>) -> Step {
        match self.family {
            RuntimeFamily::Python => if self.remediated {
                self.cleanup(tool_failure(stderr))
            } else {
                match python_failure(stderr) {
                    FailureClassView::MissingDependency(package) => self.remediate(package),
                    FailureClassView::InteractiveInputRequired => (
                        self.at(PhaseView::RunningInteractive),
                        ActionView::Run(InvocationView::run_interactive(self.platform)),
                    ),
                    _ => self.cleanup(tool_failure(stderr)),
                }
            },
            RuntimeFamily::Node => if self.remediated {
                self.cleanup(tool_failure(stderr))
            } else {
                match classification(stderr) {
                    FailureClassView::MissingDependency(package) => self.remediate(package),
                    _ => self.cleanup(tool_failure(stderr)),
                }
            },
            _ => self.cleanup(tool_failure(exit_message(self.family, status))),
        }
    }

    /// What follows the answer to the run of the fragment.
    pub open spec fn ran(self, event: EventView) -> Step {
        if self.family == RuntimeFamily::Markup {
            match completion(event) {
                None => self.cleanup(success(markup_opened(), false)),
                Some(reason) => self.abort(reason),
            }
        } else {
            match exit(event) {
                Err(reason) => self.abort(reason),
                Ok(e) => if !e.success {
                    self.failed(e.stderr, e.status)
                } else if self.family == RuntimeFamily::Python {
                    self.cleanup(success(e.stdout, true))
                } else {
                    self.cleanup(success(Seq::empty(), true))
                },
            }
        }
    }

    /// The state and the action that follow `event`.
    pub open spec fn step(self, phase: PhaseView, event: EventView) -> Step {
        match phase {
            PhaseView::Entering => match completion(event) {
                None => (JobView { entered: true, ..self }).write(),
                Some(reason) => finish(not_carried_out(reason)),
            },
            PhaseView::Writing => match completion(event) {
                None => self.dispatch(),
                Some(reason) => self.abort(reason),
            },
            PhaseView::Probing => self.probed(event),
            PhaseView::CreatingEnvironment { second_try } => self.created(second_try, event),
            PhaseView::InstallingInterpreter => self.interpreter_installed(event),
            PhaseView::UpgradingTool { tool, failures } => self.upgraded(tool, failures, event),
            PhaseView::Pausing { tool, failures } => self.upgrade(tool, failures),
            PhaseView::InitializingManifest => self.manifest_initialized(event),
            PhaseView::InstallingRunner { package } => match exit(event) {
                Ok(_) => match package {
                    RunnerPackage::TypeScript => self.install_runner(RunnerPackage::TsNode),
                    RunnerPackage::TsNode => self.run(),
                },
                Err(reason) => self.abort(reason),
            },
            PhaseView::Compiling => match exit(event) {
                Ok(e) => if e.success {
                    self.run()
                } else {
                    self.cleanup(tool_failure(e.stderr))
                },
                Err(reason) => self.abort(reason),
            },
            PhaseView::Running => self.ran(event),
            PhaseView::RunningInteractive => match exit(event) {
                Ok(e) => if e.success {
                    self.cleanup(success(Seq::empty(), true))
                } else {
                    self.cleanup(tool_failure(exit_message(RuntimeFamily::Python, e.status)))
                },
                Err(reason) => self.abort(reason),
            },
            PhaseView::Remediating => match exit(event) {
                Ok(_) => (JobView { remediated: true, ..self }).write(),
                Err(reason) => self.abort(reason),
            },
            PhaseView::RemovingSource { outcome } => if self.family
                == RuntimeFamily::CompiledNative {
                (
                    self.at(PhaseView::RemovingBinary { outcome }),
                    ActionView::RemoveFile(binary_file(self.platform)),
                )
            } else {
                self.restore(outcome)
            },
            PhaseView::RemovingBinary { outcome } => self.restore(outcome),
            PhaseView::Restoring { outcome } => match event {
                EventView::Failed(reason) => finish(not_carried_out(reason)),
                _ => finish(outcome),
            },
        }
    }
}

impl EngineView {
    /// The first state and action for a fragment. A directive is carried
    /// out whatever the tag says; a tag that does not resolve ends the
    /// execution at once.
    pub open spec fn start(
        code: Seq<char>,
        language: Seq<char>,
        workdir: Option<Seq<char>>,
        platform: Platform,
    ) -> Step {
        match directive(code) {
            Some(MetaCommand::ScaffoldWebApp) => (
                EngineView::Scaffolding,
                ActionView::Run(InvocationView::scaffold(workdir)),
            ),
            Some(MetaCommand::StartDevServer) => (
                EngineView::Launching { confirmation: dev_server_started() },
                ActionView::Run(InvocationView::dev_server(workdir)),
            ),
            Some(MetaCommand::StartStaticServer { port }) => (
                EngineView::Launching { confirmation: static_server_started(port) },
                ActionView::Run(InvocationView::static_server(port, workdir)),
            ),
            None => match resolution(language) {
                None => finish(Err(FailureClassView::UnsupportedLanguage(language))),
                Some(resolved) => {
                    let job = JobView {
                        platform,
                        family: resolved.runtime_family,
                        source: code,
                        entered: false,
                        remediated: false,
                    };
                    match workdir {
                        Some(path) => (
                            job.at(PhaseView::Entering),
                            ActionView::EnterDirectory(path),
                        ),
                        None => job.write(),
                    }
                },
            },
        }
    }

    /// The state and the action that follow `event`.
    pub open spec fn step(self, event: EventView) -> Step {
        match self {
            EngineView::Scaffolding => match exit(event) {
                Ok(e) => if e.success {
                    finish(success(scaffold_done(), true))
                } else {
                    finish(tool_failure(scaffold_failed()))
                },
                Err(reason) => finish(not_carried_out(reason)),
            },
            EngineView::Launching { confirmation } => match completion(event) {
                None => finish(success(confirmation, false)),
                Some(reason) => finish(not_carried_out(reason)),
            },
            EngineView::Fragment(job, phase) => job.step(phase, event),
            EngineView::Finished => finish(not_carried_out(nothing_pending())),
        }
    }
}

fn succeeded(stdout: String, exit_succeeded: bool) -> (out: Outcome)
    ensures
        outcome_view(out) == success(stdout@, exit_succeeded),
{
    Ok(ExecutionResult { stdout, exit_succeeded })
}

fn tool_failed(text: String) -> (out: Outcome)
    ensures
        outcome_view(out) == tool_failure(text@),
{
    Err(FailureClass::ToolFailure(text))
}

fn not_done(reason: String) -> (out: Outcome)
    ensures
        outcome_view(out) == not_carried_out(reason@),
{
    Err(FailureClass::ToolInvocationError(reason))
}

fn finished(outcome: Outcome) -> (out: (Engine, Action))
    ensures
        is_step(out, finish(outcome_view(outcome))),
{
    (Engine::Finished, Action::Finish(outcome))
}

fn exit_message_of(family: RuntimeFamily, status: &str) -> (out: String)
    ensures
        out@ == exit_message(family, status@),
{
    match family {
        RuntimeFamily::Python => String::from_str("Python exited with status: ").concat(status),
        RuntimeFamily::Node => String::from_str("Node.js exited with status: ").concat(status),
        RuntimeFamily::TypeScript => String::from_str(
            "TypeScript execution failed with status: ",
        ).concat(status),
        RuntimeFamily::CompiledNative => String::from_str(
            "Rust program exited with status: ",
        ).concat(status),
        RuntimeFamily::Shell => String::from_str("Bash script exited with status: ").concat(
            status,
        ),
        RuntimeFamily::Markup => String::from_str("Failed to open HTML file in browser"),
    }
}

fn server_confirmation(port: u16) -> (out: String)
    ensures
        out@ == static_server_started(port),
{
    let mut digits: Vec<char> = Vec::new();
    push_decimal(&mut digits, port);
    assert(digits@ == decimal(port as nat));
    let number = string_of(digits.as_slice());
    String::from_str("Local server started on port ").concat(number.as_str()).concat(
        ". Press Ctrl+C to stop.",
    )
}

impl Job {
    pub(crate) fn at(self, phase: Phase) -> (out: Engine)
        ensures
            out@ == self@.at(phase@),
    {
        Engine::Fragment(self, phase)
    }

    fn write(self) -> (out: (Engine, Action))
        ensures
            is_step(out, self@.write()),
    {
        let name = source_file_of(self.family);
        let bytes = self.source.as_str().as_bytes_vec();
        (self.at(Phase::Writing), Action::WriteFile { name, bytes })
    }

    fn run(self) -> (out: (Engine, Action))
        ensures
            is_step(out, self@.run()),
    {
        let invocation = Invocation::run(self.platform, self.family);
        (self.at(Phase::Running), Action::Run(invocation))
    }

    fn dispatch(self) -> (out: (Engine, Action))
        ensures
            is_step(out, self@.dispatch()),
    {
        match self.family {
            RuntimeFamily::Python | RuntimeFamily::Node | RuntimeFamily::TypeScript => self.probe(),
            RuntimeFamily::CompiledNative => (
                self.at(Phase::Compiling),
                Action::Run(Invocation::compile()),
            ),
            RuntimeFamily::Shell | RuntimeFamily::Markup => self.run(),
        }
    }

    fn install_runner(self, package: RunnerPackage) -> (out: (Engine, Action))
        ensures
            is_step(out, self@.install_runner(package)),
    {
        (
            self.at(Phase::InstallingRunner { package }),
            Action::Run(Invocation::install_node_package(package.name())),
        )
    }

    pub(crate) fn provisioned(self) -> (out: (Engine, Action))
        ensures
            is_step(out, self@.provisioned()),
    {
        match self.family {
            RuntimeFamily::TypeScript => self.install_runner(RunnerPackage::TypeScript),
            _ => self.run(),
        }
    }

    fn remediate(self, package: String) -> (out: (Engine, Action))
        ensures
            is_step(out, self@.remediate(package@)),
    {
        let invocation = Invocation::install_dependency(
            self.platform,
            self.family,
            package.as_str(),
        );
        let job = Job { remediated: true, ..self };
        (job.at(Phase::Remediating), Action::Run(invocation))
    }

    fn restore(self, outcome: Outcome) -> (out: (Engine, Action))
        ensures
            is_step(out, self@.restore(outcome_view(outcome))),
    {
        if self.entered {
            (self.at(Phase::Restoring { outcome }), Action::RestoreDirectory)
        } else {
            finished(outcome)
        }
    }

    pub(crate) fn cleanup(self, outcome: Outcome) -> (out: (Engine, Action))
        ensures
            is_step(out, self@.cleanup(outcome_view(outcome))),
    {
        match self.family {
            RuntimeFamily::Markup => self.restore(outcome),
            _ => {
                let name = source_file_of(self.family);
                (self.at(Phase::RemovingSource { outcome }), Action::RemoveFile(name))
            },
        }
    }

    pub(crate) fn abort(self, reason: String) -> (out: (Engine, Action))
        ensures
            is_step(out, self@.abort(reason@)),
    {
        self.cleanup(not_done(reason))
    }

    fn failed(self, stderr: String, status: String) -> (out: (Engine, Action))
        ensures
            is_step(out, self@.failed(stderr@, status@)),
    {
        match self.family {
            RuntimeFamily::Python => {
                if self.remediated {
                    self.cleanup(tool_failed(stderr))
                } else {
                    match classify_python(stderr.as_str(), self.source.as_str()) {
                        FailureClass::MissingDependency(package) => self.remediate(package),
                        FailureClass::InteractiveInputRequired => {
                            let invocation = Invocation::run_interactive(self.platform);
                            (self.at(Phase::RunningInteractive), Action::Run(invocation))
                        },
                        _ => self.cleanup(tool_failed(stderr)),
                    }
                }
            },
            RuntimeFamily::Node => {
                if self.remediated {
                    self.cleanup(tool_failed(stderr))
                } else {
                    match classify(stderr.as_str(), self.source.as_str()) {
                        FailureClass::MissingDependency(package) => self.remediate(package),
                        _ => self.cleanup(tool_failed(stderr)),
                    }
                }
            },
            _ => {
                let text = exit_message_of(self.family, status.as_str());
                self.cleanup(tool_failed(text))
            },
        }
    }

    fn ran(self, event: Event) -> (out: (Engine, Action))
        ensures
            is_step(out, self@.ran(event@)),
    {
        match self.family {
            RuntimeFamily::Markup => match event.completion() {
                None => {
                    let name = source_file_of(RuntimeFamily::Markup);
                    let text = String::from_str("HTML file opened in browser: ").concat(
                        name.as_str(),
                    );
                    self.cleanup(succeeded(text, false))
                },
                Some(reason) => self.abort(reason),
            },
            _ => match event.exit() {
                Err(reason) => self.abort(reason),
                Ok(e) => {
                    if !e.success {
                        self.failed(e.stderr, e.status)
                    } else {
                        match self.family {
                            RuntimeFamily::Python => self.cleanup(succeeded(e.stdout, true)),
                            _ => self.cleanup(succeeded(String::new(), true)),
                        }
                    }
                },
            },
        }
    }

    /// The state and the action that follow `event` in `phase`.
    pub fn advance(self, phase: Phase, event: Event) -> (out: (Engine, Action))
        ensures
            is_step(out, self@.step(phase@, event@)),
    {
        match phase {
            Phase::Entering => match event.completion() {
                None => {
                    let job = Job { entered: true, ..self };
                    job.write()
                },
                Some(reason) => finished(not_done(reason)),
            },
            Phase::Writing => match event.completion() {
                None => self.dispatch(),
                Some(reason) => self.abort(reason),
            },
            Phase::Probing => self.probed(event),
            Phase::CreatingEnvironment { second_try } => self.created(second_try, event),
            Phase::InstallingInterpreter => self.interpreter_installed(event),
            Phase::UpgradingTool { tool, failures } => self.upgraded(tool, failures, event),
            Phase::Pausing { tool, failures } => self.upgrade(tool, failures),
            Phase::InitializingManifest => self.manifest_initialized(event),
            Phase::InstallingRunner { package } => match event.exit() {
                Ok(_) => match package {
                    RunnerPackage::TypeScript => self.install_runner(RunnerPackage::TsNode),
                    RunnerPackage::TsNode => self.run(),
                },
                Err(reason) => self.abort(reason),
            },
            Phase::Compiling => match event.exit() {
                Ok(e) => {
                    if e.success {
                        self.run()
                    } else {
                        self.cleanup(tool_failed(e.stderr))
                    }
                },
                Err(reason) => self.abort(reason),
            },
            Phase::Running => self.ran(event),
            Phase::RunningInteractive => match event.exit() {
                Ok(e) => {
                    if e.success {
                        self.cleanup(succeeded(String::new(), true))
                    } else {
                        let text = exit_message_of(RuntimeFamily::Python, e.status.as_str());
                        self.cleanup(tool_failed(text))
                    }
                },
                Err(reason) => self.abort(reason),
            },
            Phase::Remediating => match event.exit() {
                Ok(_) => {
                    let job = Job { remediated: true, ..self };
                    job.write()
                },
                Err(reason) => self.abort(reason),
            },
            Phase::RemovingSource { outcome } => match self.family {
                RuntimeFamily::CompiledNative => {
                    let name = binary_file_of(self.platform);
                    (self.at(Phase::RemovingBinary { outcome }), Action::RemoveFile(name))
                },
                _ => self.restore(outcome),
            },
            Phase::RemovingBinary { outcome } => self.restore(outcome),
            Phase::Restoring { outcome } => match event {
                Event::Failed(reason) => finished(not_done(reason)),
                _ => finished(outcome),
            },
        }
    }
}

impl Engine {
    /// Takes up a fragment: `code` with its language tag, to be run in
    /// `workdir` where one is given. Gives the first state and the action
    /// that it waits for.
    pub fn start(code: &str, language: &str, workdir: Option<&str>, platform: Platform) -> (out: (
        Engine,
        Action,
    ))
        ensures
            is_step(out, EngineView::start(code@, language@, optional_text(workdir), platform)),
    {
        match intercept(code) {
            Some(MetaCommand::ScaffoldWebApp) => (
                Engine::Scaffolding,
                Action::Run(Invocation::scaffold(workdir)),
            ),
            Some(MetaCommand::StartDevServer) => (
                Engine::Launching {
                    confirmation: String::from_str(
                        "React development server started. Press Ctrl+C to stop.",
                    ),
                },
                Action::Run(Invocation::dev_server(workdir)),
            ),
            Some(MetaCommand::StartStaticServer { port }) => (
                Engine::Launching { confirmation: server_confirmation(port) },
                Action::Run(Invocation::static_server(port, workdir)),
            ),
            None => match resolve(language) {
                Err(failure) => finished(Err(failure)),
                Ok(resolved) => {
                    let job = Job {
                        platform,
                        family: resolved.runtime_family,
                        source: String::from_str(code),
                        entered: false,
                        remediated: false,
                    };
                    match workdir {
                        Some(path) => (
                            job.at(Phase::Entering),
                            Action::EnterDirectory(String::from_str(path)),
                        ),
                        None => job.write(),
                    }
                },
            },
        }
    }

    /// Takes the answer to the pending action. Gives the next state and
    /// the action that it waits for.
    pub fn advance(self, event: Event) -> (out: (Engine, Action))
        ensures
            is_step(out, self@.step(event@)),
    {
        match self {
            Engine::Scaffolding => match event.exit() {
                Ok(e) => {
                    if e.success {
                        finished(
                            succeeded(
                                String::from_str(
                                    "React application created successfully. Use 'npm start' to run the development server.",
                                ),
                                true,
                            ),
                        )
                    } else {
                        let text = String::from_str("Failed to create React application");
                        finished(tool_failed(text))
                    }
                },
                Err(reason) => finished(not_done(reason)),
            },
            Engine::Launching { confirmation } => match event.completion() {
                None => finished(succeeded(confirmation, false)),
                Some(reason) => finished(not_done(reason)),
            },
            Engine::Fragment(job, phase) => job.advance(phase, event),
            Engine::Finished => finished(not_done(String::from_str("no step is pending"))),
        }
    }

    /// Whether the outcome has been handed out.
    pub fn is_finished(&self) -> (done: bool)
        ensures
            done == (self@ is Finished),
    {
        match self {
            Engine::Finished => true,
            _ => false,
        }
    }
}

} // verus!
