//! What passes between the engine and the program that drives it: the
//! actions that the engine asks for and the events that answer them.

use crate::outcome::{outcome_view, Outcome, OutcomeView};
use vstd::prelude::*;

verus! {

/// The host's kind of operating system.
#[derive(Clone, Copy, Debug, PartialEq, Eq, Structural)]
pub enum Platform {
    Windows,
    MacOs,
    Posix,
}

/// How a process is run.
#[derive(Clone, Copy, Debug, PartialEq, Eq, Structural)]
pub enum Mode {
    /// Awaited, with its output and its diagnostics captured.
    Capture,
    /// Awaited, with the caller's input, output and error streams.
    Foreground,
    /// Launched with the caller's streams and not awaited.
    Background,
}

/// The texts that the strings of `v` hold.
pub open spec fn strings(v: Seq<String>) -> Seq<Seq<char>> {
    v.map_values(|s: String| s@)
}

/// A process to run: the program, each of its arguments, and the
/// directory to run it in.
#[derive(Clone, Debug, PartialEq, Eq)]
pub struct Invocation {
    pub program: String,
    pub arguments: Vec<String>,
    pub mode: Mode,
    /// The path segments of the directory, to be joined in order. Empty
    /// for the current directory.
    pub directory: Vec<String>,
}

/// A process to run, with texts in place of strings.
pub struct InvocationView {
    pub program: Seq<char>,
    pub arguments: Seq<Seq<char>>,
    pub mode: Mode,
    pub directory: Seq<Seq<char>>,
}

impl View for Invocation {
    type V = InvocationView;

    open spec fn view(&self) -> InvocationView {
        InvocationView {
            program: self.program@,
            arguments: strings(self.arguments@),
            mode: self.mode,
            directory: strings(self.directory@),
        }
    }
}

/// A step that the engine asks its driver to carry out.
#[derive(Debug, PartialEq, Eq)]
pub enum Action {
    /// Create the directory as needed and make it the working directory,
    /// keeping the one before. Answered by `Completed` or `Failed`.
    EnterDirectory(String),
    /// Go back to the working directory that was kept. Answered by
    /// `Completed` or `Failed`.
    RestoreDirectory,
    /// Write the bytes to the file. Answered by `Completed` or `Failed`.
    WriteFile { name: String, bytes: Vec<u8> },
    /// Remove the file if it is there. Any answer is accepted.
    RemoveFile(String),
    /// Tell whether the path exists. Answered by `Present`.
    Probe(String),
    /// Run the process. A process that is awaited is answered by `Exited`,
    /// one that is launched by `Completed`, and one that could not be
    /// spawned by `Failed`.
    Run(Invocation),
    /// Let the time pass. Any answer is accepted.
    Wait { milliseconds: u64 },
    /// The execution is over: hand the outcome to the caller.
    Finish(Outcome),
}

/// An action, with texts in place of strings.
pub enum ActionView {
    EnterDirectory(Seq<char>),
    RestoreDirectory,
    WriteFile { name: Seq<char>, bytes: Seq<u8> },
    RemoveFile(Seq<char>),
    Probe(Seq<char>),
    Run(InvocationView),
    Wait { milliseconds: u64 },
    Finish(OutcomeView),
}

impl View for Action {
    type V = ActionView;

    open spec fn view(&self) -> ActionView {
        match self {
            Action::EnterDirectory(path) => ActionView::EnterDirectory(path@),
            Action::RestoreDirectory => ActionView::RestoreDirectory,
            Action::WriteFile { name, bytes } => ActionView::WriteFile {
                name: name@,
                bytes: bytes@,
            },
            Action::RemoveFile(name) => ActionView::RemoveFile(name@),
            Action::Probe(path) => ActionView::Probe(path@),
            Action::Run(invocation) => ActionView::Run(invocation@),
            Action::Wait { milliseconds } => ActionView::Wait { milliseconds: *milliseconds },
            Action::Finish(outcome) => ActionView::Finish(outcome_view(*outcome)),
        }
    }
}

/// What came of an action.
#[derive(Clone, Debug, PartialEq, Eq)]
pub enum Event {
    /// The answer to a probe.
    Present(bool),
    /// The action was carried out.
    Completed,
    /// The process ran and exited. `status` describes the exit for the
    /// user; `stdout` and `stderr` hold what was captured of them.
    Exited { success: bool, stdout: String, stderr: String, status: String },
    /// The action could not be carried out. Holds the reason.
    Failed(String),
}

/// An event, with texts in place of strings.
pub enum EventView {
    Present(bool),
    Completed,
    Exited { success: bool, stdout: Seq<char>, stderr: Seq<char>, status: Seq<char> },
    Failed(Seq<char>),
}

impl View for Event {
    type V = EventView;

    open spec fn view(&self) -> EventView {
        match self {
            Event::Present(found) => EventView::Present(*found),
            Event::Completed => EventView::Completed,
            Event::Exited { success, stdout, stderr, status } => EventView::Exited {
                success: *success,
                stdout: stdout@,
                stderr: stderr@,
                status: status@,
            },
            Event::Failed(reason) => EventView::Failed(reason@),
        }
    }
}

/// How a process ended.
pub struct Exit {
    pub success: bool,
    pub stdout: String,
    pub stderr: String,
    pub status: String,
}

/// An exit, with texts in place of strings.
pub struct ExitView {
    pub success: bool,
    pub stdout: Seq<char>,
    pub stderr: Seq<char>,
    pub status: Seq<char>,
}

impl View for Exit {
    type V = ExitView;

    open spec fn view(&self) -> ExitView {
        ExitView {
            success: self.success,
            stdout: self.stdout@,
            stderr: self.stderr@,
            status: self.status@,
        }
    }
}

/// The reason that stands for an event of a kind that the pending action
/// cannot have.
pub open spec fn unexpected() -> Seq<char> {
    "unexpected event"@
}

/// An event read as the answer to a probe: present only if it says so.
pub open spec fn presence(event: EventView) -> bool {
    event == EventView::Present(true)
}

/// An event read as the answer to an action that completes: the reason of
/// the failure, if it did not.
pub open spec fn completion(event: EventView) -> Option<Seq<char>> {
    match event {
        EventView::Completed => None,
        EventView::Failed(reason) => Some(reason),
        _ => Some(unexpected()),
    }
}

/// An event read as the answer to a process that is awaited: how it
/// exited, or the reason why it did not run.
pub open spec fn exit(event: EventView) -> Result<ExitView, Seq<char>> {
    match event {
        EventView::Exited { success, stdout, stderr, status } => Ok(
            ExitView { success, stdout, stderr, status },
        ),
        EventView::Failed(reason) => Err(reason),
        _ => Err(unexpected()),
    }
}

impl Event {
    /// Reads the event as the answer to a probe.
    pub fn presence(&self) -> (found: bool)
        ensures
            found == presence(self@),
    {
        match self {
            Event::Present(found) => *found,
            _ => false,
        }
    }

    /// Reads the event as the answer to an action that completes.
    pub fn completion(self) -> (out: Option<String>)
        ensures
            match completion(self@) {
                Some(reason) => out is Some && out->0@ == reason,
                None => out is None,
            },
    {
        match self {
            Event::Completed => None,
            Event::Failed(reason) => Some(reason),
            _ => Some(String::from_str("unexpected event")),
        }
    }

    /// Reads the event as the answer to a process that is awaited.
    pub fn exit(self) -> (out: Result<Exit, String>)
        ensures
            match exit(self@) {
                Ok(e) => out is Ok && out->Ok_0@ == e,
                Err(reason) => out is Err && out->Err_0@ == reason,
            },
    {
        match self {
            Event::Exited { success, stdout, stderr, status } => Ok(
                Exit { success, stdout, stderr, status },
            ),
            Event::Failed(reason) => Err(reason),
            _ => Err(String::from_str("unexpected event")),
        }
    }
}

} // verus!
