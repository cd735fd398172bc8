//! What a run is told (events) and what it asks to be done (actions).
//!
//! A run decides; whoever drives it performs the actions in order and reports
//! back what happened as events.
use vstd::prelude::*;
use crate::language::{CommandLine, command_words};

verus! {

/// Something that happened, as a run is told of it.
#[derive(PartialEq, Eq, Debug)]
pub enum Event {
    /// A message from the server arrived at `now` (seconds since 1970).
    Received { data: Vec<u8>, now: u64 },
    /// The server's stream of messages ended.
    Closed,
    /// Reading a message from the server failed.
    ReceiveFailed,
    /// The prepare command was started; the id of its process, if it has one.
    PrepareStarted { pid: Option<u32> },
    /// The prepare command ended: whether it succeeded, its exit code and what
    /// it wrote.
    PrepareEnded { success: bool, code: Option<i32>, stdout: Vec<u8>, stderr: Vec<u8> },
    /// The prepare command did not end within the time it was given.
    PrepareTimedOut,
    /// Waiting for the prepare command failed.
    PrepareFailed,
    /// The program was started at `now`; the id of its process, if it has one.
    ProgramStarted { pid: Option<u32>, now: u64 },
    /// The program's output has all been sent, its exit report last.
    OutputFinished,
    /// A cleanup looked for the process: whether it was still there and was
    /// killed.
    CleanedUp { killed: bool },
}

pub enum EventView {
    Received { data: Seq<u8>, now: u64 },
    Closed,
    ReceiveFailed,
    PrepareStarted { pid: Option<u32> },
    PrepareEnded { success: bool, code: Option<i32>, stdout: Seq<u8>, stderr: Seq<u8> },
    PrepareTimedOut,
    PrepareFailed,
    ProgramStarted { pid: Option<u32>, now: u64 },
    OutputFinished,
    CleanedUp { killed: bool },
}

impl View for Event {
    type V = EventView;

    open spec fn view(&self) -> EventView {
        match self {
            Event::Received { data, now } => EventView::Received { data: data@, now: *now },
            Event::Closed => EventView::Closed,
            Event::ReceiveFailed => EventView::ReceiveFailed,
            Event::PrepareStarted { pid } => EventView::PrepareStarted { pid: *pid },
            Event::PrepareEnded { success, code, stdout, stderr } => EventView::PrepareEnded {
                success: *success,
                code: *code,
                stdout: stdout@,
                stderr: stderr@,
            },
            Event::PrepareTimedOut => EventView::PrepareTimedOut,
            Event::PrepareFailed => EventView::PrepareFailed,
            Event::ProgramStarted { pid, now } => EventView::ProgramStarted { pid: *pid, now: *now },
            Event::OutputFinished => EventView::OutputFinished,
            Event::CleanedUp { killed } => EventView::CleanedUp { killed: *killed },
        }
    }
}

/// Something a run asks to be done.
#[derive(PartialEq, Eq, Debug)]
pub enum Action {
    /// Create the directory `dir` and write `content` to the file `path`.
    WriteSource { dir: String, path: String, content: Vec<u8> },
    /// Start `command` in `dir`, its stdout and stderr captured; answer with
    /// `PrepareStarted`.
    StartPrepare { dir: String, command: CommandLine },
    /// Wait until the prepare command ends (for at most `timeout_secs`
    /// seconds where there is a limit) or a message comes; answer with what
    /// came first.
    AwaitPrepare { timeout_secs: Option<u64> },
    /// Start `command` in `dir`, its stdin, stdout and stderr piped; answer
    /// with `ProgramStarted`.
    StartProgram { dir: String, command: CommandLine },
    /// Send a message to the server.
    Send(Vec<u8>),
    /// The program is to be stopped after this time (seconds since 1970).
    SetDeadline(u64),
    /// Start forwarding the program's output and waiting for its exit, and,
    /// where a process id is given, watching its resource usage.
    StartWatchers { monitor_pid: Option<u32> },
    /// Write these bytes to the program's stdin.
    WriteStdin(Vec<u8>),
    /// Kill the process `pid` where it still runs; answer with `CleanedUp`.
    Cleanup { pid: u32 },
    /// The run is over, with this status.
    Finish(ExitStatus),
    /// The run fails with the error that was met.
    Fail,
}

pub enum ActionView {
    WriteSource { dir: Seq<char>, path: Seq<char>, content: Seq<u8> },
    StartPrepare { dir: Seq<char>, command: Seq<Seq<char>> },
    AwaitPrepare { timeout_secs: Option<u64> },
    StartProgram { dir: Seq<char>, command: Seq<Seq<char>> },
    Send(Seq<u8>),
    SetDeadline(u64),
    StartWatchers { monitor_pid: Option<u32> },
    WriteStdin(Seq<u8>),
    Cleanup { pid: u32 },
    Finish(ExitStatus),
    Fail,
}

impl View for Action {
    type V = ActionView;

    open spec fn view(&self) -> ActionView {
        match self {
            Action::WriteSource { dir, path, content } => ActionView::WriteSource {
                dir: dir@,
                path: path@,
                content: content@,
            },
            Action::StartPrepare { dir, command } => ActionView::StartPrepare {
                dir: dir@,
                command: command_words(*command),
            },
            Action::AwaitPrepare { timeout_secs } => ActionView::AwaitPrepare {
                timeout_secs: *timeout_secs,
            },
            Action::StartProgram { dir, command } => ActionView::StartProgram {
                dir: dir@,
                command: command_words(*command),
            },
            Action::Send(m) => ActionView::Send(m@),
            Action::SetDeadline(d) => ActionView::SetDeadline(*d),
            Action::StartWatchers { monitor_pid } => ActionView::StartWatchers {
                monitor_pid: *monitor_pid,
            },
            Action::WriteStdin(b) => ActionView::WriteStdin(b@),
            Action::Cleanup { pid } => ActionView::Cleanup { pid: *pid },
            Action::Finish(s) => ActionView::Finish(*s),
            Action::Fail => ActionView::Fail,
        }
    }
}

pub open spec fn action_views(actions: Seq<Action>) -> Seq<ActionView> {
    actions.map_values(|a: Action| a@)
}

/// How a run ended.
#[derive(PartialEq, Eq, Structural, Clone, Copy, Debug)]
pub enum ExitStatus {
    /// The server went away before the code came.
    StartInterrupted,
    /// The prepare command (the compiler) failed.
    PrepareError,
    /// A message came, or the time ran out, while the program was being
    /// prepared.
    PrepareInterrupted,
    /// The program still ran when the run ended, and was killed.
    Killed,
    /// The program had ended by the time the run ended.
    Done,
}

/// Where a run stands.
#[derive(PartialEq, Eq, Clone, Copy, Debug)]
pub enum Stage {
    /// Waiting for the run header and the code.
    Setup,
    /// The prepare command was asked to start.
    StartingPrepare,
    /// The prepare command runs.
    Preparing,
    /// The program was asked to start.
    StartingProgram,
    /// The program runs.
    Running,
    /// A cleanup was asked for; the run then ends with `then`, or, where that
    /// is none, with what the cleanup found.
    CleaningUp { then: Option<ExitStatus> },
    /// The run is over.
    Finished(ExitStatus),
    /// The run failed on an error.
    Failed,
}

/// Why a run cannot take an event: these are the inputs on which a runner
/// gives up (panics).
#[derive(PartialEq, Eq, Structural, Clone, Copy, Debug)]
pub enum Fault {
    /// A run header shorter than a run id.
    HeaderTooShort,
    /// Code came before any run header.
    NoLanguage,
    /// The run header named a language that is not known.
    UnknownLanguage,
    /// A command of the language holds no word.
    EmptyCommand,
    /// The program's process has no id.
    NoProcessId,
    /// The deadline does not fit in 64 bits.
    ClockOverflow,
    /// The server went away before the code came.
    ClosedBeforeCode,
    /// Reading a message failed while the program ran.
    ReceiveError,
}

} // verus!
