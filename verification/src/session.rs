//! A run: receive a program from the server, prepare it, run it, and report
//! on it, as a state machine from events to actions.
//!
//! The server first sends the run header (`0xc0`: a 36 byte run id, then the
//! language's name) and then the code (`0xc1`). The code is written to
//! `run/<id>/<file>`; where the language has a prepare command (a compiler)
//! it runs first, and its failure ends the run. Then the program runs; while
//! it does, each message from the server resets its idle deadline, and the
//! payload of each `0xe0` message goes to its stdin. When the server goes
//! away, a program that still runs is killed.
use vstd::prelude::*;
use crate::events::{Action, ActionView, Event, EventView, ExitStatus, Fault, Stage, action_views};
use crate::language::{
    CommandLine,
    copy_command,
    LanguageTable,
    LanguageView,
    command_words,
    get_command,
    has_command,
};
use crate::protocol::{
    FLAG_CODE,
    FLAG_RUN_HEADER,
    FLAG_STDERR,
    FLAG_STDIN,
    FLAG_STDOUT,
    RunStatus,
    exit_message,
    framed,
    is_outbound_message,
    lemma_built_messages_are_outbound,
    output_message,
    spec_exit_message,
    spec_split_flag,
    spec_status_message,
    split_flag,
    status_message,
};
use crate::watch::{WatchStep, deadline_after, spec_final_status, spec_is_overdue, spec_watch_step};
use crate::text::{ascii_words, joined, copy_string, spec_utf8_lossy, utf8_lossy};

verus! {

/// The length of the run id at the start of a run header.
pub const RUN_ID_LEN: usize = 36;

pub struct RunView {
    pub id: Seq<char>,
    pub pid: Option<u32>,
    pub languages: Map<Seq<char>, LanguageView>,
    pub language: Option<Seq<char>>,
    pub stage: Stage,
    pub idle_timeout: u64,
    pub deadline: u64,
    pub work_dir: Seq<char>,
    pub run_command: Option<Seq<Seq<char>>>,
}

/// A run of one program.
pub struct Run {
    id: String,
    pid: Option<u32>,
    languages: LanguageTable,
    language: Option<String>,
    stage: Stage,
    idle_timeout: u64,
    deadline: u64,
    work_dir: String,
    run_command: Option<CommandLine>,
}

impl View for Run {
    type V = RunView;

    closed spec fn view(&self) -> RunView {
        RunView {
            id: self.id@,
            pid: self.pid,
            languages: self.languages@,
            language: match self.language {
                Some(l) => Some(l@),
                None => None,
            },
            stage: self.stage,
            idle_timeout: self.idle_timeout,
            deadline: self.deadline,
            work_dir: self.work_dir@,
            run_command: match self.run_command {
                Some(c) => Some(command_words(c)),
                None => None,
            },
        }
    }
}

/// A run that waits on the prepare command or on the program's start knows
/// the command that runs the program.
pub open spec fn run_wf(r: RunView) -> bool {
    (r.stage is StartingPrepare || r.stage is Preparing || r.stage is StartingProgram)
        ==> r.run_command is Some
}

impl Run {
    #[verifier::type_invariant]
    closed spec fn wf(&self) -> bool {
        run_wf(self@)
    }
}

/// The directory of a run.
pub open spec fn run_dir(id: Seq<char>) -> Seq<char> {
    "run/"@ + id
}

/// The path of the source file of a run.
pub open spec fn source_path(dir: Seq<char>, file: Seq<char>) -> Seq<char> {
    dir + "/"@ + file
}

/// The commands of a language hold words: the run command, and the prepare
/// command where there is one.
pub open spec fn commands_have_words(l: LanguageView) -> bool {
    &&& ascii_words(l.run_command).len() > 0
    &&& (l.prepare_command matches Some(p) ==> ascii_words(p).len() > 0)
}

pub open spec fn is_final(stage: Stage) -> bool {
    stage is Finished || stage is Failed
}

/// Where the run cannot take `e`, the reason; none where it can.
pub open spec fn spec_fault(r: RunView, e: EventView) -> Option<Fault> {
    match e {
        EventView::Received { data, now } => {
            if r.stage is Setup {
                let (payload, flag) = spec_split_flag(data);
                if flag == Some(FLAG_RUN_HEADER) {
                    if payload.len() < RUN_ID_LEN {
                        Some(Fault::HeaderTooShort)
                    } else {
                        None
                    }
                } else if flag == Some(FLAG_CODE) {
                    match r.language {
                        None => Some(Fault::NoLanguage),
                        Some(name) => if !r.languages.contains_key(name) {
                            Some(Fault::UnknownLanguage)
                        } else if !commands_have_words(r.languages[name]) {
                            Some(Fault::EmptyCommand)
                        } else {
                            None
                        },
                    }
                } else {
                    None
                }
            } else if r.stage is Running && now + r.idle_timeout > u64::MAX {
                Some(Fault::ClockOverflow)
            } else {
                None
            }
        },
        EventView::ProgramStarted { pid, now } => {
            if r.stage is StartingProgram {
                if now + r.idle_timeout > u64::MAX {
                    Some(Fault::ClockOverflow)
                } else if pid is None {
                    Some(Fault::NoProcessId)
                } else {
                    None
                }
            } else {
                None
            }
        },
        _ => None,
    }
}

/// Ask for a cleanup where there is a process; the run then ends with
/// `then`, or with what the cleanup finds.
pub open spec fn begin_cleanup(r: RunView, then: Option<ExitStatus>) -> (RunView, Seq<ActionView>) {
    match r.pid {
        Some(p) => (RunView { stage: Stage::CleaningUp { then }, ..r }, seq![ActionView::Cleanup { pid: p }]),
        None => {
            let s = match then {
                Some(s) => s,
                None => ExitStatus::Done,
            };
            (RunView { stage: Stage::Finished(s), ..r }, seq![ActionView::Finish(s)])
        },
    }
}

/// A message while waiting for the header and the code.
pub open spec fn setup_step(r: RunView, data: Seq<u8>) -> (RunView, Seq<ActionView>) {
    let (payload, flag) = spec_split_flag(data);
    if flag == Some(FLAG_RUN_HEADER) {
        (
            RunView {
                id: spec_utf8_lossy(payload.take(RUN_ID_LEN as int)),
                language: Some(spec_utf8_lossy(payload.skip(RUN_ID_LEN as int))),
                ..r
            },
            seq![],
        )
    } else if flag == Some(FLAG_CODE) {
        let l = r.languages[r.language->0];
        let dir = run_dir(r.id);
        let write = ActionView::WriteSource { dir, path: source_path(dir, l.file), content: payload };
        let r2 = RunView {
            idle_timeout: l.idle_timeout,
            work_dir: dir,
            run_command: Some(ascii_words(l.run_command)),
            ..r
        };
        match l.prepare_command {
            Some(p) => (
                RunView { stage: Stage::StartingPrepare, ..r2 },
                seq![write, ActionView::StartPrepare { dir, command: ascii_words(p) }],
            ),
            None => (
                RunView { stage: Stage::StartingProgram, ..r2 },
                seq![write, ActionView::StartProgram { dir, command: ascii_words(l.run_command) }],
            ),
        }
    } else {
        (r, seq![])
    }
}

/// What a run does on an event: its next state and the actions it asks for,
/// in order.
pub open spec fn spec_step(r: RunView, e: EventView) -> (RunView, Seq<ActionView>) {
    match r.stage {
        Stage::Setup => match e {
            EventView::Received { data, now } => setup_step(r, data),
            EventView::Closed => (
                RunView { stage: Stage::Finished(ExitStatus::StartInterrupted), ..r },
                seq![ActionView::Finish(ExitStatus::StartInterrupted)],
            ),
            EventView::ReceiveFailed => (RunView { stage: Stage::Failed, ..r }, seq![ActionView::Fail]),
            _ => (r, seq![]),
        },
        Stage::StartingPrepare => match e {
            EventView::PrepareStarted { pid } => (
                RunView { pid, stage: Stage::Preparing, ..r },
                seq![
                    ActionView::Send(spec_status_message(RunStatus::Preparing)),
                    ActionView::AwaitPrepare { timeout_secs: Some(r.idle_timeout) },
                ],
            ),
            _ => (r, seq![]),
        },
        Stage::Preparing => match e {
            EventView::Received { .. } => begin_cleanup(r, Some(ExitStatus::PrepareInterrupted)),
            EventView::Closed => begin_cleanup(r, Some(ExitStatus::PrepareInterrupted)),
            EventView::ReceiveFailed => begin_cleanup(r, Some(ExitStatus::PrepareInterrupted)),
            EventView::PrepareEnded { success, code, stdout, stderr } => if success {
                (
                    RunView { stage: Stage::StartingProgram, ..r },
                    seq![ActionView::StartProgram { dir: r.work_dir, command: r.run_command->0 }],
                )
            } else {
                (
                    RunView { stage: Stage::Finished(ExitStatus::PrepareError), ..r },
                    seq![
                        ActionView::Send(framed(stdout, FLAG_STDOUT)),
                        ActionView::Send(framed(stderr, FLAG_STDERR)),
                        ActionView::Send(spec_status_message(RunStatus::PrepareError)),
                        ActionView::Send(spec_exit_message(code)),
                        ActionView::Finish(ExitStatus::PrepareError),
                    ],
                )
            },
            EventView::PrepareTimedOut => {
                let (r2, acts) = begin_cleanup(r, Some(ExitStatus::PrepareInterrupted));
                (r2, seq![ActionView::Send(spec_status_message(RunStatus::TimedOut))] + acts)
            },
            EventView::PrepareFailed => (RunView { stage: Stage::Failed, ..r }, seq![ActionView::Fail]),
            _ => (r, seq![]),
        },
        Stage::StartingProgram => match e {
            EventView::ProgramStarted { pid, now } => {
                let deadline = (now + r.idle_timeout) as u64;
                (
                    RunView { pid, deadline, stage: Stage::Running, ..r },
                    seq![
                        ActionView::SetDeadline(deadline),
                        ActionView::Send(spec_status_message(RunStatus::Running)),
                        ActionView::StartWatchers { monitor_pid: pid },
                    ],
                )
            },
            _ => (r, seq![]),
        },
        Stage::Running => match e {
            EventView::Received { data, now } => {
                let deadline = (now + r.idle_timeout) as u64;
                let (payload, flag) = spec_split_flag(data);
                (
                    RunView { deadline, ..r },
                    if flag == Some(FLAG_STDIN) {
                        seq![ActionView::SetDeadline(deadline), ActionView::WriteStdin(payload)]
                    } else {
                        seq![ActionView::SetDeadline(deadline)]
                    },
                )
            },
            EventView::Closed => begin_cleanup(r, None),
            EventView::ReceiveFailed => begin_cleanup(r, None),
            _ => (r, seq![]),
        },
        Stage::CleaningUp { then } => match e {
            EventView::CleanedUp { killed } => {
                let s = match then {
                    Some(s) => s,
                    None => if killed {
                        ExitStatus::Killed
                    } else {
                        ExitStatus::Done
                    },
                };
                (RunView { stage: Stage::Finished(s), ..r }, seq![ActionView::Finish(s)])
            },
            _ => (r, seq![]),
        },
        Stage::Finished(_) => (r, seq![]),
        Stage::Failed => (r, seq![]),
    }
}

impl Run {
    /// A run that has not begun, knowing the given languages.
    pub fn new(languages: LanguageTable) -> (r: Run)
        ensures
            r@.id == Seq::<char>::empty(),
            r@.pid is None,
            r@.languages == languages@,
            r@.language is None,
            r@.stage is Setup,
            r@.idle_timeout == 0,
            r@.deadline == 0,
            r@.work_dir == Seq::<char>::empty(),
            r@.run_command is None,
    {
        Run {
            id: String::new(),
            pid: None,
            languages,
            language: None,
            stage: Stage::Setup,
            idle_timeout: 0,
            deadline: 0,
            work_dir: String::new(),
            run_command: None,
        }
    }

    /// The run id (empty until a run header came).
    pub fn id(&self) -> (r: &String)
        ensures
            r@ == self@.id,
    {
        &self.id
    }

    /// The id of the process last started.
    pub fn pid(&self) -> (r: Option<u32>)
        ensures
            r == self@.pid,
    {
        self.pid
    }

    /// Where the run stands.
    pub fn stage(&self) -> (r: Stage)
        ensures
            r == self@.stage,
    {
        self.stage
    }

    /// The time after which the program is stopped.
    pub fn deadline(&self) -> (r: u64)
        ensures
            r == self@.deadline,
    {
        self.deadline
    }

    fn language_fault(&self) -> (f: Option<Fault>)
        ensures
            f == (match self@.language {
                None => Some(Fault::NoLanguage),
                Some(name) => if !self@.languages.contains_key(name) {
                    Some(Fault::UnknownLanguage)
                } else if !commands_have_words(self@.languages[name]) {
                    Some(Fault::EmptyCommand)
                } else {
                    None
                },
            }),
    {
        match &self.language {
            None => Some(Fault::NoLanguage),
            Some(name) => match self.languages.get(name) {
                None => Some(Fault::UnknownLanguage),
                Some(l) => {
                    let run_ok = has_command(&l.run_command);
                    let prepare_ok = match &l.prepare_command {
                        Some(p) => has_command(p),
                        None => true,
                    };
                    if run_ok && prepare_ok {
                        None
                    } else {
                        Some(Fault::EmptyCommand)
                    }
                },
            },
        }
    }

    /// Whether the run can take `event`, and if not, why.
    pub fn fault(&self, event: &Event) -> (f: Option<Fault>)
        ensures
            f == spec_fault(self@, event@),
    {
        match event {
            Event::Received { data, now } => {
                match self.stage {
                    Stage::Setup => {
                        let n = data.len();
                        if n == 0 {
                            None
                        } else if data[n - 1] == FLAG_RUN_HEADER {
                            if n - 1 < RUN_ID_LEN {
                                Some(Fault::HeaderTooShort)
                            } else {
                                None
                            }
                        } else if data[n - 1] == FLAG_CODE {
                            self.language_fault()
                        } else {
                            None
                        }
                    },
                    Stage::Running => {
                        if *now > u64::MAX - self.idle_timeout {
                            Some(Fault::ClockOverflow)
                        } else {
                            None
                        }
                    },
                    _ => None,
                }
            },
            Event::ProgramStarted { pid, now } => {
                match self.stage {
                    Stage::StartingProgram => {
                        if *now > u64::MAX - self.idle_timeout {
                            Some(Fault::ClockOverflow)
                        } else if pid.is_none() {
                            Some(Fault::NoProcessId)
                        } else {
                            None
                        }
                    },
                    _ => None,
                }
            },
            _ => None,
        }
    }
}


impl Run {
    fn begin_cleanup(&mut self, then: Option<ExitStatus>, actions: &mut Vec<Action>)
        ensures
            final(self)@ == begin_cleanup(old(self)@, then).0,
            action_views(final(actions)@) == action_views(old(actions)@) + begin_cleanup(
                old(self)@,
                then,
            ).1,
    {
        let ghost before = actions@;
        match self.pid {
            Some(p) => {
                self.stage = Stage::CleaningUp { then };
                actions.push(Action::Cleanup { pid: p });
            },
            None => {
                let s = match then {
                    Some(s) => s,
                    None => ExitStatus::Done,
                };
                self.stage = Stage::Finished(s);
                actions.push(Action::Finish(s));
            },
        }
        assert(action_views(actions@) =~= action_views(before) + begin_cleanup(old(self)@, then).1);
    }

    fn on_setup_message(&mut self, data: Vec<u8>) -> (actions: Vec<Action>)
        requires
            old(self)@.stage is Setup,
            spec_fault(old(self)@, EventView::Received { data: data@, now: 0 }) is None,
        ensures
            final(self)@ == setup_step(old(self)@, data@).0,
            action_views(actions@) == setup_step(old(self)@, data@).1,
    {
        let ghost d = data@;
        let (payload, flag) = split_flag(data);
        let mut actions: Vec<Action> = Vec::new();
        if flag == Some(FLAG_RUN_HEADER) {
            let mut head = payload;
            let rest = head.split_off(RUN_ID_LEN);
            self.id = utf8_lossy(head.as_slice());
            self.language = Some(utf8_lossy(rest.as_slice()));
            assert(action_views(actions@) =~= seq![]);
        } else if flag == Some(FLAG_CODE) {
            let ghost lv = self@.languages[self@.language->0];
            let (file, idle_timeout, run_for_later, run_now, prepare) = {
                let name = self.language.as_ref().unwrap();
                let l = self.languages.get(name).unwrap();
                let prepare = match &l.prepare_command {
                    Some(p) => Some(get_command(p)),
                    None => None,
                };
                (
                    copy_string(&l.file),
                    l.idle_timeout,
                    get_command(&l.run_command),
                    get_command(&l.run_command),
                    prepare,
                )
            };
            let dir = joined("run/", self.id.as_str());
            let dir_slash = joined(dir.as_str(), "/");
            let path = joined(dir_slash.as_str(), file.as_str());
            let ghost dv = dir@;
            actions.push(Action::WriteSource { dir: copy_string(&dir), path, content: payload });
            self.idle_timeout = idle_timeout;
            self.run_command = Some(run_for_later);
            match prepare {
                Some(p) => {
                    actions.push(Action::StartPrepare { dir: copy_string(&dir), command: p });
                    self.stage = Stage::StartingPrepare;
                },
                None => {
                    actions.push(Action::StartProgram { dir: copy_string(&dir), command: run_now });
                    self.stage = Stage::StartingProgram;
                },
            }
            self.work_dir = dir;
            proof {
                assert(dv == run_dir(old(self)@.id));
                assert(action_views(actions@) =~= setup_step(old(self)@, d).1);
            }
        } else {
            assert(action_views(actions@) =~= seq![]);
        }
        actions
    }

    /// Takes `event`: moves the run on and returns the actions asked for, in
    /// order.
    pub fn step(&mut self, event: Event) -> (actions: Vec<Action>)
        requires
            spec_fault(old(self)@, event@) is None,
        ensures
            final(self)@ == spec_step(old(self)@, event@).0,
            action_views(actions@) == spec_step(old(self)@, event@).1,
    {
        proof {
            use_type_invariant(&*self);
        }
        let ghost e = event@;
        let mut actions: Vec<Action> = Vec::new();
        match self.stage {
            Stage::Setup => match event {
                Event::Received { data, now } => {
                    return self.on_setup_message(data);
                },
                Event::Closed => {
                    self.stage = Stage::Finished(ExitStatus::StartInterrupted);
                    actions.push(Action::Finish(ExitStatus::StartInterrupted));
                },
                Event::ReceiveFailed => {
                    self.stage = Stage::Failed;
                    actions.push(Action::Fail);
                },
                _ => {},
            },
            Stage::StartingPrepare => match event {
                Event::PrepareStarted { pid } => {
                    self.pid = pid;
                    self.stage = Stage::Preparing;
                    actions.push(Action::Send(status_message(RunStatus::Preparing)));
                    actions.push(Action::AwaitPrepare { timeout_secs: Some(self.idle_timeout) });
                },
                _ => {},
            },
            Stage::Preparing => match event {
                Event::Received { .. } => {
                    self.begin_cleanup(Some(ExitStatus::PrepareInterrupted), &mut actions);
                },
                Event::Closed => {
                    self.begin_cleanup(Some(ExitStatus::PrepareInterrupted), &mut actions);
                },
                Event::ReceiveFailed => {
                    self.begin_cleanup(Some(ExitStatus::PrepareInterrupted), &mut actions);
                },
                Event::PrepareEnded { success, code, stdout, stderr } => {
                    if success {
                        let command = match &self.run_command {
                            Some(c) => copy_command(c),
                            None => {
                                assert(false);
                                return actions;
                            },
                        };
                        self.stage = Stage::StartingProgram;
                        actions.push(
                            Action::StartProgram { dir: copy_string(&self.work_dir), command },
                        );
                    } else {
                        self.stage = Stage::Finished(ExitStatus::PrepareError);
                        actions.push(Action::Send(output_message(stdout, FLAG_STDOUT)));
                        actions.push(Action::Send(output_message(stderr, FLAG_STDERR)));
                        actions.push(Action::Send(status_message(RunStatus::PrepareError)));
                        actions.push(Action::Send(exit_message(code)));
                        actions.push(Action::Finish(ExitStatus::PrepareError));
                    }
                },
                Event::PrepareTimedOut => {
                    actions.push(Action::Send(status_message(RunStatus::TimedOut)));
                    self.begin_cleanup(Some(ExitStatus::PrepareInterrupted), &mut actions);
                },
                Event::PrepareFailed => {
                    self.stage = Stage::Failed;
                    actions.push(Action::Fail);
                },
                _ => {},
            },
            Stage::StartingProgram => match event {
                Event::ProgramStarted { pid, now } => {
                    let deadline = deadline_after(now, self.idle_timeout);
                    self.pid = pid;
                    self.deadline = deadline;
                    self.stage = Stage::Running;
                    actions.push(Action::SetDeadline(deadline));
                    actions.push(Action::Send(status_message(RunStatus::Running)));
                    actions.push(Action::StartWatchers { monitor_pid: pid });
                },
                _ => {},
            },
            Stage::Running => match event {
                Event::Received { data, now } => {
                    let deadline = deadline_after(now, self.idle_timeout);
                    self.deadline = deadline;
                    actions.push(Action::SetDeadline(deadline));
                    let (payload, flag) = split_flag(data);
                    if flag == Some(FLAG_STDIN) {
                        actions.push(Action::WriteStdin(payload));
                    }
                },
                Event::Closed => {
                    self.begin_cleanup(None, &mut actions);
                },
                Event::ReceiveFailed => {
                    self.begin_cleanup(None, &mut actions);
                },
                _ => {},
            },
            Stage::CleaningUp { then } => match event {
                Event::CleanedUp { killed } => {
                    let s = match then {
                        Some(s) => s,
                        None => if killed {
                            ExitStatus::Killed
                        } else {
                            ExitStatus::Done
                        },
                    };
                    self.stage = Stage::Finished(s);
                    actions.push(Action::Finish(s));
                },
                _ => {},
            },
            Stage::Finished(_) => {},
            Stage::Failed => {},
        }
        assert(action_views(actions@) =~= spec_step(old(self)@, e).1);
        actions
    }
}


/// The order in which a run passes through its stages.
pub open spec fn stage_rank(stage: Stage) -> int {
    match stage {
        Stage::Setup => 0,
        Stage::StartingPrepare => 1,
        Stage::Preparing => 2,
        Stage::StartingProgram => 3,
        Stage::Running => 4,
        Stage::CleaningUp { .. } => 5,
        Stage::Finished(_) => 6,
        Stage::Failed => 6,
    }
}

/// Every message that a run sends ends with one outbound flag.
pub open spec fn sends_are_outbound(actions: Seq<ActionView>) -> bool {
    forall|i: int|
        0 <= i < actions.len() ==> (#[trigger] actions[i] matches ActionView::Send(m)
            ==> is_outbound_message(m))
}

/// A run that is over stays over and asks for nothing more.
pub proof fn lemma_final_is_absorbing(r: RunView, e: EventView)
    requires
        is_final(r.stage),
    ensures
        spec_step(r, e).0 == r,
        spec_step(r, e).1 == Seq::<ActionView>::empty(),
{
}

/// A run never goes back to an earlier stage, and the invariant of a run is
/// kept by every step.
pub proof fn lemma_stage_moves_forward(r: RunView, e: EventView)
    requires
        run_wf(r),
    ensures
        stage_rank(spec_step(r, e).0.stage) >= stage_rank(r.stage),
        run_wf(spec_step(r, e).0),
{
}

/// Each message a run sends is a payload followed by one outbound flag:
/// output (`0xe1`, `0xe2`), a status (`0xe7`) or an exit report (`0xe8`).
pub proof fn lemma_sends_are_outbound(r: RunView, e: EventView)
    ensures
        sends_are_outbound(spec_step(r, e).1),
{
    lemma_built_messages_are_outbound(RunStatus::Preparing, None, 0, 0, 0, seq![]);
    lemma_built_messages_are_outbound(RunStatus::Running, None, 0, 0, 0, seq![]);
    lemma_built_messages_are_outbound(RunStatus::TimedOut, None, 0, 0, 0, seq![]);
    match e {
        EventView::PrepareEnded { success, code, stdout, stderr } => {
            lemma_built_messages_are_outbound(RunStatus::PrepareError, code, 0, 0, 0, stdout);
            lemma_built_messages_are_outbound(RunStatus::PrepareError, code, 0, 0, 0, stderr);
        },
        _ => {},
    }
}

/// The program's stdin gets only what the server sent as stdin, and only
/// while the program runs: the payload of a `0xe0` message.
pub proof fn lemma_stdin_only_from_stdin_messages(r: RunView, e: EventView, i: int)
    requires
        0 <= i < spec_step(r, e).1.len(),
        spec_step(r, e).1[i] is WriteStdin,
    ensures
        r.stage is Running,
        e matches EventView::Received { data, now } && data == framed(
            spec_step(r, e).1[i]->WriteStdin_0,
            FLAG_STDIN,
        ),
{
    match e {
        EventView::Received { data, now } => {
            assert(data == framed(data.drop_last(), data.last()));
        },
        _ => {},
    }
}

/// Every message from the server while the program runs moves its deadline
/// to the idle timeout after the message came.
pub proof fn lemma_message_resets_deadline(r: RunView, data: Seq<u8>, now: u64)
    requires
        r.stage is Running,
        now + r.idle_timeout <= u64::MAX,
    ensures
        spec_step(r, EventView::Received { data, now }).0.deadline == now + r.idle_timeout,
        spec_step(r, EventView::Received { data, now }).1[0] == ActionView::SetDeadline(
            (now + r.idle_timeout) as u64,
        ),
{
}

/// A run reports how it ended exactly once: a step asks to finish with a
/// status exactly when it ends the run with that status, and then as its
/// last action.
pub proof fn lemma_finish_reported_once(r: RunView, e: EventView)
    requires
        run_wf(r),
    ensures
        ({
            let (r2, acts) = spec_step(r, e);
            &&& forall|i: int|
                0 <= i < acts.len() && #[trigger] acts[i] is Finish ==> i == acts.len() - 1
                    && r2.stage == Stage::Finished(acts[i]->Finish_0) && !is_final(r.stage)
            &&& (r2.stage is Finished && !is_final(r.stage)) ==> acts.len() > 0
                && acts.last() == ActionView::Finish(r2.stage->Finished_0)
        }),
{
}

/// A run that ends after its program started ends as `Killed` exactly when
/// the cleanup found the program still running.
pub proof fn lemma_killed_iff_found(r: RunView, killed: bool)
    requires
        r.stage == (Stage::CleaningUp { then: None }),
    ensures
        spec_step(r, EventView::CleanedUp { killed }).0.stage == Stage::Finished(
            if killed {
                ExitStatus::Killed
            } else {
                ExitStatus::Done
            },
        ),
{
}

/// When the server goes away while the program runs, the program is killed
/// if it still runs, and the run ends as `Killed` exactly when it was.
pub proof fn lemma_close_kills_program(r: RunView, e: EventView, killed: bool)
    requires
        r.stage is Running,
        r.pid is Some,
        e is Closed || e is ReceiveFailed,
    ensures
        spec_step(r, e).1 == seq![ActionView::Cleanup { pid: r.pid->0 }],
        spec_step(spec_step(r, e).0, EventView::CleanedUp { killed }).1 == seq![
            ActionView::Finish(
                if killed {
                    ExitStatus::Killed
                } else {
                    ExitStatus::Done
                },
            ),
        ],
{
}

/// The idle timeout end to end: once the program has started, or a message
/// from the server has come while it runs, at `now`, the usage watcher kills
/// the program, and its exit is reported as timed out, exactly when that
/// happens more than the language's idle timeout after `now`.
pub proof fn lemma_idle_timeout(r: RunView, e: EventView, now: u64, later: u64, polls: u64, success: bool)
    requires
        (r.stage is Running && (e matches EventView::Received { now: n, .. } && n == now))
            || (r.stage is StartingProgram && (e matches EventView::ProgramStarted {
                now: n,
                ..
            } && n == now)),
        now + r.idle_timeout <= u64::MAX,
    ensures
        ({
            let d = spec_step(r, e).0.deadline;
            &&& d == now + r.idle_timeout
            &&& spec_step(r, e).1[0] == ActionView::SetDeadline(d)
            &&& (spec_watch_step(true, polls, later, d) == WatchStep::Kill <==> later > now
                + r.idle_timeout)
            &&& (spec_final_status(spec_is_overdue(later, d), success) == RunStatus::TimedOut
                <==> later > now + r.idle_timeout)
        }),
{
}

/// The code of a language with a prepare command: the source goes to
/// `run/<id>/<file>`, the prepare command (its words) is started in
/// `run/<id>`; once started the runner reports `[1, 0xe7]` and waits for it
/// at most the idle timeout; when it succeeds, the language's run command
/// (its words) is started in the same directory.
pub proof fn lemma_code_prepare_then_run(
    r: RunView,
    data: Seq<u8>,
    now: u64,
    pid: Option<u32>,
    code: Option<i32>,
    out: Seq<u8>,
    err: Seq<u8>,
)
    requires
        r.stage is Setup,
        r.language is Some,
        r.languages.contains_key(r.language->0),
        ascii_words(r.languages[r.language->0].run_command).len() > 0,
        r.languages[r.language->0].prepare_command matches Some(p) && ascii_words(p).len() > 0,
        data.len() > 0,
        data.last() == 0xc1,
    ensures
        ({
            let l = r.languages[r.language->0];
            let dir = "run/"@ + r.id;
            let (r1, a1) = spec_step(r, EventView::Received { data, now });
            let (r2, a2) = spec_step(r1, EventView::PrepareStarted { pid });
            let (r3, a3) = spec_step(
                r2,
                EventView::PrepareEnded { success: true, code, stdout: out, stderr: err },
            );
            &&& a1 == seq![
                ActionView::WriteSource {
                    dir,
                    path: dir + "/"@ + l.file,
                    content: data.drop_last(),
                },
                ActionView::StartPrepare { dir, command: ascii_words(l.prepare_command->0) },
            ]
            &&& a2 == seq![
                ActionView::Send(seq![1u8, 0xe7u8]),
                ActionView::AwaitPrepare { timeout_secs: Some(l.idle_timeout) },
            ]
            &&& r2.pid == pid
            &&& a3 == seq![ActionView::StartProgram { dir, command: ascii_words(l.run_command) }]
        }),
{
}

/// The code of a language without a prepare command: the source goes to
/// `run/<id>/<file>` and the run command (its words) is started in
/// `run/<id>` at once.
pub proof fn lemma_code_runs_at_once(r: RunView, data: Seq<u8>, now: u64)
    requires
        r.stage is Setup,
        r.language is Some,
        r.languages.contains_key(r.language->0),
        ascii_words(r.languages[r.language->0].run_command).len() > 0,
        r.languages[r.language->0].prepare_command is None,
        data.len() > 0,
        data.last() == 0xc1,
    ensures
        ({
            let l = r.languages[r.language->0];
            let dir = "run/"@ + r.id;
            spec_step(r, EventView::Received { data, now }).1 == seq![
                ActionView::WriteSource {
                    dir,
                    path: dir + "/"@ + l.file,
                    content: data.drop_last(),
                },
                ActionView::StartProgram { dir, command: ascii_words(l.run_command) },
            ]
        }),
{
}

/// Anything from the server while the program is prepared (a message, the
/// end of the stream, a failed read) interrupts the preparing: the prepare
/// process is killed and the run ends as `PrepareInterrupted`, whatever the
/// cleanup finds.
pub proof fn lemma_server_interrupts_prepare(r: RunView, e: EventView, killed: bool)
    requires
        r.stage is Preparing,
        r.pid is Some,
        e is Received || e is Closed || e is ReceiveFailed,
    ensures
        spec_step(r, e).1 == seq![ActionView::Cleanup { pid: r.pid->0 }],
        spec_step(r, e).0.stage == (Stage::CleaningUp { then: Some(ExitStatus::PrepareInterrupted) }),
        spec_step(spec_step(r, e).0, EventView::CleanedUp { killed }).1 == seq![
            ActionView::Finish(ExitStatus::PrepareInterrupted),
        ],
{
}

} // verus!
