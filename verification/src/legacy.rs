//! The first form of the runner: a fixed set of languages (C++ and Python),
//! a 16 byte run id, no idle deadline and no usage reports.
//!
//! A compile failure is reported with the compiler's output, the status
//! `[2, 0xe7]` and the compiler's exit code `[code, 0xe8]`, and ends the run;
//! otherwise the run ends when the server goes away or when all of the
//! program's output, its exit report last, has been sent.
use vstd::prelude::*;
use crate::events::{Action, ActionView, Event, EventView, ExitStatus, Fault, Stage, action_views};
use crate::language::{CommandLine, command_words, copy_command};
use crate::protocol::{
    FLAG_CODE,
    FLAG_EXIT,
    FLAG_RUN_HEADER,
    FLAG_STATUS,
    FLAG_STDERR,
    FLAG_STDIN,
    FLAG_STDOUT,
    RunStatus,
    exit_message,
    framed,
    output_message,
    spec_exit_message,
    spec_split_flag,
    spec_status_message,
    split_flag,
    status_message,
};
use crate::session::{run_dir, source_path, stage_rank, is_final};
use crate::watch::spec_final_status;
use crate::text::{joined, copy_string, spec_utf8_lossy, utf8_lossy};

verus! {

/// The length of the run id at the start of a run header.
pub const LEGACY_RUN_ID_LEN: usize = 16;

/// How a program of a language is compiled and run.
pub struct SingleRun {
    /// The name of the source file.
    pub file: String,
    /// The command that runs the program.
    pub run_command: CommandLine,
    /// The command that compiles it, if any.
    pub compile_command: Option<CommandLine>,
}

/// The languages known: C++ and Python.
pub open spec fn is_known_language(lang: Option<Seq<char>>) -> bool {
    lang == Some("C++"@) || lang == Some("Python"@)
}

pub open spec fn cpp_compile_words() -> Seq<Seq<char>> {
    seq![
        "g++"@,
        "-O2"@,
        "-w"@,
        "-fmax-errors=3"@,
        "-std=c++17"@,
        "main.cpp"@,
        "-lm"@,
        "-o"@,
        "./main"@,
    ]
}

/// What `get_raw_run` gives for a language: source file, run command and
/// compile command.
pub open spec fn spec_raw_run(lang: Seq<char>) -> (Seq<char>, Seq<Seq<char>>, Option<Seq<Seq<char>>>) {
    if lang == "C++"@ {
        ("main.cpp"@, seq!["./main"@], Some(cpp_compile_words()))
    } else {
        ("main.py"@, seq!["python3"@, "main.py"@], None)
    }
}

fn word(s: &str) -> (r: String)
    ensures
        r@ == s@,
{
    s.to_owned()
}

pub open spec fn option_string_view(o: Option<String>) -> Option<Seq<char>> {
    match o {
        Some(s) => Some(s@),
        None => None,
    }
}

/// How a program of the language `lang` is compiled and run: C++ is
/// compiled with `g++` to `./main`, Python is run with `python3`.
pub fn get_raw_run(lang: &Option<String>) -> (r: SingleRun)
    requires
        is_known_language(option_string_view(*lang)),
    ensures
        (r.file@, command_words(r.run_command), match r.compile_command {
            Some(c) => Some(command_words(c)),
            None => None,
        }) == spec_raw_run(lang->0@),
{
    let name = lang.as_ref().unwrap();
    if *name == word("C++") {
        let mut args: Vec<String> = Vec::new();
        args.push(word("-O2"));
        args.push(word("-w"));
        args.push(word("-fmax-errors=3"));
        args.push(word("-std=c++17"));
        args.push(word("main.cpp"));
        args.push(word("-lm"));
        args.push(word("-o"));
        args.push(word("./main"));
        let compile = CommandLine { program: word("g++"), args };
        let run = CommandLine { program: word("./main"), args: Vec::new() };
        assert(command_words(compile) =~= cpp_compile_words());
        assert(command_words(run) =~= seq!["./main"@]);
        SingleRun { file: word("main.cpp"), run_command: run, compile_command: Some(compile) }
    } else {
        let mut args: Vec<String> = Vec::new();
        args.push(word("main.py"));
        let run = CommandLine { program: word("python3"), args };
        assert(command_words(run) =~= seq!["python3"@, "main.py"@]);
        SingleRun { file: word("main.py"), run_command: run, compile_command: None }
    }
}

pub struct LegacyRunView {
    pub id: Seq<char>,
    pub pid: Option<u32>,
    pub language: Option<Seq<char>>,
    pub stage: Stage,
    pub work_dir: Seq<char>,
    pub run_command: Option<Seq<Seq<char>>>,
}

/// A run of one program by the first form of the runner.
pub struct Run {
    id: String,
    pid: Option<u32>,
    language: Option<String>,
    stage: Stage,
    work_dir: String,
    run_command: Option<CommandLine>,
}

impl View for Run {
    type V = LegacyRunView;

    closed spec fn view(&self) -> LegacyRunView {
        LegacyRunView {
            id: self.id@,
            pid: self.pid,
            language: option_string_view(self.language),
            stage: self.stage,
            work_dir: self.work_dir@,
            run_command: match self.run_command {
                Some(c) => Some(command_words(c)),
                None => None,
            },
        }
    }
}

/// A run that waits on the compiler or on the program's start knows the
/// command that runs the program.
pub open spec fn legacy_wf(r: LegacyRunView) -> bool {
    (r.stage is StartingPrepare || r.stage is Preparing || r.stage is StartingProgram)
        ==> r.run_command is Some
}

impl Run {
    #[verifier::type_invariant]
    closed spec fn wf(&self) -> bool {
        legacy_wf(self@)
    }
}

/// Where the run cannot take `e`, the reason; none where it can.
pub open spec fn spec_legacy_fault(r: LegacyRunView, e: EventView) -> Option<Fault> {
    match r.stage {
        Stage::Setup => match e {
            EventView::Received { data, now } => {
                let (payload, flag) = spec_split_flag(data);
                if flag == Some(FLAG_RUN_HEADER) && payload.len() < LEGACY_RUN_ID_LEN {
                    Some(Fault::HeaderTooShort)
                } else if flag == Some(FLAG_CODE) && r.language is None {
                    Some(Fault::NoLanguage)
                } else if flag == Some(FLAG_CODE) && !is_known_language(r.language) {
                    Some(Fault::UnknownLanguage)
                } else {
                    None
                }
            },
            EventView::Closed => Some(Fault::ClosedBeforeCode),
            _ => None,
        },
        Stage::Preparing => match e {
            EventView::Received { .. } | EventView::Closed | EventView::ReceiveFailed => {
                if r.pid is None {
                    Some(Fault::NoProcessId)
                } else {
                    None
                }
            },
            _ => None,
        },
        Stage::Running => match e {
            EventView::ReceiveFailed => Some(Fault::ReceiveError),
            EventView::Closed | EventView::OutputFinished => {
                if r.pid is None {
                    Some(Fault::NoProcessId)
                } else {
                    None
                }
            },
            _ => None,
        },
        _ => None,
    }
}

/// Ask for a cleanup of the process; the run then ends with `then`, or
/// with what the cleanup finds.
pub open spec fn legacy_cleanup(r: LegacyRunView, then: Option<ExitStatus>) -> (
    LegacyRunView,
    Seq<ActionView>,
) {
    (
        LegacyRunView { stage: Stage::CleaningUp { then }, ..r },
        seq![ActionView::Cleanup { pid: r.pid->0 }],
    )
}

/// A message while waiting for the header and the code.
pub open spec fn legacy_setup_step(r: LegacyRunView, data: Seq<u8>) -> (
    LegacyRunView,
    Seq<ActionView>,
) {
    let (payload, flag) = spec_split_flag(data);
    if flag == Some(FLAG_RUN_HEADER) {
        (
            LegacyRunView {
                id: spec_utf8_lossy(payload.take(LEGACY_RUN_ID_LEN as int)),
                language: Some(spec_utf8_lossy(payload.skip(LEGACY_RUN_ID_LEN as int))),
                ..r
            },
            seq![],
        )
    } else if flag == Some(FLAG_CODE) {
        let (file, run, compile) = spec_raw_run(r.language->0);
        let dir = run_dir(r.id);
        let write = ActionView::WriteSource { dir, path: source_path(dir, file), content: payload };
        let r2 = LegacyRunView { work_dir: dir, run_command: Some(run), ..r };
        match compile {
            Some(c) => (
                LegacyRunView { stage: Stage::StartingPrepare, ..r2 },
                seq![write, ActionView::StartPrepare { dir, command: c }],
            ),
            None => (
                LegacyRunView { stage: Stage::StartingProgram, ..r2 },
                seq![write, ActionView::StartProgram { dir, command: run }],
            ),
        }
    } else {
        (r, seq![])
    }
}

/// What a run does on an event: its next state and the actions it asks for,
/// in order.
pub open spec fn spec_legacy_step(r: LegacyRunView, e: EventView) -> (LegacyRunView, Seq<ActionView>) {
    match r.stage {
        Stage::Setup => match e {
            EventView::Received { data, now } => legacy_setup_step(r, data),
            EventView::ReceiveFailed => (
                LegacyRunView { stage: Stage::Failed, ..r },
                seq![ActionView::Fail],
            ),
            _ => (r, seq![]),
        },
        Stage::StartingPrepare => match e {
            EventView::PrepareStarted { pid } => (
                LegacyRunView { pid, stage: Stage::Preparing, ..r },
                seq![
                    ActionView::Send(spec_status_message(RunStatus::Preparing)),
                    ActionView::AwaitPrepare { timeout_secs: None },
                ],
            ),
            _ => (r, seq![]),
        },
        Stage::Preparing => match e {
            EventView::Received { .. } => legacy_cleanup(r, Some(ExitStatus::PrepareInterrupted)),
            EventView::Closed => legacy_cleanup(r, Some(ExitStatus::PrepareInterrupted)),
            EventView::ReceiveFailed => legacy_cleanup(r, Some(ExitStatus::PrepareInterrupted)),
            EventView::PrepareEnded { success, code, stdout, stderr } => if success {
                (
                    LegacyRunView { stage: Stage::StartingProgram, ..r },
                    seq![ActionView::StartProgram { dir: r.work_dir, command: r.run_command->0 }],
                )
            } else {
                (
                    LegacyRunView { stage: Stage::Finished(ExitStatus::PrepareError), ..r },
                    seq![
                        ActionView::Send(framed(stdout, FLAG_STDOUT)),
                        ActionView::Send(framed(stderr, FLAG_STDERR)),
                        ActionView::Send(spec_status_message(RunStatus::PrepareError)),
                        ActionView::Send(spec_exit_message(code)),
                        ActionView::Finish(ExitStatus::PrepareError),
                    ],
                )
            },
            EventView::PrepareFailed => (
                LegacyRunView { stage: Stage::Failed, ..r },
                seq![ActionView::Fail],
            ),
            _ => (r, seq![]),
        },
        Stage::StartingProgram => match e {
            EventView::ProgramStarted { pid, now } => (
                LegacyRunView { pid, stage: Stage::Running, ..r },
                seq![
                    ActionView::Send(spec_status_message(RunStatus::Running)),
                    ActionView::StartWatchers { monitor_pid: None },
                ],
            ),
            _ => (r, seq![]),
        },
        Stage::Running => match e {
            EventView::Received { data, now } => {
                let (payload, flag) = spec_split_flag(data);
                (
                    r,
                    if flag == Some(FLAG_STDIN) {
                        seq![ActionView::WriteStdin(payload)]
                    } else {
                        seq![]
                    },
                )
            },
            EventView::Closed => legacy_cleanup(r, None),
            EventView::OutputFinished => legacy_cleanup(r, None),
            _ => (r, seq![]),
        },
        Stage::CleaningUp { then } => match e {
            EventView::CleanedUp { killed } => {
                let s = match then {
                    Some(s) => s,
                    None => if killed {
                        ExitStatus::Killed
                    } else {
                        ExitStatus::Done
                    },
                };
                (LegacyRunView { stage: Stage::Finished(s), ..r }, seq![ActionView::Finish(s)])
            },
            _ => (r, seq![]),
        },
        Stage::Finished(_) => (r, seq![]),
        Stage::Failed => (r, seq![]),
    }
}

impl Run {
    /// A run that has not begun.
    pub fn new() -> (r: Run)
        ensures
            r@.id == Seq::<char>::empty(),
            r@.pid is None,
            r@.language is None,
            r@.stage is Setup,
            r@.work_dir == Seq::<char>::empty(),
            r@.run_command is None,
    {
        Run {
            id: String::new(),
            pid: None,
            language: None,
            stage: Stage::Setup,
            work_dir: String::new(),
            run_command: None,
        }
    }

    /// The run id (empty until a run header came).
    pub fn id(&self) -> (r: &String)
        ensures
            r@ == self@.id,
    {
        &self.id
    }

    /// The id of the process last started.
    pub fn pid(&self) -> (r: Option<u32>)
        ensures
            r == self@.pid,
    {
        self.pid
    }

    /// Where the run stands.
    pub fn stage(&self) -> (r: Stage)
        ensures
            r == self@.stage,
    {
        self.stage
    }

    fn language_fault(&self) -> (f: Option<Fault>)
        ensures
            f == (if self@.language is None {
                Some(Fault::NoLanguage)
            } else if !is_known_language(self@.language) {
                Some(Fault::UnknownLanguage)
            } else {
                None
            }),
    {
        match &self.language {
            None => Some(Fault::NoLanguage),
            Some(name) => {
                if *name == word("C++") || *name == word("Python") {
                    None
                } else {
                    Some(Fault::UnknownLanguage)
                }
            },
        }
    }

    /// Whether the run can take `event`, and if not, why.
    pub fn fault(&self, event: &Event) -> (f: Option<Fault>)
        ensures
            f == spec_legacy_fault(self@, event@),
    {
        match self.stage {
            Stage::Setup => match event {
                Event::Received { data, .. } => {
                    let n = data.len();
                    if n == 0 {
                        None
                    } else if data[n - 1] == FLAG_RUN_HEADER {
                        if n - 1 < LEGACY_RUN_ID_LEN {
                            Some(Fault::HeaderTooShort)
                        } else {
                            None
                        }
                    } else if data[n - 1] == FLAG_CODE {
                        self.language_fault()
                    } else {
                        None
                    }
                },
                Event::Closed => Some(Fault::ClosedBeforeCode),
                _ => None,
            },
            Stage::Preparing => match event {
                Event::Received { .. } | Event::Closed | Event::ReceiveFailed => {
                    if self.pid.is_none() {
                        Some(Fault::NoProcessId)
                    } else {
                        None
                    }
                },
                _ => None,
            },
            Stage::Running => match event {
                Event::ReceiveFailed => Some(Fault::ReceiveError),
                Event::Closed | Event::OutputFinished => {
                    if self.pid.is_none() {
                        Some(Fault::NoProcessId)
                    } else {
                        None
                    }
                },
                _ => None,
            },
            _ => None,
        }
    }

    fn cleanup(&mut self, then: Option<ExitStatus>, actions: &mut Vec<Action>)
        requires
            old(self)@.pid is Some,
        ensures
            final(self)@ == legacy_cleanup(old(self)@, then).0,
            action_views(final(actions)@) == action_views(old(actions)@) + legacy_cleanup(
                old(self)@,
                then,
            ).1,
    {
        let ghost before = actions@;
        let pid = self.pid.unwrap();
        self.stage = Stage::CleaningUp { then };
        actions.push(Action::Cleanup { pid });
        assert(action_views(actions@) =~= action_views(before) + legacy_cleanup(old(self)@, then).1);
    }

    fn on_setup_message(&mut self, data: Vec<u8>) -> (actions: Vec<Action>)
        requires
            old(self)@.stage is Setup,
            spec_legacy_fault(old(self)@, EventView::Received { data: data@, now: 0 }) is None,
        ensures
            final(self)@ == legacy_setup_step(old(self)@, data@).0,
            action_views(actions@) == legacy_setup_step(old(self)@, data@).1,
    {
        let ghost d = data@;
        let (payload, flag) = split_flag(data);
        let mut actions: Vec<Action> = Vec::new();
        if flag == Some(FLAG_RUN_HEADER) {
            let mut head = payload;
            let rest = head.split_off(LEGACY_RUN_ID_LEN);
            self.id = utf8_lossy(head.as_slice());
            self.language = Some(utf8_lossy(rest.as_slice()));
            assert(action_views(actions@) =~= seq![]);
        } else if flag == Some(FLAG_CODE) {
            let single = get_raw_run(&self.language);
            let dir = joined("run/", self.id.as_str());
            let dir_slash = joined(dir.as_str(), "/");
            let path = joined(dir_slash.as_str(), single.file.as_str());
            let ghost dv = dir@;
            actions.push(Action::WriteSource { dir: copy_string(&dir), path, content: payload });
            let run_now = copy_command(&single.run_command);
            self.run_command = Some(single.run_command);
            match single.compile_command {
                Some(c) => {
                    actions.push(Action::StartPrepare { dir: copy_string(&dir), command: c });
                    self.stage = Stage::StartingPrepare;
                },
                None => {
                    actions.push(Action::StartProgram { dir: copy_string(&dir), command: run_now });
                    self.stage = Stage::StartingProgram;
                },
            }
            self.work_dir = dir;
            proof {
                assert(dv == run_dir(old(self)@.id));
                assert(action_views(actions@) =~= legacy_setup_step(old(self)@, d).1);
            }
        } else {
            assert(action_views(actions@) =~= seq![]);
        }
        actions
    }

    /// Takes `event`: moves the run on and returns the actions asked for, in
    /// order.
    pub fn step(&mut self, event: Event) -> (actions: Vec<Action>)
        requires
            spec_legacy_fault(old(self)@, event@) is None,
        ensures
            final(self)@ == spec_legacy_step(old(self)@, event@).0,
            action_views(actions@) == spec_legacy_step(old(self)@, event@).1,
    {
        proof {
            use_type_invariant(&*self);
        }
        let ghost e = event@;
        let mut actions: Vec<Action> = Vec::new();
        match self.stage {
            Stage::Setup => match event {
                Event::Received { data, .. } => {
                    return self.on_setup_message(data);
                },
                Event::ReceiveFailed => {
                    self.stage = Stage::Failed;
                    actions.push(Action::Fail);
                },
                _ => {},
            },
            Stage::StartingPrepare => match event {
                Event::PrepareStarted { pid } => {
                    self.pid = pid;
                    self.stage = Stage::Preparing;
                    actions.push(Action::Send(status_message(RunStatus::Preparing)));
                    actions.push(Action::AwaitPrepare { timeout_secs: None });
                },
                _ => {},
            },
            Stage::Preparing => match event {
                Event::Received { .. } => {
                    self.cleanup(Some(ExitStatus::PrepareInterrupted), &mut actions);
                },
                Event::Closed => {
                    self.cleanup(Some(ExitStatus::PrepareInterrupted), &mut actions);
                },
                Event::ReceiveFailed => {
                    self.cleanup(Some(ExitStatus::PrepareInterrupted), &mut actions);
                },
                Event::PrepareEnded { success, code, stdout, stderr } => {
                    if success {
                        let command = match &self.run_command {
                            Some(c) => copy_command(c),
                            None => {
                                return actions;
                            },
                        };
                        self.stage = Stage::StartingProgram;
                        actions.push(
                            Action::StartProgram { dir: copy_string(&self.work_dir), command },
                        );
                    } else {
                        self.stage = Stage::Finished(ExitStatus::PrepareError);
                        actions.push(Action::Send(output_message(stdout, FLAG_STDOUT)));
                        actions.push(Action::Send(output_message(stderr, FLAG_STDERR)));
                        actions.push(Action::Send(status_message(RunStatus::PrepareError)));
                        actions.push(Action::Send(exit_message(code)));
                        actions.push(Action::Finish(ExitStatus::PrepareError));
                    }
                },
                Event::PrepareFailed => {
                    self.stage = Stage::Failed;
                    actions.push(Action::Fail);
                },
                _ => {},
            },
            Stage::StartingProgram => match event {
                Event::ProgramStarted { pid, .. } => {
                    self.pid = pid;
                    self.stage = Stage::Running;
                    actions.push(Action::Send(status_message(RunStatus::Running)));
                    actions.push(Action::StartWatchers { monitor_pid: None });
                },
                _ => {},
            },
            Stage::Running => match event {
                Event::Received { data, .. } => {
                    let (payload, flag) = split_flag(data);
                    if flag == Some(FLAG_STDIN) {
                        actions.push(Action::WriteStdin(payload));
                    }
                },
                Event::Closed => {
                    self.cleanup(None, &mut actions);
                },
                Event::OutputFinished => {
                    self.cleanup(None, &mut actions);
                },
                _ => {},
            },
            Stage::CleaningUp { then } => match event {
                Event::CleanedUp { killed } => {
                    let s = match then {
                        Some(s) => s,
                        None => if killed {
                            ExitStatus::Killed
                        } else {
                            ExitStatus::Done
                        },
                    };
                    self.stage = Stage::Finished(s);
                    actions.push(Action::Finish(s));
                },
                _ => {},
            },
            Stage::Finished(_) => {},
            Stage::Failed => {},
        }
        assert(action_views(actions@) =~= spec_legacy_step(old(self)@, e).1);
        actions
    }
}

/// A run that is over stays over and asks for nothing more.
pub proof fn lemma_legacy_final_is_absorbing(r: LegacyRunView, e: EventView)
    requires
        is_final(r.stage),
    ensures
        spec_legacy_step(r, e).0 == r,
        spec_legacy_step(r, e).1 == Seq::<ActionView>::empty(),
{
}

/// A run never goes back to an earlier stage, and every step keeps the
/// invariant of a run.
pub proof fn lemma_legacy_stage_moves_forward(r: LegacyRunView, e: EventView)
    requires
        legacy_wf(r),
    ensures
        stage_rank(spec_legacy_step(r, e).0.stage) >= stage_rank(r.stage),
        legacy_wf(spec_legacy_step(r, e).0),
{
}

/// A message of the first form of the runner: a payload and one flag at
/// its end, the flag one of stdout (`0xe1`), stderr (`0xe2`), status
/// (`0xe7`) or exit (`0xe8`); a status or an exit report is two bytes.
pub open spec fn is_legacy_outbound_message(msg: Seq<u8>) -> bool {
    &&& msg.len() > 0
    &&& (msg.last() == FLAG_STDOUT || msg.last() == FLAG_STDERR || msg.last() == FLAG_STATUS
        || msg.last() == FLAG_EXIT)
    &&& (msg.last() == FLAG_STATUS || msg.last() == FLAG_EXIT) ==> msg.len() == 2
}

pub open spec fn legacy_sends_well_formed(actions: Seq<ActionView>) -> bool {
    forall|i: int|
        0 <= i < actions.len() ==> (#[trigger] actions[i] matches ActionView::Send(m)
            ==> is_legacy_outbound_message(m))
}

/// Each message a run of the first form of the runner sends, and each
/// message of its program's output and exit report, ends with exactly one
/// flag among `0xe1`, `0xe2`, `0xe7` and `0xe8`, and its statuses and exit
/// reports are two bytes.
pub proof fn lemma_legacy_sends_are_outbound(
    r: LegacyRunView,
    e: EventView,
    chunk: Seq<u8>,
    success: bool,
    code: Option<i32>,
)
    ensures
        legacy_sends_well_formed(spec_legacy_step(r, e).1),
        is_legacy_outbound_message(framed(chunk, FLAG_STDOUT)),
        is_legacy_outbound_message(framed(chunk, FLAG_STDERR)),
        is_legacy_outbound_message(spec_status_message(spec_final_status(false, success))),
        is_legacy_outbound_message(spec_exit_message(code)),
{
}

/// The program's stdin gets only the payloads of `0xe0` messages, and only
/// while the program runs.
pub proof fn lemma_legacy_stdin_only_from_stdin_messages(r: LegacyRunView, e: EventView, i: int)
    requires
        0 <= i < spec_legacy_step(r, e).1.len(),
        spec_legacy_step(r, e).1[i] is WriteStdin,
    ensures
        r.stage is Running,
        e matches EventView::Received { data, now } && data == framed(
            spec_legacy_step(r, e).1[i]->WriteStdin_0,
            FLAG_STDIN,
        ),
{
    match e {
        EventView::Received { data, now } => {
            assert(data == framed(data.drop_last(), data.last()));
        },
        _ => {},
    }
}

/// A run reports how it ended exactly once: a step asks to finish with a
/// status exactly when it ends the run with that status, and then as its
/// last action.
pub proof fn lemma_legacy_finish_reported_once(r: LegacyRunView, e: EventView)
    requires
        legacy_wf(r),
    ensures
        ({
            let (r2, acts) = spec_legacy_step(r, e);
            &&& forall|i: int|
                0 <= i < acts.len() && #[trigger] acts[i] is Finish ==> i == acts.len() - 1
                    && r2.stage == Stage::Finished(acts[i]->Finish_0) && !is_final(r.stage)
            &&& (r2.stage is Finished && !is_final(r.stage)) ==> acts.len() > 0
                && acts.last() == ActionView::Finish(r2.stage->Finished_0)
        }),
{
}

/// When the server goes away, or all output has been sent, while the
/// program runs, the program is killed if it still runs, and the run ends
/// as `Killed` exactly when it was.
pub proof fn lemma_legacy_close_kills_program(r: LegacyRunView, e: EventView, killed: bool)
    requires
        r.stage is Running,
        r.pid is Some,
        e is Closed || e is OutputFinished,
    ensures
        spec_legacy_step(r, e).1 == seq![ActionView::Cleanup { pid: r.pid->0 }],
        spec_legacy_step(spec_legacy_step(r, e).0, EventView::CleanedUp { killed }).1 == seq![
            ActionView::Finish(
                if killed {
                    ExitStatus::Killed
                } else {
                    ExitStatus::Done
                },
            ),
        ],
{
}

/// The code of a C++ program: the source goes to `run/<id>/main.cpp`, and
/// g++ compiles it in that same directory, `run/<id>`, into `./main`; once
/// g++ started the runner reports `[1, 0xe7]` and waits for it with no time
/// limit; when it succeeds, `./main` is started in `run/<id>`.
pub proof fn lemma_legacy_cpp_compiles_then_runs(
    r: LegacyRunView,
    data: Seq<u8>,
    now: u64,
    pid: Option<u32>,
    code: Option<i32>,
    out: Seq<u8>,
    err: Seq<u8>,
)
    requires
        r.stage is Setup,
        r.language == Some("C++"@),
        data.len() > 0,
        data.last() == 0xc1,
    ensures
        ({
            let dir = "run/"@ + r.id;
            let (r1, a1) = spec_legacy_step(r, EventView::Received { data, now });
            let (r2, a2) = spec_legacy_step(r1, EventView::PrepareStarted { pid });
            let (r3, a3) = spec_legacy_step(
                r2,
                EventView::PrepareEnded { success: true, code, stdout: out, stderr: err },
            );
            &&& a1 == seq![
                ActionView::WriteSource {
                    dir,
                    path: dir + "/"@ + "main.cpp"@,
                    content: data.drop_last(),
                },
                ActionView::StartPrepare {
                    dir,
                    command: seq![
                        "g++"@,
                        "-O2"@,
                        "-w"@,
                        "-fmax-errors=3"@,
                        "-std=c++17"@,
                        "main.cpp"@,
                        "-lm"@,
                        "-o"@,
                        "./main"@,
                    ],
                },
            ]
            &&& a2 == seq![
                ActionView::Send(seq![1u8, 0xe7u8]),
                ActionView::AwaitPrepare { timeout_secs: None },
            ]
            &&& a3 == seq![ActionView::StartProgram { dir, command: seq!["./main"@] }]
        }),
{
}

/// The code of a Python program: the source goes to `run/<id>/main.py`, and
/// `python3 main.py` is started in `run/<id>` at once.
pub proof fn lemma_legacy_python_runs_at_once(r: LegacyRunView, data: Seq<u8>, now: u64)
    requires
        r.stage is Setup,
        r.language == Some("Python"@),
        data.len() > 0,
        data.last() == 0xc1,
    ensures
        ({
            let dir = "run/"@ + r.id;
            spec_legacy_step(r, EventView::Received { data, now }).1 == seq![
                ActionView::WriteSource {
                    dir,
                    path: dir + "/"@ + "main.py"@,
                    content: data.drop_last(),
                },
                ActionView::StartProgram { dir, command: seq!["python3"@, "main.py"@] },
            ]
        }),
{
    reveal_strlit("C++");
    reveal_strlit("Python");
    assert("Python"@ != "C++"@) by {
        assert("Python"@.len() != "C++"@.len());
    }
}

/// Anything from the server while the program compiles (a message, the end
/// of the stream, a failed read) interrupts the compile: the compiler is
/// killed and the run ends as `PrepareInterrupted` (compile interrupted),
/// whatever the cleanup finds.
pub proof fn lemma_legacy_server_interrupts_compile(r: LegacyRunView, e: EventView, killed: bool)
    requires
        r.stage is Preparing,
        r.pid is Some,
        e is Received || e is Closed || e is ReceiveFailed,
    ensures
        spec_legacy_step(r, e).1 == seq![ActionView::Cleanup { pid: r.pid->0 }],
        spec_legacy_step(r, e).0.stage == (Stage::CleaningUp {
            then: Some(ExitStatus::PrepareInterrupted),
        }),
        spec_legacy_step(spec_legacy_step(r, e).0, EventView::CleanedUp { killed }).1 == seq![
            ActionView::Finish(ExitStatus::PrepareInterrupted),
        ],
{
}

} // verus!
