use clioude::events::{Action, Event, ExitStatus, Fault, Stage};
use clioude::language::{CommandLine, Language, LanguageTable};
use clioude::session::Run;
use clioude::watch::{exit_report, watch_step, WatchStep};
use clioude::protocol::output_message;

fn cpp() -> Language {
    Language {
        file: "main.cpp".to_string(),
        check_command: "g++ --version".to_string(),
        run_command: "./main".to_string(),
        prepare_command: Some("g++ -O2 -w main.cpp -o main".to_string()),
        idle_timeout: 10,
    }
}

fn python() -> Language {
    Language {
        file: "main.py".to_string(),
        check_command: "python3 --version".to_string(),
        run_command: "python3 main.py".to_string(),
        prepare_command: None,
        idle_timeout: 5,
    }
}

fn table() -> LanguageTable {
    let mut t = LanguageTable::new();
    t.insert("C++".to_string(), cpp());
    t.insert("Python".to_string(), python());
    t
}

fn cmd(words: &[&str]) -> CommandLine {
    CommandLine {
        program: words[0].to_string(),
        args: words[1..].iter().map(|w| w.to_string()).collect(),
    }
}

fn received(bytes: &[u8], now: u64) -> Event {
    Event::Received { data: bytes.to_vec(), now }
}

const CODE_OK: &[u8] = b"#include<iostream>\nusing namespace std;int main(){int n;cin>>n;cout<<n+1<<endl;cerr<<n+2<<endl;}\n\xc1";

fn step(run: &mut Run, event: Event) -> Vec<Action> {
    assert_eq!(run.fault(&event), None);
    run.step(event)
}

/// Brings a run from its start to a running program, checking the messages
/// sent on the way; returns the program's pid.
fn start_program(run: &mut Run, header: &[u8], code: &[u8], now: u64) -> u32 {
    assert!(step(run, received(header, now)).is_empty());
    let acts = step(run, received(code, now));
    assert_eq!(acts.len(), 2);
    assert!(matches!(&acts[1], Action::StartPrepare { .. }));
    let acts = step(run, Event::PrepareStarted { pid: Some(100) });
    assert_eq!(acts[0], Action::Send(vec![0x01, 0xe7]));
    assert_eq!(acts[1], Action::AwaitPrepare { timeout_secs: Some(10) });
    let acts = step(
        run,
        Event::PrepareEnded { success: true, code: Some(0), stdout: vec![], stderr: vec![] },
    );
    assert!(matches!(&acts[0], Action::StartProgram { .. }));
    let acts = step(run, Event::ProgramStarted { pid: Some(101), now });
    assert_eq!(acts[1], Action::Send(vec![0x00, 0xe7]));
    assert_eq!(acts[2], Action::StartWatchers { monitor_pid: Some(101) });
    101
}

#[test]
fn integration_test_ok() {
    let mut run = Run::new(table());
    let pid = start_program(
        &mut run,
        b"00000000-0000-0000-0000-000000000001C++\xc0",
        CODE_OK,
        1000,
    );
    assert_eq!(run.id(), "00000000-0000-0000-0000-000000000001");
    let acts = step(&mut run, received(b"1\n\xe0", 1001));
    assert_eq!(acts, vec![Action::SetDeadline(1011), Action::WriteStdin(b"1\n".to_vec())]);
    assert_eq!(output_message(b"2\n".to_vec(), 0xe1), b"2\n\xe1".to_vec());
    assert_eq!(output_message(b"3\n".to_vec(), 0xe2), b"3\n\xe2".to_vec());
    let report = exit_report(0, 1002, run.deadline(), true, Some(0));
    assert_eq!(report.status, vec![0x03, 0xe7]);
    assert_eq!(report.exit, vec![0x00, 0xe8]);
    assert_eq!(step(&mut run, Event::Closed), vec![Action::Cleanup { pid }]);
    assert_eq!(
        step(&mut run, Event::CleanedUp { killed: false }),
        vec![Action::Finish(ExitStatus::Done)]
    );
}

#[test]
fn integration_test_kill() {
    let mut run = Run::new(table());
    let pid = start_program(
        &mut run,
        b"00000000-0000-0000-0000-000000000002C++\xc0",
        b"#include<iostream>\nusing namespace std;int main(){int n;cin>>n;}\n\xc1",
        1000,
    );
    assert_eq!(step(&mut run, Event::Closed), vec![Action::Cleanup { pid }]);
    assert_eq!(
        step(&mut run, Event::CleanedUp { killed: true }),
        vec![Action::Finish(ExitStatus::Killed)]
    );
    assert_eq!(run.stage(), Stage::Finished(ExitStatus::Killed));
}

#[test]
fn integration_test_kill_prepare() {
    let mut run = Run::new(table());
    assert!(step(&mut run, received(b"00000000-0000-0000-0000-000000000003C++\xc0", 0)).is_empty());
    step(
        &mut run,
        received(b"#include<iostream>\nusing namespace std;int main(){}\n\xc1", 0),
    );
    step(&mut run, Event::PrepareStarted { pid: Some(7) });
    assert_eq!(step(&mut run, Event::Closed), vec![Action::Cleanup { pid: 7 }]);
    assert_eq!(
        step(&mut run, Event::CleanedUp { killed: true }),
        vec![Action::Finish(ExitStatus::PrepareInterrupted)]
    );
}

#[test]
fn integration_test_fail_prepare() {
    let mut run = Run::new(table());
    step(&mut run, received(b"00000000-0000-0000-0000-000000000004C++\xc0", 0));
    step(
        &mut run,
        received(b"#include<iostream>using namespace std;int main(){}\n\xc1", 0),
    );
    let acts = step(&mut run, Event::PrepareStarted { pid: Some(7) });
    assert_eq!(acts[0], Action::Send(vec![0x01, 0xe7]));
    let acts = step(
        &mut run,
        Event::PrepareEnded {
            success: false,
            code: Some(1),
            stdout: b"out".to_vec(),
            stderr: b"err".to_vec(),
        },
    );
    assert_eq!(
        acts,
        vec![
            Action::Send(b"out\xe1".to_vec()),
            Action::Send(b"err\xe2".to_vec()),
            Action::Send(vec![0x02, 0xe7]),
            Action::Send(vec![0x01, 0xe8]),
            Action::Finish(ExitStatus::PrepareError),
        ]
    );
}

#[test]
fn integration_test_disconnect_on_start() {
    let mut run = Run::new(table());
    step(&mut run, received(b"00000000-0000-0000-0000-000000000005C++\xc0", 0));
    assert_eq!(
        step(&mut run, Event::Closed),
        vec![Action::Finish(ExitStatus::StartInterrupted)]
    );
}

#[test]
fn integration_test_timeout() {
    let mut t = LanguageTable::new();
    let mut quick = cpp();
    quick.idle_timeout = 1;
    t.insert("C++".to_string(), quick);
    let mut run = Run::new(t);
    step(&mut run, received(b"00000000-0000-0000-0000-000000000001C++\xc0", 0));
    step(&mut run, received(CODE_OK, 0));
    let acts = step(&mut run, Event::PrepareStarted { pid: Some(5) });
    assert_eq!(acts[1], Action::AwaitPrepare { timeout_secs: Some(1) });
    step(&mut run, Event::PrepareEnded { success: true, code: Some(0), stdout: vec![], stderr: vec![] });
    let acts = step(&mut run, Event::ProgramStarted { pid: Some(6), now: 1000 });
    assert_eq!(acts[0], Action::SetDeadline(1001));
    assert_eq!(watch_step(true, 3, 1002, run.deadline()), WatchStep::Kill);
    let report = exit_report(0, 1002, run.deadline(), false, None);
    assert_eq!(report.status, vec![0x05, 0xe7]);
    assert_eq!(report.exit, vec![0x09, 0xe8]);
    step(&mut run, Event::Closed);
    assert_eq!(
        step(&mut run, Event::CleanedUp { killed: false }),
        vec![Action::Finish(ExitStatus::Done)]
    );
}

#[test]
fn code_is_written_under_the_run_directory() {
    let mut run = Run::new(table());
    step(&mut run, received(b"00000000-0000-0000-0000-000000000009Python\xc0", 0));
    let acts = step(&mut run, received(b"print(1)\n\xc1", 0));
    assert_eq!(
        acts,
        vec![
            Action::WriteSource {
                dir: "run/00000000-0000-0000-0000-000000000009".to_string(),
                path: "run/00000000-0000-0000-0000-000000000009/main.py".to_string(),
                content: b"print(1)\n".to_vec(),
            },
            Action::StartProgram {
                dir: "run/00000000-0000-0000-0000-000000000009".to_string(),
                command: cmd(&["python3", "main.py"]),
            },
        ]
    );
    assert_eq!(run.stage(), Stage::StartingProgram);
}

#[test]
fn prepare_command_is_split_into_words() {
    let mut run = Run::new(table());
    step(&mut run, received(b"00000000-0000-0000-0000-000000000010C++\xc0", 0));
    let acts = step(&mut run, received(b"int main(){}\xc1", 0));
    assert_eq!(
        acts[1],
        Action::StartPrepare {
            dir: "run/00000000-0000-0000-0000-000000000010".to_string(),
            command: cmd(&["g++", "-O2", "-w", "main.cpp", "-o", "main"]),
        }
    );
}

#[test]
fn prepare_timeout_reports_timed_out() {
    let mut run = Run::new(table());
    step(&mut run, received(b"00000000-0000-0000-0000-000000000011C++\xc0", 0));
    step(&mut run, received(b"x\xc1", 0));
    step(&mut run, Event::PrepareStarted { pid: Some(9) });
    assert_eq!(
        step(&mut run, Event::PrepareTimedOut),
        vec![Action::Send(vec![0x05, 0xe7]), Action::Cleanup { pid: 9 }]
    );
    assert_eq!(
        step(&mut run, Event::CleanedUp { killed: false }),
        vec![Action::Finish(ExitStatus::PrepareInterrupted)]
    );
}

#[test]
fn message_during_prepare_interrupts_it() {
    let mut run = Run::new(table());
    step(&mut run, received(b"00000000-0000-0000-0000-000000000012C++\xc0", 0));
    step(&mut run, received(b"x\xc1", 0));
    step(&mut run, Event::PrepareStarted { pid: None });
    assert_eq!(
        step(&mut run, received(b"1\n\xe0", 0)),
        vec![Action::Finish(ExitStatus::PrepareInterrupted)]
    );
}

#[test]
fn receive_failure_before_code_fails_the_run() {
    let mut run = Run::new(table());
    assert_eq!(step(&mut run, Event::ReceiveFailed), vec![Action::Fail]);
    assert_eq!(run.stage(), Stage::Failed);
    assert!(step(&mut run, Event::Closed).is_empty());
}

#[test]
fn non_stdin_messages_only_reset_the_deadline() {
    let mut run = Run::new(table());
    start_program(&mut run, b"00000000-0000-0000-0000-000000000013C++\xc0", CODE_OK, 50);
    assert_eq!(step(&mut run, received(b"abc\xe1", 70)), vec![Action::SetDeadline(80)]);
    assert_eq!(step(&mut run, received(b"", 71)), vec![Action::SetDeadline(81)]);
    assert_eq!(run.deadline(), 81);
}

#[test]
fn faults_are_reported() {
    let mut run = Run::new(table());
    assert_eq!(run.fault(&received(b"x\xc1", 0)), Some(Fault::NoLanguage));
    assert_eq!(run.fault(&received(b"short\xc0", 0)), Some(Fault::HeaderTooShort));
    step(&mut run, received(b"00000000-0000-0000-0000-000000000014Rust\xc0", 0));
    assert_eq!(run.fault(&received(b"x\xc1", 0)), Some(Fault::UnknownLanguage));

    let mut t = LanguageTable::new();
    let mut blank = python();
    blank.run_command = "  \t ".to_string();
    t.insert("Blank".to_string(), blank);
    let mut run = Run::new(t);
    step(&mut run, received(b"00000000-0000-0000-0000-000000000015Blank\xc0", 0));
    assert_eq!(run.fault(&received(b"x\xc1", 0)), Some(Fault::EmptyCommand));
}

#[test]
fn program_without_pid_or_late_clock_is_refused() {
    let mut run = Run::new(table());
    step(&mut run, received(b"00000000-0000-0000-0000-000000000016Python\xc0", 0));
    step(&mut run, received(b"x\xc1", 0));
    assert_eq!(
        run.fault(&Event::ProgramStarted { pid: None, now: 0 }),
        Some(Fault::NoProcessId)
    );
    assert_eq!(
        run.fault(&Event::ProgramStarted { pid: Some(1), now: u64::MAX }),
        Some(Fault::ClockOverflow)
    );
}

#[test]
fn later_header_replaces_earlier() {
    let mut run = Run::new(table());
    step(&mut run, received(b"00000000-0000-0000-0000-000000000017C++\xc0", 0));
    step(&mut run, received(b"00000000-0000-0000-0000-000000000018Python\xc0", 0));
    assert_eq!(run.id(), "00000000-0000-0000-0000-000000000018");
    let acts = step(&mut run, received(b"x\xc1", 0));
    assert!(matches!(&acts[1], Action::StartProgram { .. }));
}
