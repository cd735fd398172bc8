use clioude::events::{Action, Event, ExitStatus, Fault, Stage};
use clioude::language::CommandLine;
use clioude::legacy::{get_raw_run, Run};
use clioude::watch::exit_report_without_deadline;

fn received(bytes: &[u8]) -> Event {
    Event::Received { data: bytes.to_vec(), now: 0 }
}

fn cmd(words: &[&str]) -> CommandLine {
    CommandLine {
        program: words[0].to_string(),
        args: words[1..].iter().map(|w| w.to_string()).collect(),
    }
}

fn step(run: &mut Run, event: Event) -> Vec<Action> {
    assert_eq!(run.fault(&event), None);
    run.step(event)
}

/// Sends the header and the code of a C++ program and lets it compile and
/// start; returns the program's pid.
fn start_cpp(run: &mut Run, header: &[u8], code: &[u8]) -> u32 {
    assert!(step(run, received(header)).is_empty());
    let acts = step(run, received(code));
    assert!(matches!(&acts[1], Action::StartPrepare { .. }));
    let acts = step(run, Event::PrepareStarted { pid: Some(40) });
    assert_eq!(acts[0], Action::Send(vec![0x01, 0xe7]));
    assert_eq!(acts[1], Action::AwaitPrepare { timeout_secs: None });
    step(run, Event::PrepareEnded { success: true, code: Some(0), stdout: vec![], stderr: vec![] });
    let acts = step(run, Event::ProgramStarted { pid: Some(41), now: 0 });
    assert_eq!(
        acts,
        vec![Action::Send(vec![0x00, 0xe7]), Action::StartWatchers { monitor_pid: None }]
    );
    41
}

#[test]
fn main_integration_test_ok() {
    let mut run = Run::new();
    let pid = start_cpp(
        &mut run,
        b"0123456789abcdefC++\xc0",
        b"#include<iostream>\nusing namespace std;int main(){int n;cin>>n;cout<<n+1<<endl;cerr<<n+2<<endl;}\n\xc1",
    );
    assert_eq!(run.id(), "0123456789abcdef");
    assert_eq!(step(&mut run, received(b"1\n\xe0")), vec![Action::WriteStdin(b"1\n".to_vec())]);
    let (status, exit) = exit_report_without_deadline(true, Some(0));
    assert_eq!(status, vec![0x03, 0xe7]);
    assert_eq!(exit, vec![0x00, 0xe8]);
    assert_eq!(step(&mut run, Event::OutputFinished), vec![Action::Cleanup { pid }]);
    assert_eq!(
        step(&mut run, Event::CleanedUp { killed: false }),
        vec![Action::Finish(ExitStatus::Done)]
    );
}

#[test]
fn main_integration_test_kill() {
    let mut run = Run::new();
    let pid = start_cpp(
        &mut run,
        b"0123456789abcdeeC++\xc0",
        b"#include<iostream>\nusing namespace std;int main(){int n;cin>>n;}\n\xc1",
    );
    assert_eq!(step(&mut run, Event::Closed), vec![Action::Cleanup { pid }]);
    assert_eq!(
        step(&mut run, Event::CleanedUp { killed: true }),
        vec![Action::Finish(ExitStatus::Killed)]
    );
}

#[test]
fn integration_test_kill_compile() {
    let mut run = Run::new();
    step(&mut run, received(b"0123456789abcdedC++\xc0"));
    step(&mut run, received(b"#include<iostream>\nusing namespace std;int main(){}\n\xc1"));
    step(&mut run, Event::PrepareStarted { pid: Some(3) });
    assert_eq!(step(&mut run, Event::Closed), vec![Action::Cleanup { pid: 3 }]);
    assert_eq!(
        step(&mut run, Event::CleanedUp { killed: true }),
        vec![Action::Finish(ExitStatus::PrepareInterrupted)]
    );
}

#[test]
fn integration_test_fail_compile() {
    let mut run = Run::new();
    step(&mut run, received(b"0123456789abcdecC++\xc0"));
    step(&mut run, received(b"#include<iostream>using namespace std;int main(){}\n\xc1"));
    let acts = step(&mut run, Event::PrepareStarted { pid: Some(3) });
    assert_eq!(acts[0], Action::Send(vec![0x01, 0xe7]));
    let acts = step(
        &mut run,
        Event::PrepareEnded { success: false, code: Some(1), stdout: vec![], stderr: b"e".to_vec() },
    );
    assert_eq!(
        acts,
        vec![
            Action::Send(vec![0xe1]),
            Action::Send(b"e\xe2".to_vec()),
            Action::Send(vec![0x02, 0xe7]),
            Action::Send(vec![0x01, 0xe8]),
            Action::Finish(ExitStatus::PrepareError),
        ]
    );
    assert_eq!(run.stage(), Stage::Finished(ExitStatus::PrepareError));
}

#[test]
fn raw_run_of_cpp_compiles_with_gpp() {
    let r = get_raw_run(&Some("C++".to_string()));
    assert_eq!(r.file, "main.cpp");
    assert_eq!(r.run_command, cmd(&["./main"]));
    assert_eq!(
        r.compile_command,
        Some(cmd(&[
            "g++",
            "-O2",
            "-w",
            "-fmax-errors=3",
            "-std=c++17",
            "main.cpp",
            "-lm",
            "-o",
            "./main",
        ]))
    );
}

#[test]
fn raw_run_of_python_has_no_compile_step() {
    let r = get_raw_run(&Some("Python".to_string()));
    assert_eq!(r.file, "main.py");
    assert_eq!(r.run_command, cmd(&["python3", "main.py"]));
    assert_eq!(r.compile_command, None);
}

#[test]
fn python_run_starts_at_once() {
    let mut run = Run::new();
    step(&mut run, received(b"0123456789abcdefPython\xc0"));
    let acts = step(&mut run, received(b"print(1)\n\xc1"));
    assert_eq!(
        acts,
        vec![
            Action::WriteSource {
                dir: "run/0123456789abcdef".to_string(),
                path: "run/0123456789abcdef/main.py".to_string(),
                content: b"print(1)\n".to_vec(),
            },
            Action::StartProgram {
                dir: "run/0123456789abcdef".to_string(),
                command: cmd(&["python3", "main.py"]),
            },
        ]
    );
}

#[test]
fn legacy_faults() {
    let mut run = Run::new();
    assert_eq!(run.fault(&Event::Closed), Some(Fault::ClosedBeforeCode));
    assert_eq!(run.fault(&received(b"x\xc1")), Some(Fault::NoLanguage));
    assert_eq!(run.fault(&received(b"0123456789\xc0")), Some(Fault::HeaderTooShort));
    step(&mut run, received(b"0123456789abcdefJava\xc0"));
    assert_eq!(run.fault(&received(b"x\xc1")), Some(Fault::UnknownLanguage));

    let mut run = Run::new();
    step(&mut run, received(b"0123456789abcdefPython\xc0"));
    step(&mut run, received(b"x\xc1"));
    step(&mut run, Event::ProgramStarted { pid: None, now: 0 });
    assert_eq!(run.fault(&Event::ReceiveFailed), Some(Fault::ReceiveError));
    assert_eq!(run.fault(&Event::Closed), Some(Fault::NoProcessId));
}
