//! What the tasks that accompany a running program decide: the clock, the
//! idle deadline, the usage watcher, the exit report and the forwarding of
//! messages to the server.
use vstd::prelude::*;
use crate::protocol::{
    FLAG_EXIT,
    RunStatus,
    exit_message,
    framed,
    lemma_split_framed,
    spec_split_flag,
    output_message,
    spec_exit_message,
    spec_stats_message,
    spec_status_message,
    stats_message,
    status_message,
};

verus! {

#[verifier::external_type_specification]
#[verifier::external_body]
pub struct ExSystemTime(std::time::SystemTime);

#[verifier::external_type_specification]
#[verifier::external_body]
pub struct ExSystemTimeError(std::time::SystemTimeError);

/// `SystemTime::now`. Trusted, with nothing stated: the result is what the
/// system clock reads.
#[verifier::external_body]
fn system_now() -> std::time::SystemTime {
    std::time::SystemTime::now()
}

/// `SystemTime::duration_since` with `UNIX_EPOCH`. Trusted, with nothing
/// stated: the result depends on a clock reading; it is an error where that
/// reading is before 1970.
#[verifier::external_body]
fn since_unix_epoch(t: &std::time::SystemTime) -> std::result::Result<
    core::time::Duration,
    std::time::SystemTimeError,
> {
    t.duration_since(std::time::UNIX_EPOCH)
}

/// The whole seconds in a duration: what `Duration::as_secs` gives.
pub uninterp spec fn duration_secs(d: core::time::Duration) -> u64;

/// `Duration::as_secs`. Trusted: the result is the named function of the
/// duration.
#[verifier::external_body]
fn whole_secs(d: &core::time::Duration) -> (s: u64)
    ensures
        s == duration_secs(*d),
{
    d.as_secs()
}

/// The seconds since 1970 that a reading of the time since 1970 gives: its
/// whole seconds, or none where the clock read an earlier time.
pub open spec fn spec_timestamp_from(
    since_epoch: std::result::Result<core::time::Duration, std::time::SystemTimeError>,
) -> Option<u64> {
    match since_epoch {
        Ok(d) => Some(duration_secs(d)),
        Err(_) => None,
    }
}

pub fn timestamp_from(
    since_epoch: std::result::Result<core::time::Duration, std::time::SystemTimeError>,
) -> (r: Option<u64>)
    ensures
        r == spec_timestamp_from(since_epoch),
{
    match since_epoch {
        Ok(d) => Some(whole_secs(&d)),
        Err(_) => None,
    }
}

/// The seconds since 1970 on the system clock; none where the clock reads
/// an earlier time. The result is the whole seconds (`Duration::as_secs`) of
/// a reading of the time since 1970, or none for a reading before it; which
/// reading is the clock's.
pub fn get_current_timestamp() -> (r: Option<u64>)
    ensures
        exists|since_epoch: std::result::Result<core::time::Duration, std::time::SystemTimeError>|
            r == #[trigger] spec_timestamp_from(since_epoch),
{
    let since_epoch = since_unix_epoch(&system_now());
    let r = timestamp_from(since_epoch);
    assert(r == spec_timestamp_from(since_epoch));
    r
}

/// The deadline of a program that is to be stopped `idle_timeout` seconds
/// after `now`.
pub fn deadline_after(now: u64, idle_timeout: u64) -> (d: u64)
    requires
        now + idle_timeout <= u64::MAX,
    ensures
        d == now + idle_timeout,
{
    now + idle_timeout
}

pub open spec fn spec_is_overdue(now: u64, deadline: u64) -> bool {
    now > deadline
}

/// Whether a program has run past its deadline.
pub fn is_overdue(now: u64, deadline: u64) -> (b: bool)
    ensures
        b == spec_is_overdue(now, deadline),
{
    now > deadline
}

/// The milliseconds between two usage reports: short for the first hundred
/// polls, longer after.
pub open spec fn spec_poll_interval_ms(polls: u64) -> u64 {
    if polls > 100 {
        200
    } else {
        20
    }
}

pub fn poll_interval_ms(polls: u64) -> (ms: u64)
    ensures
        ms == spec_poll_interval_ms(polls),
{
    if polls > 100 {
        200
    } else {
        20
    }
}

/// What the usage watcher does on one poll.
#[derive(PartialEq, Eq, Structural, Clone, Copy, Debug)]
pub enum WatchStep {
    /// The process is gone: stop watching.
    Stop,
    /// The process ran past its deadline: kill it and stop watching.
    Kill,
    /// Send a usage report, then wait this long before the next poll.
    Report { sleep_ms: u64 },
}

pub open spec fn spec_watch_step(found: bool, polls: u64, now: u64, deadline: u64) -> WatchStep {
    if !found {
        WatchStep::Stop
    } else if spec_is_overdue(now, deadline) {
        WatchStep::Kill
    } else {
        WatchStep::Report { sleep_ms: spec_poll_interval_ms(polls) }
    }
}

/// One poll of the usage watcher: `found` tells whether the process still
/// exists, `polls` how many polls there have been, this one included.
pub fn watch_step(found: bool, polls: u64, now: u64, deadline: u64) -> (s: WatchStep)
    ensures
        s == spec_watch_step(found, polls, now, deadline),
{
    if !found {
        WatchStep::Stop
    } else if is_overdue(now, deadline) {
        WatchStep::Kill
    } else {
        WatchStep::Report { sleep_ms: poll_interval_ms(polls) }
    }
}

/// A program is killed by the watcher only once it is past its deadline,
/// and a program past its deadline is never reported on again.
pub proof fn lemma_kill_only_when_overdue(found: bool, polls: u64, now: u64, deadline: u64)
    ensures
        spec_watch_step(found, polls, now, deadline) == WatchStep::Kill <==> (found
            && spec_is_overdue(now, deadline)),
        spec_watch_step(found, polls, now, deadline) is Report ==> !spec_is_overdue(
            now,
            deadline,
        ),
{
}

/// The messages sent when the program has ended.
pub struct ExitReport {
    /// A last usage report, with no cpu and no memory.
    pub usage: Vec<u8>,
    /// How the program did.
    pub status: Vec<u8>,
    /// Its exit code, the last message of the run.
    pub exit: Vec<u8>,
}

/// How an ended program did: timed out where it ended past its deadline,
/// else by its exit status.
pub open spec fn spec_final_status(overdue: bool, success: bool) -> RunStatus {
    if overdue {
        RunStatus::TimedOut
    } else if success {
        RunStatus::Success
    } else {
        RunStatus::RuntimeError
    }
}

/// The report on a program that ended at `now`, `elapsed_bits` (the bits of
/// an `f64`) seconds after it started.
pub fn exit_report(elapsed_bits: u64, now: u64, deadline: u64, success: bool, code: Option<i32>) -> (r:
    ExitReport)
    ensures
        r.usage@ == spec_stats_message(elapsed_bits, 0, 0),
        r.status@ == spec_status_message(
            spec_final_status(spec_is_overdue(now, deadline), success),
        ),
        r.exit@ == spec_exit_message(code),
{
    let status = if is_overdue(now, deadline) {
        RunStatus::TimedOut
    } else if success {
        RunStatus::Success
    } else {
        RunStatus::RuntimeError
    };
    ExitReport {
        usage: stats_message(elapsed_bits, 0, 0),
        status: status_message(status),
        exit: exit_message(code),
    }
}

/// The report of a program whose run has no deadline: its status, then its
/// exit code.
pub fn exit_report_without_deadline(success: bool, code: Option<i32>) -> (r: (Vec<u8>, Vec<u8>))
    ensures
        r.0@ == spec_status_message(spec_final_status(false, success)),
        r.1@ == spec_exit_message(code),
{
    let status = if success {
        RunStatus::Success
    } else {
        RunStatus::RuntimeError
    };
    (status_message(status), exit_message(code))
}

/// The most bytes of output that one message carries.
pub const OUTPUT_CHUNK_LEN: usize = 1024;

/// What the output forwarder makes of one read into `buf`: `read` is how
/// many bytes the read gave, none where it failed. A failed or empty read
/// ends the forwarding (none); otherwise the bytes read go out framed with
/// `flag`.
pub open spec fn spec_pipe_chunk(buf: Seq<u8>, read: Option<usize>, flag: u8) -> Option<Seq<u8>> {
    match read {
        Some(n) => if n > 0 {
            Some(framed(buf.take(n as int), flag))
        } else {
            None
        },
        None => None,
    }
}

pub fn pipe_chunk(buf: Vec<u8>, read: Option<usize>, flag: u8) -> (r: Option<Vec<u8>>)
    requires
        read matches Some(n) ==> n <= buf@.len(),
    ensures
        match spec_pipe_chunk(buf@, read, flag) {
            Some(m) => r matches Some(v) && v@ == m,
            None => r is None,
        },
{
    match read {
        Some(n) => {
            if n == 0 {
                None
            } else {
                let mut chunk = buf;
                chunk.truncate(n);
                Some(output_message(chunk, flag))
            }
        },
        None => None,
    }
}

/// The bytes that a sequence of reads gave, in order: of each read (a
/// buffer and a count), the first bytes.
pub open spec fn bytes_read(reads: Seq<(Seq<u8>, usize)>) -> Seq<u8>
    decreases reads.len(),
{
    if reads.len() == 0 {
        Seq::empty()
    } else {
        bytes_read(reads.drop_last()) + reads.last().0.take(reads.last().1 as int)
    }
}

/// The messages that the forwarder sends for a sequence of reads, in order.
pub open spec fn messages_for(reads: Seq<(Seq<u8>, usize)>, flag: u8) -> Seq<Seq<u8>> {
    reads.map_values(|r: (Seq<u8>, usize)| spec_pipe_chunk(r.0, Some(r.1), flag)->0)
}

/// The payloads of messages, one after the other.
pub open spec fn payloads(msgs: Seq<Seq<u8>>) -> Seq<u8>
    decreases msgs.len(),
{
    if msgs.len() == 0 {
        Seq::empty()
    } else {
        payloads(msgs.drop_last()) + spec_split_flag(msgs.last()).0
    }
}

/// Output forwarding loses, repeats and reorders no byte: for reads that each
/// gave some bytes (the forwarding stops at the first that gives none), the
/// forwarder sends one message per read, each ending with `flag`, and their
/// payloads, one after the other, are the bytes read.
pub proof fn lemma_pipe_keeps_bytes(reads: Seq<(Seq<u8>, usize)>, flag: u8)
    requires
        forall|i: int| 0 <= i < reads.len() ==> 0 < #[trigger] reads[i].1 <= reads[i].0.len(),
    ensures
        messages_for(reads, flag).len() == reads.len(),
        forall|i: int|
            0 <= i < reads.len() ==> spec_pipe_chunk(reads[i].0, Some(reads[i].1), flag) == Some(
                #[trigger] messages_for(reads, flag)[i],
            ) && messages_for(reads, flag)[i].last() == flag,
        payloads(messages_for(reads, flag)) == bytes_read(reads),
    decreases reads.len(),
{
    let msgs = messages_for(reads, flag);
    if reads.len() > 0 {
        let rest = reads.drop_last();
        assert forall|i: int| 0 <= i < rest.len() implies 0 < #[trigger] rest[i].1 <= rest[i].0.len() by {
            assert(rest[i] == reads[i]);
        }
        lemma_pipe_keeps_bytes(rest, flag);
        assert(msgs.drop_last() =~= messages_for(rest, flag));
        let last = reads.last();
        assert(last == reads[reads.len() - 1]);
        lemma_split_framed(last.0.take(last.1 as int), flag);
    }
}

/// Whether sending `msg` ends the stream to the server: it does after the
/// exit report.
pub fn ends_stream(msg: &Vec<u8>) -> (b: bool)
    requires
        msg@.len() > 0,
    ensures
        b == (msg@.last() == FLAG_EXIT),
{
    msg[msg.len() - 1] == FLAG_EXIT
}

} // verus!
