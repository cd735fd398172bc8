//! The byte protocol spoken over the websocket.
//!
//! Every message carries exactly one flag byte at its end; the payload is
//! everything before it.
use vstd::prelude::*;

verus! {

/// Flag of the message that carries the run id and the language.
pub const FLAG_RUN_HEADER: u8 = 0xc0;

/// Flag of the message that carries the source code.
pub const FLAG_CODE: u8 = 0xc1;

/// Flag of a chunk that is appended to the program's stdin.
pub const FLAG_STDIN: u8 = 0xe0;

/// Flag of a chunk of the program's stdout.
pub const FLAG_STDOUT: u8 = 0xe1;

/// Flag of a chunk of the program's stderr.
pub const FLAG_STDERR: u8 = 0xe2;

/// Flag of a resource usage report.
pub const FLAG_STATS: u8 = 0xe6;

/// Flag of a status report.
pub const FLAG_STATUS: u8 = 0xe7;

/// Flag of the exit report, the last message of a run.
pub const FLAG_EXIT: u8 = 0xe8;

/// The flags of the messages that the runner sends to the server.
pub open spec fn is_outbound_flag(flag: u8) -> bool {
    ||| flag == FLAG_STDOUT
    ||| flag == FLAG_STDERR
    ||| flag == FLAG_STATS
    ||| flag == FLAG_STATUS
    ||| flag == FLAG_EXIT
}

/// The message made of `payload` followed by `flag`.
pub open spec fn framed(payload: Seq<u8>, flag: u8) -> Seq<u8> {
    payload.push(flag)
}

/// A message that the runner sends: a payload and one outbound flag at its end.
pub open spec fn is_outbound_message(msg: Seq<u8>) -> bool {
    msg.len() > 0 && is_outbound_flag(msg.last())
}

/// What a received message is read as: its payload, and its flag (none for
/// an empty message).
pub open spec fn spec_split_flag(data: Seq<u8>) -> (Seq<u8>, Option<u8>) {
    if data.len() == 0 {
        (data, None)
    } else {
        (data.drop_last(), Some(data.last()))
    }
}

/// Appends `flag` to `payload`.
pub fn frame(payload: Vec<u8>, flag: u8) -> (msg: Vec<u8>)
    ensures
        msg@ == framed(payload@, flag),
{
    let mut msg = payload;
    msg.push(flag);
    msg
}

/// Takes the flag off the end of a received message.
pub fn split_flag(data: Vec<u8>) -> (res: (Vec<u8>, Option<u8>))
    ensures
        (res.0@, res.1) == spec_split_flag(data@),
{
    let mut payload = data;
    let flag = payload.pop();
    (payload, flag)
}

/// Reading a message back gives the payload and the flag it was framed with.
pub proof fn lemma_split_framed(payload: Seq<u8>, flag: u8)
    ensures
        spec_split_flag(framed(payload, flag)) == (payload, Some(flag)),
{
    assert(framed(payload, flag).drop_last() =~= payload);
}

/// Framing is one to one: two messages are equal only if they were framed
/// from the same payload with the same flag.
pub proof fn lemma_framed_injective(p1: Seq<u8>, f1: u8, p2: Seq<u8>, f2: u8)
    requires
        framed(p1, f1) == framed(p2, f2),
    ensures
        p1 == p2,
        f1 == f2,
{
    lemma_split_framed(p1, f1);
    lemma_split_framed(p2, f2);
}

/// The status of a run as reported to the server; `code` gives its byte.
#[derive(PartialEq, Eq, Structural, Clone, Copy, Debug)]
pub enum RunStatus {
    Running,
    Preparing,
    PrepareError,
    Success,
    RuntimeError,
    TimedOut,
}

impl RunStatus {
    pub open spec fn spec_code(self) -> u8 {
        match self {
            RunStatus::Running => 0,
            RunStatus::Preparing => 1,
            RunStatus::PrepareError => 2,
            RunStatus::Success => 3,
            RunStatus::RuntimeError => 4,
            RunStatus::TimedOut => 5,
        }
    }

    /// The byte that stands for this status on the wire.
    pub fn code(&self) -> (c: u8)
        ensures
            c == self.spec_code(),
    {
        match self {
            RunStatus::Running => 0,
            RunStatus::Preparing => 1,
            RunStatus::PrepareError => 2,
            RunStatus::Success => 3,
            RunStatus::RuntimeError => 4,
            RunStatus::TimedOut => 5,
        }
    }
}

/// Distinct statuses have distinct bytes.
pub proof fn lemma_status_code_injective(a: RunStatus, b: RunStatus)
    requires
        a.spec_code() == b.spec_code(),
    ensures
        a == b,
{
}

pub open spec fn spec_status_message(status: RunStatus) -> Seq<u8> {
    seq![status.spec_code(), FLAG_STATUS]
}

/// The status report `[code, 0xe7]`.
pub fn status_message(status: RunStatus) -> (msg: Vec<u8>)
    ensures
        msg@ == spec_status_message(status),
{
    let mut msg = Vec::new();
    msg.push(status.code());
    msg.push(FLAG_STATUS);
    msg
}

/// The byte that reports how a process ended: its exit code cut to its low
/// byte, or 9 where it had none (it was killed by a signal).
pub open spec fn spec_exit_code_byte(code: Option<i32>) -> u8 {
    match code {
        Some(c) => c as u8,
        None => 9,
    }
}

pub fn exit_code_byte(code: Option<i32>) -> (b: u8)
    ensures
        b == spec_exit_code_byte(code),
{
    match code {
        Some(c) => c as u8,
        None => 9,
    }
}

pub open spec fn spec_exit_message(code: Option<i32>) -> Seq<u8> {
    seq![spec_exit_code_byte(code), FLAG_EXIT]
}

/// The exit report `[code, 0xe8]`.
pub fn exit_message(code: Option<i32>) -> (msg: Vec<u8>)
    ensures
        msg@ == spec_exit_message(code),
{
    let mut msg = Vec::new();
    msg.push(exit_code_byte(code));
    msg.push(FLAG_EXIT);
    msg
}

/// A chunk of the program's output: `flag` is `0xe1` for stdout, `0xe2` for
/// stderr.
pub fn output_message(chunk: Vec<u8>, flag: u8) -> (msg: Vec<u8>)
    ensures
        msg@ == framed(chunk@, flag),
{
    frame(chunk, flag)
}

/// The eight bytes of `x`, most significant first.
pub open spec fn be_bytes_u64(x: u64) -> Seq<u8> {
    seq![
        (x >> 56u64) as u8,
        (x >> 48u64) as u8,
        (x >> 40u64) as u8,
        (x >> 32u64) as u8,
        (x >> 24u64) as u8,
        (x >> 16u64) as u8,
        (x >> 8u64) as u8,
        x as u8,
    ]
}

/// The four bytes of `x`, most significant first.
pub open spec fn be_bytes_u32(x: u32) -> Seq<u8> {
    seq![(x >> 24u32) as u8, (x >> 16u32) as u8, (x >> 8u32) as u8, x as u8]
}

/// A usage report: the seconds since the program started (the bits of an
/// `f64`), its cpu usage (the bits of an `f32`) and its memory, each big
/// endian, then `0xe6`.
pub open spec fn spec_stats_message(elapsed_bits: u64, cpu_bits: u32, memory: u64) -> Seq<u8> {
    be_bytes_u64(elapsed_bits) + be_bytes_u32(cpu_bits) + be_bytes_u64(memory) + seq![FLAG_STATS]
}

fn push_be_u64(out: &mut Vec<u8>, x: u64)
    ensures
        final(out)@ == old(out)@ + be_bytes_u64(x),
{
    out.push((x >> 56u64) as u8);
    out.push((x >> 48u64) as u8);
    out.push((x >> 40u64) as u8);
    out.push((x >> 32u64) as u8);
    out.push((x >> 24u64) as u8);
    out.push((x >> 16u64) as u8);
    out.push((x >> 8u64) as u8);
    out.push(x as u8);
}

fn push_be_u32(out: &mut Vec<u8>, x: u32)
    ensures
        final(out)@ == old(out)@ + be_bytes_u32(x),
{
    out.push((x >> 24u32) as u8);
    out.push((x >> 16u32) as u8);
    out.push((x >> 8u32) as u8);
    out.push(x as u8);
}

/// Builds a usage report.
pub fn stats_message(elapsed_bits: u64, cpu_bits: u32, memory: u64) -> (msg: Vec<u8>)
    ensures
        msg@ == spec_stats_message(elapsed_bits, cpu_bits, memory),
        msg@.len() == 21,
{
    let mut msg = Vec::new();
    push_be_u64(&mut msg, elapsed_bits);
    push_be_u32(&mut msg, cpu_bits);
    push_be_u64(&mut msg, memory);
    msg.push(FLAG_STATS);
    msg
}

proof fn lemma_be_u64_injective(a: u64, b: u64)
    requires
        be_bytes_u64(a) == be_bytes_u64(b),
    ensures
        a == b,
{
    assert(be_bytes_u64(a)[0] == be_bytes_u64(b)[0]);
    assert(be_bytes_u64(a)[1] == be_bytes_u64(b)[1]);
    assert(be_bytes_u64(a)[2] == be_bytes_u64(b)[2]);
    assert(be_bytes_u64(a)[3] == be_bytes_u64(b)[3]);
    assert(be_bytes_u64(a)[4] == be_bytes_u64(b)[4]);
    assert(be_bytes_u64(a)[5] == be_bytes_u64(b)[5]);
    assert(be_bytes_u64(a)[6] == be_bytes_u64(b)[6]);
    assert(be_bytes_u64(a)[7] == be_bytes_u64(b)[7]);
    assert(a == b) by (bit_vector)
        requires
            (a >> 56u64) as u8 == (b >> 56u64) as u8,
            (a >> 48u64) as u8 == (b >> 48u64) as u8,
            (a >> 40u64) as u8 == (b >> 40u64) as u8,
            (a >> 32u64) as u8 == (b >> 32u64) as u8,
            (a >> 24u64) as u8 == (b >> 24u64) as u8,
            (a >> 16u64) as u8 == (b >> 16u64) as u8,
            (a >> 8u64) as u8 == (b >> 8u64) as u8,
            a as u8 == b as u8,
    ;
}

proof fn lemma_be_u32_injective(a: u32, b: u32)
    requires
        be_bytes_u32(a) == be_bytes_u32(b),
    ensures
        a == b,
{
    assert(be_bytes_u32(a)[0] == be_bytes_u32(b)[0]);
    assert(be_bytes_u32(a)[1] == be_bytes_u32(b)[1]);
    assert(be_bytes_u32(a)[2] == be_bytes_u32(b)[2]);
    assert(be_bytes_u32(a)[3] == be_bytes_u32(b)[3]);
    assert(a == b) by (bit_vector)
        requires
            (a >> 24u32) as u8 == (b >> 24u32) as u8,
            (a >> 16u32) as u8 == (b >> 16u32) as u8,
            (a >> 8u32) as u8 == (b >> 8u32) as u8,
            a as u8 == b as u8,
    ;
}

/// A usage report determines the three values it was built from.
pub proof fn lemma_stats_message_injective(
    e1: u64,
    c1: u32,
    m1: u64,
    e2: u64,
    c2: u32,
    m2: u64,
)
    requires
        spec_stats_message(e1, c1, m1) == spec_stats_message(e2, c2, m2),
    ensures
        e1 == e2,
        c1 == c2,
        m1 == m2,
{
    let s1 = spec_stats_message(e1, c1, m1);
    let s2 = spec_stats_message(e2, c2, m2);
    assert(s1.subrange(0, 8) =~= be_bytes_u64(e1));
    assert(s2.subrange(0, 8) =~= be_bytes_u64(e2));
    assert(s1.subrange(8, 12) =~= be_bytes_u32(c1));
    assert(s2.subrange(8, 12) =~= be_bytes_u32(c2));
    assert(s1.subrange(12, 20) =~= be_bytes_u64(m1));
    assert(s2.subrange(12, 20) =~= be_bytes_u64(m2));
    lemma_be_u64_injective(e1, e2);
    lemma_be_u32_injective(c1, c2);
    lemma_be_u64_injective(m1, m2);
}

/// Every message that the builders of this module make is a payload followed
/// by one outbound flag.
pub proof fn lemma_built_messages_are_outbound(
    status: RunStatus,
    code: Option<i32>,
    elapsed_bits: u64,
    cpu_bits: u32,
    memory: u64,
    chunk: Seq<u8>,
)
    ensures
        is_outbound_message(spec_status_message(status)),
        is_outbound_message(spec_exit_message(code)),
        is_outbound_message(spec_stats_message(elapsed_bits, cpu_bits, memory)),
        is_outbound_message(framed(chunk, FLAG_STDOUT)),
        is_outbound_message(framed(chunk, FLAG_STDERR)),
{
    let s = spec_stats_message(elapsed_bits, cpu_bits, memory);
    assert(s.len() == 21);
    assert(s.last() == FLAG_STATS);
}

} // verus!
