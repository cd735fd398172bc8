use clioude::address::parse_server_url;
use clioude::watch::{
    deadline_after, ends_stream, exit_report, exit_report_without_deadline,
    get_current_timestamp, is_overdue, pipe_chunk, timestamp_from, poll_interval_ms, watch_step, WatchStep,
    OUTPUT_CHUNK_LEN,
};

#[test]
fn clock_reads_after_2020() {
    let now = get_current_timestamp().unwrap();
    assert!(now > 1_577_836_800);
}

#[test]
fn deadlines() {
    assert_eq!(deadline_after(100, 10), 110);
    assert!(!is_overdue(110, 110));
    assert!(is_overdue(111, 110));
}

#[test]
fn polls_slow_down_after_a_hundred() {
    assert_eq!(poll_interval_ms(1), 20);
    assert_eq!(poll_interval_ms(100), 20);
    assert_eq!(poll_interval_ms(101), 200);
}

#[test]
fn watcher_decisions() {
    assert_eq!(watch_step(false, 5, 0, 10), WatchStep::Stop);
    assert_eq!(watch_step(true, 5, 11, 10), WatchStep::Kill);
    assert_eq!(watch_step(true, 5, 10, 10), WatchStep::Report { sleep_ms: 20 });
    assert_eq!(watch_step(true, 500, 3, 10), WatchStep::Report { sleep_ms: 200 });
}

#[test]
fn exit_reports() {
    let r = exit_report(7, 5, 10, false, Some(3));
    let mut usage = vec![0, 0, 0, 0, 0, 0, 0, 7];
    usage.extend_from_slice(&[0u8; 12]);
    usage.push(0xe6);
    assert_eq!(r.usage, usage);
    assert_eq!(r.status, vec![0x04, 0xe7]);
    assert_eq!(r.exit, vec![0x03, 0xe8]);
    assert_eq!(exit_report(7, 11, 10, true, Some(0)).status, vec![0x05, 0xe7]);
    assert_eq!(
        exit_report_without_deadline(false, None),
        (vec![0x04, 0xe7], vec![0x09, 0xe8])
    );
}

#[test]
fn stream_ends_after_exit_report() {
    assert!(ends_stream(&vec![0, 0xe8]));
    assert!(!ends_stream(&vec![0, 0xe7]));
    assert_eq!(OUTPUT_CHUNK_LEN, 1024);
}

#[test]
fn server_addresses() {
    let a = parse_server_url("ws://127.0.0.1:9000").unwrap();
    assert_eq!(a.url.as_str(), a.text);
    assert_eq!(a.text, "ws://127.0.0.1:9000/");
    assert_eq!(a.url.as_str(), "ws://127.0.0.1:9000/");
    assert_eq!(parse_server_url("WS://Example.COM/a/../b").unwrap().text, "ws://example.com/b");
    assert!(parse_server_url("not a url").is_err());
    assert!(parse_server_url("ws://[::1").is_err());
}

#[test]
fn pipe_chunks() {
    let mut buf = vec![0u8; OUTPUT_CHUNK_LEN];
    buf[0] = b'2';
    buf[1] = b'\n';
    assert_eq!(pipe_chunk(buf.clone(), Some(2), 0xe1), Some(b"2\n\xe1".to_vec()));
    assert_eq!(pipe_chunk(buf.clone(), Some(0), 0xe1), None);
    assert_eq!(pipe_chunk(buf, None, 0xe2), None);
}

#[test]
fn timestamps_from_readings() {
    let later = std::time::UNIX_EPOCH + std::time::Duration::from_secs(10);
    assert_eq!(timestamp_from(later.duration_since(std::time::UNIX_EPOCH)), Some(10));
    let half = std::time::UNIX_EPOCH + std::time::Duration::from_millis(2500);
    assert_eq!(timestamp_from(half.duration_since(std::time::UNIX_EPOCH)), Some(2));
    assert_eq!(timestamp_from(std::time::UNIX_EPOCH.duration_since(later)), None);
}

#[test]
fn forwarded_chunks_keep_their_bytes() {
    let reads: Vec<(&[u8], usize)> = vec![(b"hello world", 5), (b" there", 6), (b"!xyz", 1)];
    let mut payloads = Vec::new();
    for (buf, n) in reads {
        let msg = pipe_chunk(buf.to_vec(), Some(n), 0xe1).unwrap();
        assert_eq!(*msg.last().unwrap(), 0xe1);
        payloads.extend_from_slice(&msg[..msg.len() - 1]);
    }
    assert_eq!(payloads, b"hello there!".to_vec());
}
