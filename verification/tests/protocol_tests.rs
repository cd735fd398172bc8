use clioude::protocol::{
    exit_code_byte, exit_message, frame, output_message, split_flag, stats_message,
    status_message, RunStatus, FLAG_STDIN,
};

#[test]
fn split_flag_takes_the_last_byte() {
    assert_eq!(split_flag(b"1\n\xe0".to_vec()), (b"1\n".to_vec(), Some(0xe0)));
    assert_eq!(split_flag(vec![0xc1]), (vec![], Some(0xc1)));
    assert_eq!(split_flag(vec![]), (vec![], None));
}

#[test]
fn split_undoes_frame() {
    let msg = frame(b"hello".to_vec(), FLAG_STDIN);
    assert_eq!(msg, b"hello\xe0".to_vec());
    assert_eq!(split_flag(msg), (b"hello".to_vec(), Some(FLAG_STDIN)));
}

#[test]
fn status_codes() {
    assert_eq!(status_message(RunStatus::Running), vec![0x00, 0xe7]);
    assert_eq!(status_message(RunStatus::Preparing), vec![0x01, 0xe7]);
    assert_eq!(status_message(RunStatus::PrepareError), vec![0x02, 0xe7]);
    assert_eq!(status_message(RunStatus::Success), vec![0x03, 0xe7]);
    assert_eq!(status_message(RunStatus::RuntimeError), vec![0x04, 0xe7]);
    assert_eq!(status_message(RunStatus::TimedOut), vec![0x05, 0xe7]);
}

#[test]
fn exit_codes_are_cut_to_a_byte() {
    assert_eq!(exit_code_byte(Some(0)), 0);
    assert_eq!(exit_code_byte(Some(1)), 1);
    assert_eq!(exit_code_byte(Some(256)), 0);
    assert_eq!(exit_code_byte(Some(-1)), 255);
    assert_eq!(exit_code_byte(None), 9);
    assert_eq!(exit_message(Some(139)), vec![139, 0xe8]);
    assert_eq!(exit_message(None), vec![9, 0xe8]);
}

#[test]
fn output_chunks_carry_their_stream() {
    assert_eq!(output_message(b"2\n".to_vec(), 0xe1), b"2\n\xe1".to_vec());
    assert_eq!(output_message(vec![], 0xe2), vec![0xe2]);
}

#[test]
fn stats_are_big_endian() {
    let elapsed: f64 = 1.5;
    let cpu: f32 = 12.25;
    let msg = stats_message(elapsed.to_bits(), cpu.to_bits(), 0x0102_0304_0506_0708);
    assert_eq!(msg.len(), 21);
    assert_eq!(&msg[0..8], &elapsed.to_bits().to_be_bytes());
    assert_eq!(&msg[8..12], &cpu.to_bits().to_be_bytes());
    assert_eq!(&msg[12..20], &[1, 2, 3, 4, 5, 6, 7, 8]);
    assert_eq!(msg[20], 0xe6);
}

#[test]
fn stats_of_zero() {
    let mut expected = vec![0u8; 20];
    expected.push(0xe6);
    assert_eq!(stats_message(0, 0, 0), expected);
}
