use conmon_attach::error::AttachError;
use conmon_attach::frame::{Pipe, PACKET_BUF_SIZE, PAYLOAD_SIZE};
use conmon_attach::read_loop::{read_step, ReadAction, ReadOutcome, EAGAIN, EBADF, EIO};
use conmon_attach::write_loop::{RecvFailure, WriteAction, WriteLoop, WriteOutcome};

fn sent(a: WriteAction) -> Vec<u8> {
    match a {
        WriteAction::Send(f) => f,
        other => panic!("expected a frame, got {:?}", other),
    }
}

#[test]
fn read_publishes_input_up_to_zero() {
    let mut buf = vec![0u8; PACKET_BUF_SIZE];
    buf[..4].copy_from_slice(b"echo");
    match read_step(buf, ReadOutcome::Data(5)) {
        ReadAction::Publish(m) => assert_eq!(m, b"echo".to_vec()),
        other => panic!("unexpected {:?}", other),
    }
}

#[test]
fn read_of_nothing_reads_again() {
    assert!(matches!(read_step(vec![0u8; 8], ReadOutcome::Data(0)), ReadAction::Continue));
}

#[test]
fn read_eio_ends_cleanly() {
    assert_eq!(EIO, 5);
    assert!(matches!(read_step(Vec::new(), ReadOutcome::Failed(Some(EIO))), ReadAction::Exit));
}

#[test]
fn read_ebadf_is_fatal() {
    assert_eq!(EBADF, 9);
    assert!(matches!(
        read_step(Vec::new(), ReadOutcome::Failed(Some(EBADF))),
        ReadAction::Fail(AttachError::BadFileDescriptor)
    ));
}

#[test]
fn read_eagain_retries() {
    assert_eq!(EAGAIN, 11);
    assert!(matches!(read_step(Vec::new(), ReadOutcome::Failed(Some(EAGAIN))), ReadAction::Continue));
}

#[test]
fn read_other_error_is_reported() {
    assert!(matches!(read_step(Vec::new(), ReadOutcome::Failed(Some(32))), ReadAction::Report(32)));
    assert!(matches!(
        read_step(Vec::new(), ReadOutcome::Failed(None)),
        ReadAction::Fail(AttachError::MissingOsError)
    ));
}

#[test]
fn read_cancel_exits() {
    assert!(matches!(read_step(Vec::new(), ReadOutcome::Cancelled), ReadAction::Exit));
}

#[test]
fn write_short_buffer_then_wait() {
    let mut w = WriteLoop::new();
    let f = sent(w.on_message(Pipe::StdOut, b"hi".to_vec()));
    assert_eq!(f.len(), PACKET_BUF_SIZE);
    assert_eq!(&f[..3], &[2, b'h', b'i']);
    assert!(matches!(w.on_written(WriteOutcome::Written), WriteAction::Wait));
    assert!(!w.is_finished());
}

#[test]
fn write_empty_buffer_sends_tag_frame() {
    let mut w = WriteLoop::new();
    let f = sent(w.on_message(Pipe::StdOut, Vec::new()));
    let mut want = vec![0u8; PACKET_BUF_SIZE];
    want[0] = 2;
    assert_eq!(f, want);
    assert!(matches!(w.on_written(WriteOutcome::Written), WriteAction::Wait));
}

#[test]
fn write_long_buffer_in_order_skipping_blocked() {
    let payload: Vec<u8> = (0..(2 * PAYLOAD_SIZE + 5)).map(|i| (i % 200) as u8 + 1).collect();
    let mut w = WriteLoop::new();
    let f0 = sent(w.on_message(Pipe::StdErr, payload.clone()));
    assert_eq!(&f0[1..], &payload[..PAYLOAD_SIZE]);
    let f1 = sent(w.on_written(WriteOutcome::WouldBlock));
    assert_eq!(&f1[1..], &payload[PAYLOAD_SIZE..2 * PAYLOAD_SIZE]);
    let f2 = sent(w.on_written(WriteOutcome::Written));
    assert_eq!(f2[0], 3);
    assert_eq!(&f2[1..6], &payload[2 * PAYLOAD_SIZE..]);
    assert_eq!(f2[6], 0);
    assert!(matches!(w.on_written(WriteOutcome::Written), WriteAction::Wait));
}

#[test]
fn write_broken_pipe_abandons_buffer() {
    let payload = vec![1u8; 3 * PAYLOAD_SIZE];
    let mut w = WriteLoop::new();
    sent(w.on_message(Pipe::StdOut, payload));
    assert!(matches!(w.on_written(WriteOutcome::BrokenPipe), WriteAction::Wait));
    let f = sent(w.on_message(Pipe::StdOut, b"next".to_vec()));
    assert_eq!(&f[1..5], b"next");
}

#[test]
fn write_failure_is_fatal_with_position() {
    let payload = vec![1u8; PAYLOAD_SIZE + 1];
    let mut w = WriteLoop::new();
    sent(w.on_message(Pipe::StdOut, payload));
    sent(w.on_written(WriteOutcome::Written));
    assert!(matches!(
        w.on_written(WriteOutcome::Failed),
        WriteAction::Fail(AttachError::WriteFailed { index: 1, total: 2 })
    ));
    assert!(w.is_finished());
}

#[test]
fn cancel_sends_done_packet_once() {
    let mut w = WriteLoop::new();
    let done = sent(w.on_cancel());
    assert_eq!(done, vec![0u8; 8192]);
    assert!(matches!(w.on_written(WriteOutcome::BrokenPipe), WriteAction::Exit));
    assert!(w.is_finished());
    assert!(matches!(w.on_cancel(), WriteAction::Wait));
    assert!(matches!(w.on_message(Pipe::StdOut, b"late".to_vec()), WriteAction::Wait));
}

#[test]
fn done_packet_write_failure_is_fatal() {
    let mut w = WriteLoop::new();
    sent(w.on_cancel());
    assert!(matches!(
        w.on_written(WriteOutcome::Failed),
        WriteAction::Fail(AttachError::DoneWriteFailed)
    ));
}

#[test]
fn lagging_receiver_is_fatal() {
    let mut w = WriteLoop::new();
    assert!(matches!(
        w.on_recv_failed(RecvFailure::Lagged(3)),
        WriteAction::Fail(AttachError::Lagged(3))
    ));
    let mut w = WriteLoop::new();
    assert!(matches!(
        w.on_recv_failed(RecvFailure::Closed),
        WriteAction::Fail(AttachError::ChannelClosed)
    ));
}
