use h264_pgm::driver::{Action, Event, Machine, Phase, RecvStatus, RunError};

/// Drives a whole run against stub results: `reads` are the byte counts the
/// stub reader delivers (ending in 0), `parses` the `(consumed, packet_len)`
/// answers of the stub parser in call order, `recvs` the stub decoder's
/// answers in call order.  Returns the final machine, the frame numbers
/// written, the error if the run failed, and how many parser calls were
/// made with zero-length (flush) and non-zero-length input.
fn drive(
    reads: &[usize],
    parses: &[(i32, i32)],
    recvs: &[RecvStatus],
    write_ok: bool,
) -> (Machine, Vec<u64>, Option<RunError>, usize, usize) {
    let mut reads = reads.to_vec();
    let mut parses = parses.to_vec();
    let mut recvs = recvs.to_vec();
    let mut m = Machine::new();
    let mut action = Action::ReadChunk;
    let mut written: Vec<u64> = Vec::new();
    let mut flush_calls: usize = 0;
    let mut data_calls: usize = 0;
    loop {
        match action {
            Action::ReadChunk => {
                let n = reads.remove(0);
                action = m.step(Event::ChunkRead { len: n });
            }
            Action::OfferParser { offset: _, len } => {
                if len == 0 {
                    flush_calls += 1;
                } else {
                    data_calls += 1;
                }
                let (consumed, packet_len) = parses.remove(0);
                action = m.step(Event::Parsed {
                    consumed,
                    packet_len,
                });
            }
            Action::SubmitPacket => {
                action = m.step(Event::Submitted { accepted: true });
            }
            Action::ReceiveFrame => {
                let status = recvs.remove(0);
                action = m.step(Event::Received { status });
            }
            Action::WriteFrame { index } => {
                written.push(index);
                action = m.step(Event::FrameWritten { ok: write_ok });
            }
            Action::Finish => return (m, written, None, flush_calls, data_calls),
            Action::Fail { error } => return (m, written, Some(error), flush_calls, data_calls),
        }
    }
}

#[test]
fn three_packets_three_frames_in_order() {
    // Three chunks, each parsed into one packet, each packet yielding one
    // frame: exactly the files 1, 2, 3, in that order.
    let (m, written, err, flushes, _) = drive(
        &[10, 20, 30, 0],
        &[(10, 5), (20, 6), (30, 7), (0, 0)],
        &[
            RecvStatus::FrameReady,
            RecvStatus::TryAgain,
            RecvStatus::FrameReady,
            RecvStatus::TryAgain,
            RecvStatus::FrameReady,
            RecvStatus::TryAgain,
        ],
        true,
    );
    assert_eq!(written, vec![1, 2, 3]);
    assert!(err.is_none());
    assert_eq!(flushes, 1);
    assert!(matches!(m.phase, Phase::Done));
    assert_eq!(m.frames_written, 3);
}

#[test]
fn flush_frames_continue_numbering() {
    // The main loop emits three frames; the packet produced by the flush
    // call yields two more, numbered 4 and 5 — not restarting at 1.
    let (m, written, err, flushes, _) = drive(
        &[12, 0],
        &[(12, 9), (0, 9)],
        &[
            RecvStatus::FrameReady,
            RecvStatus::FrameReady,
            RecvStatus::FrameReady,
            RecvStatus::TryAgain,
            RecvStatus::FrameReady,
            RecvStatus::FrameReady,
            RecvStatus::EndOfStream,
        ],
        true,
    );
    assert_eq!(written, vec![1, 2, 3, 4, 5]);
    assert!(err.is_none());
    assert_eq!(flushes, 1);
    assert!(matches!(m.phase, Phase::Done));
    assert_eq!(m.frames_written, 5);
}

#[test]
fn negative_consumption_aborts_with_parse_error() {
    // The parser errors on the second chunk: the run stops with a parse
    // error and decodes nothing from that chunk or later ones.
    let (m, written, err, flushes, _) = drive(
        &[10, 10],
        &[(10, 0), (-1, 0)],
        &[],
        true,
    );
    assert_eq!(err, Some(RunError::Parse));
    assert!(written.is_empty());
    assert_eq!(flushes, 0);
    assert!(matches!(m.phase, Phase::Failed { error: RunError::Parse }));
}

#[test]
fn empty_input_flushes_once_writes_nothing() {
    // A zero-byte input: exactly one flush call, zero frames, no error.
    let (m, written, err, flushes, data_calls) = drive(&[0], &[(0, 0)], &[], true);
    assert!(written.is_empty());
    assert!(err.is_none());
    assert_eq!(flushes, 1);
    assert_eq!(data_calls, 0);
    assert!(matches!(m.phase, Phase::Done));
    assert_eq!(m.bytes_read, 0);
    assert_eq!(m.bytes_consumed, 0);
}

#[test]
fn every_byte_read_is_consumed_exactly_once() {
    // Partial consumption inside a chunk: the machine re-offers only the
    // unconsumed tail, and by the end the consumed count equals the bytes
    // read, with one flush call after the last non-empty read.
    let mut m = Machine::new();
    let mut a = m.step(Event::ChunkRead { len: 10 });
    assert_eq!(a, Action::OfferParser { offset: 0, len: 10 });
    a = m.step(Event::Parsed { consumed: 4, packet_len: 0 });
    assert_eq!(a, Action::OfferParser { offset: 4, len: 6 });
    a = m.step(Event::Parsed { consumed: 6, packet_len: 3 });
    assert_eq!(a, Action::SubmitPacket);
    a = m.step(Event::Submitted { accepted: true });
    assert_eq!(a, Action::ReceiveFrame);
    a = m.step(Event::Received { status: RecvStatus::TryAgain });
    assert_eq!(a, Action::ReadChunk);
    a = m.step(Event::ChunkRead { len: 0 });
    assert_eq!(a, Action::OfferParser { offset: 0, len: 0 });
    a = m.step(Event::Parsed { consumed: 0, packet_len: 0 });
    assert_eq!(a, Action::Finish);
    assert_eq!(m.bytes_read, 10);
    assert_eq!(m.bytes_consumed, 10);
    assert!(m.flush_offered);
}

#[test]
fn rejected_submission_is_fatal() {
    let mut m = Machine::new();
    m.step(Event::ChunkRead { len: 5 });
    m.step(Event::Parsed { consumed: 5, packet_len: 2 });
    let a = m.step(Event::Submitted { accepted: false });
    assert_eq!(
        a,
        Action::Fail {
            error: RunError::DecodeSubmit
        }
    );
    assert!(matches!(
        m.phase,
        Phase::Failed {
            error: RunError::DecodeSubmit
        }
    ));
}

#[test]
fn hard_receive_error_is_fatal() {
    let mut m = Machine::new();
    m.step(Event::ChunkRead { len: 5 });
    m.step(Event::Parsed { consumed: 5, packet_len: 2 });
    m.step(Event::Submitted { accepted: true });
    let a = m.step(Event::Received {
        status: RecvStatus::Failed,
    });
    assert_eq!(
        a,
        Action::Fail {
            error: RunError::DecodeRetrieve
        }
    );
}

#[test]
fn failed_frame_write_terminates_run() {
    let (m, written, err, _, _) = drive(
        &[8],
        &[(8, 4)],
        &[RecvStatus::FrameReady],
        false,
    );
    assert_eq!(written, vec![1]);
    assert_eq!(err, Some(RunError::FrameWrite));
    assert!(matches!(
        m.phase,
        Phase::Failed {
            error: RunError::FrameWrite
        }
    ));
}

#[test]
fn try_again_and_end_of_stream_are_not_errors() {
    // "No frame yet" mid-stream and "end of stream" at the flush both end
    // the drain quietly.
    let (_, written, err, _, _) = drive(
        &[6, 0],
        &[(6, 3), (0, 2)],
        &[RecvStatus::TryAgain, RecvStatus::EndOfStream],
        true,
    );
    assert!(written.is_empty());
    assert!(err.is_none());
}
