use nspt::channel::drain;
use nspt::channel::receive_message;
use nspt::channel::send_message;
use nspt::channel::write_bulk;
use nspt::client::do_speed_test;
use nspt::frame::FrameError;
use nspt::frame::SerializedDataContainer;
use nspt::message::MessageError;
use nspt::message::NsptNegProtocol;
use nspt::server::serve_one;
use nspt::server::ResponderReport;
use nspt::session::bytes_per_second;
use nspt::session::Fault;
use nspt::session::MessageKind;
use nspt::session::SessionError;
use nspt::session::TOTAL_SEND_NEG_BYTES;
use nspt::transport::Listener;
use nspt::transport::ReadWriteStream;
use nspt::transport::ScriptedStream;
use nspt::transport::TransportError;
use std::cell::RefCell;
use std::time::Duration;
use std::time::Instant;

fn frames_of(messages: &[NsptNegProtocol]) -> Vec<u8> {
    let mut bytes = Vec::new();
    for message in messages {
        let container = SerializedDataContainer::from_serializable_data(message).unwrap();
        bytes.extend_from_slice(&container.to_one_vec());
    }
    bytes
}

/// A stream that hands out its input in pieces of prepared sizes, counts
/// what is written to it, and can be told to fail or to be slow.
struct TestStream {
    input: Vec<u8>,
    cursor: usize,
    pieces: Vec<usize>,
    reads: usize,
    largest_request: usize,
    written: usize,
    writes: usize,
    largest_write: usize,
    fail_writes_after: Option<usize>,
    delay_per_write: Duration,
}

impl TestStream {
    fn over(input: Vec<u8>, pieces: Vec<usize>) -> Self {
        TestStream {
            input,
            cursor: 0,
            pieces,
            reads: 0,
            largest_request: 0,
            written: 0,
            writes: 0,
            largest_write: 0,
            fail_writes_after: None,
            delay_per_write: Duration::from_millis(0),
        }
    }
}

impl ReadWriteStream for TestStream {
    fn read(&mut self, buf: &mut [u8]) -> Result<usize, TransportError> {
        let piece = if self.pieces.is_empty() {
            buf.len()
        } else {
            self.pieces[self.reads % self.pieces.len()]
        };
        self.reads += 1;
        self.largest_request = self.largest_request.max(buf.len());
        let n = piece.min(buf.len()).min(self.input.len() - self.cursor);
        buf[..n].copy_from_slice(&self.input[self.cursor..self.cursor + n]);
        self.cursor += n;
        Ok(n)
    }

    fn write_all(&mut self, data: &[u8]) -> Result<(), TransportError> {
        if let Some(limit) = self.fail_writes_after {
            if self.written + data.len() > limit {
                return Err(TransportError { message: String::from("broken pipe") });
            }
        }
        let until = Instant::now() + self.delay_per_write;
        while Instant::now() < until {}
        self.written += data.len();
        self.writes += 1;
        self.largest_write = self.largest_write.max(data.len());
        Ok(())
    }

    fn try_clone(&self) -> Result<Self, TransportError> {
        Err(TransportError { message: String::from("not supported") })
    }
}

/// A listener over prepared connections, each a control input and a data
/// input.
struct ScriptedListener {
    waiting: RefCell<Vec<Vec<u8>>>,
}

impl Listener for ScriptedListener {
    type Stream = ScriptedStream;

    fn accept(&self) -> Result<(ScriptedStream, String), TransportError> {
        let mut waiting = self.waiting.borrow_mut();
        if waiting.is_empty() {
            return Err(TransportError { message: String::from("listener closed") });
        }
        let input = waiting.remove(0);
        Ok((ScriptedStream::new(input, 5), format!("peer-{}", waiting.len())))
    }
}

#[test]
fn message_goes_out_in_a_frame() {
    let mut stream = ScriptedStream::new(Vec::new(), 8);
    send_message(&mut stream, &NsptNegProtocol::NotifyBufferSize(65_536, 3)).unwrap();
    send_message(&mut stream, &NsptNegProtocol::EndOfTransfer).unwrap();
    assert_eq!(
        stream.written(),
        &vec![
            11, 0, 0, 0, 0, 0, 0, 0, 4, 0, 0, 1, 0, 0, 0, 0, 0, 3, 0, 1, 0, 0, 0, 0, 0, 0, 0, 7
        ]
    );
}

#[test]
fn message_comes_in_from_a_frame() {
    let input = vec![
        9, 0, 0, 0, 0, 0, 0, 0, 1, 1, 0, 0, 0, 0, 0, 0, 0, 1, 0, 0, 0, 0, 0, 0, 0, 5, 77,
    ];
    let mut stream = ScriptedStream::new(input, 4);
    assert_eq!(receive_message(&mut stream).unwrap(), NsptNegProtocol::ServerHello(1));
    assert_eq!(receive_message(&mut stream).unwrap(), NsptNegProtocol::StartSpeedTest);
    assert_eq!(stream.unread(), 1);
}

#[test]
fn receive_reports_what_is_wrong_with_a_frame() {
    let mut stream = ScriptedStream::new(vec![1, 0, 0], 4);
    assert!(matches!(
        receive_message(&mut stream),
        Err(SessionError::Frame(FrameError::TruncatedHeader))
    ));
    let mut stream = ScriptedStream::new(vec![2, 0, 0, 0, 0, 0, 0, 0, 2], 4);
    assert!(matches!(
        receive_message(&mut stream),
        Err(SessionError::Frame(FrameError::TruncatedPayload))
    ));
    let mut stream = ScriptedStream::new(vec![1, 0, 0, 0, 0, 0, 0, 0, 9], 4);
    assert!(matches!(
        receive_message(&mut stream),
        Err(SessionError::Malformed(MessageError::UnknownMessage))
    ));
    let mut stream = ScriptedStream::new(vec![0, 0, 0, 0, 0, 0, 0, 0], 4);
    assert!(matches!(
        receive_message(&mut stream),
        Err(SessionError::Malformed(MessageError::UnknownMessage))
    ));
    let mut stream = ScriptedStream::new(vec![2, 0, 0, 0, 0, 0, 0, 0, 2, 3], 4);
    assert!(matches!(
        receive_message(&mut stream),
        Err(SessionError::Malformed(MessageError::MalformedMessage))
    ));
}

#[test]
fn send_passes_on_a_failure_of_the_stream() {
    let mut stream = TestStream::over(Vec::new(), Vec::new());
    stream.fail_writes_after = Some(0);
    match send_message(&mut stream, &NsptNegProtocol::StartSpeedTest) {
        Err(SessionError::Transport(e)) => assert_eq!(e.message, "broken pipe"),
        other => panic!("unexpected: {:?}", other),
    }
}

#[test]
fn bulk_is_written_in_full_and_in_pieces_of_a_block() {
    let block = vec![5u8; 1000];
    let mut stream = TestStream::over(Vec::new(), Vec::new());
    write_bulk(&mut stream, &block, 2500).unwrap();
    assert_eq!(stream.written, 2500);
    assert_eq!(stream.writes, 3);
    assert_eq!(stream.largest_write, 1000);
    write_bulk(&mut stream, &block, 0).unwrap();
    assert_eq!(stream.written, 2500);
    let mut recorded = ScriptedStream::new(Vec::new(), 1);
    write_bulk(&mut recorded, &[1, 2, 3], 8).unwrap();
    assert_eq!(recorded.written(), &vec![1, 2, 3, 1, 2, 3, 1, 2]);
}

#[test]
fn bulk_write_stops_at_a_failure_of_the_stream() {
    let block = vec![5u8; 1000];
    let mut stream = TestStream::over(Vec::new(), Vec::new());
    stream.fail_writes_after = Some(2000);
    assert!(write_bulk(&mut stream, &block, 2500).is_err());
    assert_eq!(stream.written, 2000);
}

#[test]
fn transfer_of_no_bytes_asks_nothing_of_the_stream() {
    let mut stream = TestStream::over(Vec::new(), Vec::new());
    stream.fail_writes_after = Some(0);
    write_bulk(&mut stream, &[1, 2, 3], 0).unwrap();
    write_bulk(&mut stream, &[], 0).unwrap();
    let sample = do_speed_test(&mut stream, 0).unwrap();
    assert_eq!(sample.bytes, 0);
    assert_eq!(stream.writes, 0);
    assert_eq!(stream.written, 0);
    assert!(write_bulk(&mut stream, &[1, 2, 3], 1).is_err());
    assert!(do_speed_test(&mut stream, 1).is_err());
}

#[test]
fn speed_test_stops_at_a_failure_of_the_stream() {
    let mut stream = TestStream::over(Vec::new(), Vec::new());
    stream.fail_writes_after = Some(3 * 65_536);
    match do_speed_test(&mut stream, 1_048_576) {
        Err(e) => assert_eq!(e.message, "broken pipe"),
        Ok(sample) => panic!("unexpected: {:?}", sample),
    }
    assert_eq!(stream.written, 3 * 65_536);
    assert_eq!(stream.writes, 3);
}

#[test]
fn drain_takes_a_round_across_seven_uneven_reads() {
    let pieces = vec![1, 4095, 8192, 20_000, 3, 32_000, 1245];
    assert_eq!(pieces.iter().sum::<usize>(), 65_536);
    let mut input = vec![1u8; 65_536];
    input.extend_from_slice(&[2u8; 100]);
    let mut stream = TestStream::over(input, pieces);
    drain(&mut stream, 65_536).unwrap();
    assert_eq!(stream.reads, 7);
    assert_eq!(stream.cursor, 65_536);
}

#[test]
fn drain_never_reads_into_what_follows() {
    for chunk in [1usize, 2, 3, 1000, 65_535, 65_536, 65_537, usize::MAX] {
        let mut stream = ScriptedStream::new(vec![0u8; 200_000], chunk);
        drain(&mut stream, 777).unwrap();
        assert_eq!(stream.unread(), 199_223);
        drain(&mut stream, 0).unwrap();
        assert_eq!(stream.unread(), 199_223);
        if chunk >= 1000 {
            drain(&mut stream, 65_536).unwrap();
            assert_eq!(stream.unread(), 133_687);
            drain(&mut stream, 65_536).unwrap();
            assert_eq!(stream.unread(), 68_151);
        }
    }
}

#[test]
fn drain_asks_for_a_buffer_at_most_and_for_no_more_than_is_due() {
    let mut stream = TestStream::over(vec![0u8; 400_000], Vec::new());
    drain(&mut stream, 70_000).unwrap();
    assert_eq!(stream.cursor, 70_000);
    assert_eq!(stream.largest_request, 65_536);
    assert_eq!(stream.reads, 2);
    let mut stream = TestStream::over(vec![0u8; 400_000], Vec::new());
    drain(&mut stream, 100).unwrap();
    assert_eq!(stream.cursor, 100);
    assert_eq!(stream.largest_request, 100);
}

#[test]
fn drain_reports_a_peer_that_closed_early() {
    let mut stream = ScriptedStream::new(vec![0u8; 65_535], 4096);
    assert!(matches!(drain(&mut stream, 65_536), Err(SessionError::PeerClosed)));
    assert_eq!(stream.unread(), 0);
    let mut stream = ScriptedStream::new(Vec::new(), 4096);
    assert!(matches!(drain(&mut stream, 1), Err(SessionError::PeerClosed)));
}

#[test]
fn speed_test_writes_the_volume_and_takes_the_time() {
    let mut stream = TestStream::over(Vec::new(), Vec::new());
    let sample = do_speed_test(&mut stream, 1_048_576).unwrap();
    assert_eq!(sample.bytes, 1_048_576);
    assert_eq!(stream.written, 1_048_576);
    assert_eq!(stream.writes, 16);
    assert_eq!(stream.largest_write, 65_536);
    assert!(sample.elapsed_ms < 5_000);
}

#[test]
fn speed_test_writes_a_volume_that_is_no_multiple_of_a_block() {
    let mut stream = TestStream::over(Vec::new(), Vec::new());
    let sample = do_speed_test(&mut stream, 100_000).unwrap();
    assert_eq!(sample.bytes, 100_000);
    assert_eq!(stream.written, 100_000);
    assert_eq!(stream.writes, 2);
}

#[test]
fn speed_test_over_a_slow_transport_gives_volume_over_time() {
    let mut stream = TestStream::over(Vec::new(), Vec::new());
    stream.delay_per_write = Duration::from_millis(5);
    let started = Instant::now();
    let sample = do_speed_test(&mut stream, 1_048_576).unwrap();
    let outer_ms = started.elapsed().as_millis() as u64;
    assert_eq!(sample.bytes, 1_048_576);
    // sixteen writes of five milliseconds each
    assert!(sample.elapsed_ms >= 79);
    assert!(sample.elapsed_ms <= outer_ms + 1);
    let throughput = sample.bytes as f64 / sample.elapsed_ms as f64;
    let expected = 1_048_576.0 / sample.elapsed_ms as f64;
    assert!((throughput - expected).abs() < 1e-9);
    assert_eq!(
        bytes_per_second(sample.bytes, sample.elapsed_ms),
        1_048_576_000 / sample.elapsed_ms
    );
}

#[test]
fn session_over_a_slow_transport_samples_volume_over_time() {
    let script = [
        NsptNegProtocol::ServerHello(1),
        NsptNegProtocol::StartSpeedTest,
        NsptNegProtocol::EndOfSpeedTest,
    ];
    let mut control = TestStream::over(frames_of(&script), Vec::new());
    let mut data = TestStream::over(Vec::new(), Vec::new());
    data.delay_per_write = Duration::from_millis(5);
    let started = Instant::now();
    let report = nspt::client::do_test(&mut control, &mut data, 1, Some(1_048_576)).unwrap();
    let outer_ms = started.elapsed().as_millis() as u64;
    assert_eq!(report.samples.len(), 1);
    let sample = report.samples[0];
    assert_eq!(sample.bytes, 1_048_576);
    assert_eq!(data.written, 1_048_576);
    // sixteen writes of five milliseconds each
    assert!(sample.elapsed_ms >= 79);
    assert!(sample.elapsed_ms <= outer_ms + 1);
    let throughput = sample.bytes as f64 / sample.elapsed_ms as f64;
    assert!((throughput - 1_048_576.0 / sample.elapsed_ms as f64).abs() < 1e-9);
    assert!(throughput <= 1_048_576.0 / 79.0);

    // the responder takes what the initiator wrote
    let to_responder = frames_of(&[
        NsptNegProtocol::ClientHello(1),
        NsptNegProtocol::SpeedNegotiation(false),
        NsptNegProtocol::NotifyBufferSize(1_048_576, 1),
        NsptNegProtocol::EndOfTransfer,
    ]);
    let mut control_back = TestStream::over(to_responder, vec![5]);
    let mut data_back = TestStream::over(vec![0u8; data.written], vec![1000, 3000]);
    let outcome = nspt::server::do_test(&mut control_back, &mut data_back).unwrap();
    assert_eq!(
        outcome,
        ResponderReport::Completed { unit_size: 1_048_576, rounds: 1, calibrated: false }
    );
    assert_eq!(data_back.cursor, 1_048_576);
    assert_eq!(control_back.written, frames_of(&script).len());
}

#[test]
fn initiator_transmits_three_rounds_of_fixed_size() {
    let script = [
        NsptNegProtocol::ServerHello(1),
        NsptNegProtocol::StartSpeedTest,
        NsptNegProtocol::EndOfSpeedTest,
    ];
    let mut control = ScriptedStream::new(frames_of(&script), 3);
    let mut data = ScriptedStream::new(Vec::new(), 1);
    let report = nspt::client::do_test(&mut control, &mut data, 3, Some(65_536)).unwrap();
    assert_eq!(report.unit_size, 65_536);
    assert_eq!(report.samples.len(), 3);
    assert!(report.samples.iter().all(|sample| sample.bytes == 65_536));
    assert_eq!(data.written().len(), 3 * 65_536);
    assert_eq!(
        control.written(),
        &frames_of(&[
            NsptNegProtocol::ClientHello(1),
            NsptNegProtocol::SpeedNegotiation(false),
            NsptNegProtocol::NotifyBufferSize(65_536, 3),
            NsptNegProtocol::EndOfTransfer,
        ])
    );
    assert_eq!(control.unread(), 0);
}

#[test]
fn initiator_writes_each_round_in_pieces_of_a_buffer() {
    let script = [
        NsptNegProtocol::ServerHello(1),
        NsptNegProtocol::StartSpeedTest,
        NsptNegProtocol::EndOfSpeedTest,
    ];
    let mut control = TestStream::over(frames_of(&script), vec![3]);
    let mut data = TestStream::over(Vec::new(), Vec::new());
    let report = nspt::client::do_test(&mut control, &mut data, 3, Some(100_000)).unwrap();
    assert_eq!(report.unit_size, 100_000);
    assert_eq!(data.written, 300_000);
    assert_eq!(data.writes, 6);
    assert_eq!(data.largest_write, 65_536);
    assert_eq!(control.cursor, control.input.len());
}

#[test]
fn responder_drains_three_rounds_of_fixed_size_before_it_acknowledges() {
    let script = [
        NsptNegProtocol::ClientHello(1),
        NsptNegProtocol::SpeedNegotiation(false),
        NsptNegProtocol::NotifyBufferSize(65_536, 3),
        NsptNegProtocol::EndOfTransfer,
    ];
    let mut control = ScriptedStream::new(frames_of(&script), 7);
    let mut bulk = vec![3u8; 3 * 65_536];
    bulk.extend_from_slice(&[4u8; 50]);
    let mut data = ScriptedStream::new(bulk, 10_000);
    let report = nspt::server::do_test(&mut control, &mut data).unwrap();
    assert_eq!(
        report,
        ResponderReport::Completed { unit_size: 65_536, rounds: 3, calibrated: false }
    );
    assert_eq!(data.unread(), 50);
    assert_eq!(
        control.written(),
        &frames_of(&[
            NsptNegProtocol::ServerHello(1),
            NsptNegProtocol::StartSpeedTest,
            NsptNegProtocol::EndOfSpeedTest,
        ])
    );
}

#[test]
fn responder_does_not_acknowledge_a_transfer_that_is_cut_short() {
    let script = [
        NsptNegProtocol::ClientHello(1),
        NsptNegProtocol::SpeedNegotiation(false),
        NsptNegProtocol::NotifyBufferSize(65_536, 3),
        NsptNegProtocol::EndOfTransfer,
    ];
    let mut control = ScriptedStream::new(frames_of(&script), 7);
    let mut data = ScriptedStream::new(vec![3u8; 3 * 65_536 - 1], 10_000);
    assert!(matches!(
        nspt::server::do_test(&mut control, &mut data),
        Err(SessionError::PeerClosed)
    ));
    assert_eq!(
        control.written(),
        &frames_of(&[NsptNegProtocol::ServerHello(1), NsptNegProtocol::StartSpeedTest])
    );
}

#[test]
fn initiator_leaves_a_responder_of_another_version() {
    let script = [NsptNegProtocol::ServerHello(2), NsptNegProtocol::StartSpeedTest];
    let mut control = ScriptedStream::new(frames_of(&script), 64);
    let mut data = ScriptedStream::new(Vec::new(), 64);
    match nspt::client::do_test(&mut control, &mut data, 3, Some(65_536)) {
        Err(SessionError::Fault(fault)) => {
            assert_eq!(fault, Fault::VersionMismatch { ours: 1, theirs: 2 })
        }
        other => panic!("unexpected: {:?}", other),
    }
    assert!(data.written().is_empty());
    assert_eq!(control.written(), &frames_of(&[NsptNegProtocol::ClientHello(1)]));
    assert_eq!(control.unread(), 9);
}

#[test]
fn responder_turns_an_initiator_of_another_version_away_and_serves_the_next() {
    let stranger = frames_of(&[
        NsptNegProtocol::ClientHello(2),
        NsptNegProtocol::SpeedNegotiation(false),
    ]);
    let friend = frames_of(&[
        NsptNegProtocol::ClientHello(1),
        NsptNegProtocol::SpeedNegotiation(false),
        NsptNegProtocol::NotifyBufferSize(0, 2),
        NsptNegProtocol::EndOfTransfer,
    ]);
    let listener = ScriptedListener { waiting: RefCell::new(vec![stranger, friend]) };
    let (peer, outcome) = serve_one(&listener).unwrap();
    assert_eq!(peer, "peer-1");
    assert_eq!(outcome.unwrap(), ResponderReport::VersionMismatch { theirs: 2 });
    let (peer, outcome) = serve_one(&listener).unwrap();
    assert_eq!(peer, "peer-0");
    assert_eq!(
        outcome.unwrap(),
        ResponderReport::Completed { unit_size: 0, rounds: 2, calibrated: false }
    );
    assert!(matches!(serve_one(&listener), Err(SessionError::Transport(_))));
}

#[test]
fn initiator_reports_a_message_out_of_order() {
    let script = [NsptNegProtocol::ServerHello(1), NsptNegProtocol::EndOfSpeedTest];
    let mut control = ScriptedStream::new(frames_of(&script), 64);
    let mut data = ScriptedStream::new(Vec::new(), 64);
    match nspt::client::do_test(&mut control, &mut data, 3, Some(65_536)) {
        Err(SessionError::Fault(fault)) => assert_eq!(
            fault,
            Fault::ProtocolViolation {
                expected: MessageKind::StartSpeedTest,
                received: NsptNegProtocol::EndOfSpeedTest
            }
        ),
        other => panic!("unexpected: {:?}", other),
    }
    assert!(data.written().is_empty());
    assert_eq!(
        control.written(),
        &frames_of(&[
            NsptNegProtocol::ClientHello(1),
            NsptNegProtocol::SpeedNegotiation(false),
            NsptNegProtocol::NotifyBufferSize(65_536, 3),
        ])
    );
    assert_eq!(control.unread(), 0);
}

#[test]
fn initiator_stops_at_a_message_out_of_order_after_the_rounds() {
    let script = [
        NsptNegProtocol::ServerHello(1),
        NsptNegProtocol::StartSpeedTest,
        NsptNegProtocol::StartSpeedTest,
        NsptNegProtocol::EndOfSpeedTest,
    ];
    let mut control = ScriptedStream::new(frames_of(&script), 64);
    let mut data = ScriptedStream::new(Vec::new(), 64);
    match nspt::client::do_test(&mut control, &mut data, 2, Some(1000)) {
        Err(SessionError::Fault(fault)) => assert_eq!(
            fault,
            Fault::ProtocolViolation {
                expected: MessageKind::EndOfSpeedTest,
                received: NsptNegProtocol::StartSpeedTest
            }
        ),
        other => panic!("unexpected: {:?}", other),
    }
    assert_eq!(data.written().len(), 2000);
    assert_eq!(
        control.written(),
        &frames_of(&[
            NsptNegProtocol::ClientHello(1),
            NsptNegProtocol::SpeedNegotiation(false),
            NsptNegProtocol::NotifyBufferSize(1000, 2),
            NsptNegProtocol::EndOfTransfer,
        ])
    );
    assert_eq!(control.unread(), 9);
}

#[test]
fn initiator_stops_at_a_frame_that_is_no_message() {
    let mut input = frames_of(&[NsptNegProtocol::ServerHello(1)]);
    input.extend_from_slice(&[1, 0, 0, 0, 0, 0, 0, 0, 99, 7, 7]);
    let mut control = ScriptedStream::new(input, 64);
    let mut data = ScriptedStream::new(Vec::new(), 64);
    assert!(matches!(
        nspt::client::do_test(&mut control, &mut data, 2, Some(1000)),
        Err(SessionError::Malformed(MessageError::UnknownMessage))
    ));
    assert!(data.written().is_empty());
    assert_eq!(
        control.written(),
        &frames_of(&[
            NsptNegProtocol::ClientHello(1),
            NsptNegProtocol::SpeedNegotiation(false),
            NsptNegProtocol::NotifyBufferSize(1000, 2),
        ])
    );
    assert_eq!(control.unread(), 2);
}

#[test]
fn responder_reports_a_message_out_of_order() {
    let script = [NsptNegProtocol::ClientHello(1), NsptNegProtocol::StartSpeedNegotiation];
    let mut control = ScriptedStream::new(frames_of(&script), 64);
    let mut data = ScriptedStream::new(vec![0; 10], 64);
    match nspt::server::do_test(&mut control, &mut data) {
        Err(SessionError::Fault(fault)) => assert_eq!(
            fault,
            Fault::ProtocolViolation {
                expected: MessageKind::SpeedNegotiation,
                received: NsptNegProtocol::StartSpeedNegotiation
            }
        ),
        other => panic!("unexpected: {:?}", other),
    }
    assert_eq!(data.unread(), 10);
    assert_eq!(control.written(), &frames_of(&[NsptNegProtocol::ServerHello(1)]));
    assert_eq!(control.unread(), 0);
}

#[test]
fn responder_stops_at_a_frame_that_is_no_message() {
    let mut input = frames_of(&[
        NsptNegProtocol::ClientHello(1),
        NsptNegProtocol::SpeedNegotiation(false),
    ]);
    input.extend_from_slice(&[2, 0, 0, 0, 0, 0, 0, 0, 2, 9, 5]);
    let mut control = ScriptedStream::new(input, 64);
    let mut data = ScriptedStream::new(vec![0; 10], 64);
    assert!(matches!(
        nspt::server::do_test(&mut control, &mut data),
        Err(SessionError::Malformed(MessageError::MalformedMessage))
    ));
    assert_eq!(data.unread(), 10);
    assert_eq!(control.written(), &frames_of(&[NsptNegProtocol::ServerHello(1)]));
    assert_eq!(control.unread(), 1);
}

#[test]
fn responder_reports_a_calibration_that_is_cut_short() {
    let script = [
        NsptNegProtocol::ClientHello(1),
        NsptNegProtocol::SpeedNegotiation(true),
        NsptNegProtocol::StartSpeedNegotiation,
        NsptNegProtocol::NotifyBufferSize(10, 1),
        NsptNegProtocol::EndOfTransfer,
    ];
    let mut control = ScriptedStream::new(frames_of(&script), 64);
    let mut data = ScriptedStream::new(vec![0; 1000], 64);
    assert!(matches!(
        nspt::server::do_test(&mut control, &mut data),
        Err(SessionError::PeerClosed)
    ));
    assert_eq!(data.unread(), 0);
    assert_eq!(
        control.written(),
        &frames_of(&[NsptNegProtocol::ServerHello(1), NsptNegProtocol::StartSpeedNegotiation])
    );
}

#[test]
fn drain_of_no_bytes_asks_nothing_of_the_stream() {
    let mut stream = ScriptedStream::new(Vec::new(), 4096);
    drain(&mut stream, 0).unwrap();
    let mut stream = TestStream::over(vec![1, 2, 3], Vec::new());
    drain(&mut stream, 0).unwrap();
    assert_eq!(stream.reads, 0);
    assert_eq!(stream.cursor, 0);
}

#[test]
fn initiator_reports_a_stream_that_ends() {
    let script = [NsptNegProtocol::ServerHello(1)];
    let mut control = ScriptedStream::new(frames_of(&script), 64);
    let mut data = ScriptedStream::new(Vec::new(), 64);
    assert!(matches!(
        nspt::client::do_test(&mut control, &mut data, 3, Some(65_536)),
        Err(SessionError::Frame(FrameError::TruncatedHeader))
    ));
}

#[test]
fn initiator_reports_a_failure_of_the_data_handle() {
    let script = [
        NsptNegProtocol::ServerHello(1),
        NsptNegProtocol::StartSpeedTest,
        NsptNegProtocol::EndOfSpeedTest,
    ];
    let mut control = TestStream::over(frames_of(&script), Vec::new());
    let mut data = TestStream::over(Vec::new(), Vec::new());
    data.fail_writes_after = Some(65_536);
    match nspt::client::do_test(&mut control, &mut data, 3, Some(65_536)) {
        Err(SessionError::Transport(e)) => assert_eq!(e.message, "broken pipe"),
        other => panic!("unexpected: {:?}", other),
    }
    assert_eq!(data.written, 65_536);
}

#[test]
fn what_the_initiator_writes_the_responder_accepts() {
    let from_responder = frames_of(&[
        NsptNegProtocol::ServerHello(1),
        NsptNegProtocol::StartSpeedTest,
        NsptNegProtocol::EndOfSpeedTest,
    ]);
    let mut control = ScriptedStream::new(from_responder.clone(), 64);
    let mut data = ScriptedStream::new(Vec::new(), 64);
    let report = nspt::client::do_test(&mut control, &mut data, 1, Some(1_048_576)).unwrap();
    assert_eq!(report.unit_size, 1_048_576);
    assert_eq!(report.samples.len(), 1);
    assert_eq!(report.samples[0].bytes, 1_048_576);

    let mut control_back = ScriptedStream::new(control.written().clone(), 64);
    let mut data_back = ScriptedStream::new(data.written().clone(), 4096);
    let outcome = nspt::server::do_test(&mut control_back, &mut data_back).unwrap();
    assert_eq!(
        outcome,
        ResponderReport::Completed { unit_size: 1_048_576, rounds: 1, calibrated: false }
    );
    assert_eq!(control_back.unread(), 0);
    assert_eq!(data_back.unread(), 0);
    assert_eq!(control_back.written(), &from_responder);
}

#[test]
fn what_the_initiator_writes_with_calibration_the_responder_accepts() {
    let from_responder = frames_of(&[
        NsptNegProtocol::ServerHello(1),
        NsptNegProtocol::StartSpeedNegotiation,
        NsptNegProtocol::StartSpeedTest,
        NsptNegProtocol::EndOfSpeedTest,
    ]);
    let mut control = TestStream::over(from_responder.clone(), Vec::new());
    let mut counted = TestStream::over(Vec::new(), Vec::new());
    let report = nspt::client::do_test(&mut control, &mut counted, 2, None).unwrap();
    assert!(report.unit_size.is_power_of_two() || report.unit_size == 25_165_824);
    assert!(report.unit_size >= 1 && report.unit_size <= 25_165_824);
    assert_eq!(report.samples.len(), 2);
    assert_eq!(counted.written, TOTAL_SEND_NEG_BYTES + 2 * report.unit_size);

    let to_responder = frames_of(&[
        NsptNegProtocol::ClientHello(1),
        NsptNegProtocol::SpeedNegotiation(true),
        NsptNegProtocol::StartSpeedNegotiation,
        NsptNegProtocol::NotifyBufferSize(4096, 2),
        NsptNegProtocol::EndOfTransfer,
    ]);
    let mut control_back = TestStream::over(to_responder, vec![1, 2, 3]);
    let mut data_back = TestStream::over(vec![0u8; TOTAL_SEND_NEG_BYTES + 2 * 4096 + 5], vec![60_000, 7]);
    let outcome = nspt::server::do_test(&mut control_back, &mut data_back).unwrap();
    assert_eq!(
        outcome,
        ResponderReport::Completed { unit_size: 4096, rounds: 2, calibrated: true }
    );
    assert_eq!(data_back.cursor, TOTAL_SEND_NEG_BYTES + 2 * 4096);
    assert_eq!(control_back.written, from_responder.len());
}
