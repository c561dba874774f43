use nspt::frame::FrameError;
use nspt::frame::SerializedDataContainer;
use nspt::frame::BUF_SIZE;
use nspt::frame::HEADER_LEN;
use nspt::transport::ReadWriteStream;
use nspt::transport::ScriptedStream;
use nspt::transport::TransportError;

/// A stream that hands out its input in pieces of prepared sizes and fails
/// once the input is used up, if told to.
struct PiecewiseReader {
    input: Vec<u8>,
    cursor: usize,
    pieces: Vec<usize>,
    reads: usize,
    fail_at_end: bool,
}

impl PiecewiseReader {
    fn over(input: Vec<u8>, pieces: Vec<usize>) -> Self {
        PiecewiseReader { input, cursor: 0, pieces, reads: 0, fail_at_end: false }
    }
}

impl ReadWriteStream for PiecewiseReader {
    fn read(&mut self, buf: &mut [u8]) -> Result<usize, TransportError> {
        if self.fail_at_end && self.cursor == self.input.len() {
            return Err(TransportError { message: String::from("connection reset") });
        }
        let piece = if self.pieces.is_empty() {
            buf.len()
        } else {
            self.pieces[self.reads % self.pieces.len()]
        };
        self.reads += 1;
        let n = piece.min(buf.len()).min(self.input.len() - self.cursor);
        buf[..n].copy_from_slice(&self.input[self.cursor..self.cursor + n]);
        self.cursor += n;
        Ok(n)
    }

    fn write_all(&mut self, _data: &[u8]) -> Result<(), TransportError> {
        Err(TransportError { message: String::from("read only") })
    }

    fn try_clone(&self) -> Result<Self, TransportError> {
        Err(TransportError { message: String::from("not supported") })
    }
}

#[test]
fn constants_of_the_codec() {
    assert_eq!(HEADER_LEN, 8);
    assert_eq!(BUF_SIZE, 65_536);
}

#[test]
fn container_keeps_its_payload() {
    let container = SerializedDataContainer::new(&[1, 2, 3, 4, 5]);
    assert_eq!(container.size(), 5);
    assert_eq!(container.data(), &[1, 2, 3, 4, 5]);
}

#[test]
fn frame_is_length_then_payload() {
    let framed = SerializedDataContainer::new(&[1, 2, 3, 4, 5]).to_one_vec();
    assert_eq!(framed, vec![5, 0, 0, 0, 0, 0, 0, 0, 1, 2, 3, 4, 5]);
}

#[test]
fn frame_of_a_long_payload() {
    let payload = vec![7u8; 300];
    let framed = SerializedDataContainer::new(&payload).to_one_vec();
    assert_eq!(framed.len(), 308);
    assert_eq!(&framed[..8], &[44, 1, 0, 0, 0, 0, 0, 0]);
    assert_eq!(&framed[8..], &payload[..]);
}

#[test]
fn empty_payload_is_a_valid_frame() {
    let framed = SerializedDataContainer::new(&[]).to_one_vec();
    assert_eq!(framed, vec![0, 0, 0, 0, 0, 0, 0, 0]);
    let back = SerializedDataContainer::from_one_vec(framed).unwrap();
    assert_eq!(back.size(), 0);
    assert_eq!(back.data(), &[] as &[u8]);
    let mut stream = ScriptedStream::new(vec![0, 0, 0, 0, 0, 0, 0, 0], 3);
    let read = SerializedDataContainer::from_reader(&mut stream).unwrap();
    assert_eq!(read.size(), 0);
}

#[test]
fn from_one_vec_undoes_to_one_vec() {
    for len in [0usize, 1, 7, 8, 9, 255, 256, 70_000] {
        let payload: Vec<u8> = (0..len).map(|i| (i % 251) as u8).collect();
        let framed = SerializedDataContainer::new(&payload).to_one_vec();
        let back = SerializedDataContainer::from_one_vec(framed).unwrap();
        assert_eq!(back.size(), len);
        assert_eq!(back.data(), &payload[..]);
    }
}

#[test]
fn from_one_vec_drops_what_follows_the_frame() {
    let mut framed = SerializedDataContainer::new(&[1, 2, 3]).to_one_vec();
    framed.extend_from_slice(&[9, 9, 9, 9]);
    let back = SerializedDataContainer::from_one_vec(framed).unwrap();
    assert_eq!(back.data(), &[1, 2, 3]);
}

#[test]
fn from_one_vec_rejects_a_short_header() {
    assert!(SerializedDataContainer::from_one_vec(vec![]).is_none());
    assert!(SerializedDataContainer::from_one_vec(vec![1, 0, 0, 0, 0, 0, 0]).is_none());
}

#[test]
fn from_one_vec_rejects_a_short_payload() {
    let framed = SerializedDataContainer::new(&[1, 2, 3, 4, 5]).to_one_vec();
    for kept in 8..framed.len() {
        assert!(SerializedDataContainer::from_one_vec(framed[..kept].to_vec()).is_none());
    }
    assert!(SerializedDataContainer::from_one_vec(vec![255; 8]).is_none());
}

#[test]
fn from_reader_reads_one_frame_only() {
    let mut bytes = SerializedDataContainer::new(&[1, 2, 3, 4, 5]).to_one_vec();
    bytes.extend_from_slice(&SerializedDataContainer::new(&[6, 7]).to_one_vec());
    bytes.push(42);
    let mut stream = ScriptedStream::new(bytes, 1024);
    let first = SerializedDataContainer::from_reader(&mut stream).unwrap();
    assert_eq!(first.data(), &[1, 2, 3, 4, 5]);
    assert_eq!(stream.unread(), 11);
    let second = SerializedDataContainer::from_reader(&mut stream).unwrap();
    assert_eq!(second.data(), &[6, 7]);
    assert_eq!(stream.unread(), 1);
    assert!(matches!(
        SerializedDataContainer::from_reader(&mut stream),
        Err(FrameError::TruncatedHeader)
    ));
}

#[test]
fn from_reader_reads_across_short_reads() {
    let payload: Vec<u8> = (0..200u8).collect();
    let framed = SerializedDataContainer::new(&payload).to_one_vec();
    let mut stream = PiecewiseReader::over(framed, vec![3, 1, 2, 50]);
    let container = SerializedDataContainer::from_reader(&mut stream).unwrap();
    assert_eq!(container.data(), &payload[..]);
    assert_eq!(container.size(), 200);
    assert_eq!(stream.cursor, 208);
}

#[test]
fn from_reader_reads_a_payload_longer_than_a_buffer() {
    let payload: Vec<u8> = (0..3 * BUF_SIZE + 17).map(|i| (i % 253) as u8).collect();
    let framed = SerializedDataContainer::new(&payload).to_one_vec();
    let mut stream = ScriptedStream::new(framed, usize::MAX);
    let container = SerializedDataContainer::from_reader(&mut stream).unwrap();
    assert_eq!(container.data(), &payload[..]);
    assert_eq!(stream.unread(), 0);
}

#[test]
fn from_reader_reports_a_truncated_header() {
    for kept in 0..8 {
        let framed = SerializedDataContainer::new(&[1, 2, 3, 4, 5]).to_one_vec();
        let mut stream = ScriptedStream::new(framed[..kept].to_vec(), 4);
        assert!(matches!(
            SerializedDataContainer::from_reader(&mut stream),
            Err(FrameError::TruncatedHeader)
        ));
    }
}

#[test]
fn from_reader_reports_a_truncated_payload() {
    let framed = SerializedDataContainer::new(&[1, 2, 3, 4, 5]).to_one_vec();
    for kept in 8..framed.len() {
        let mut stream = ScriptedStream::new(framed[..kept].to_vec(), 4);
        assert!(matches!(
            SerializedDataContainer::from_reader(&mut stream),
            Err(FrameError::TruncatedPayload)
        ));
    }
}

#[test]
fn from_reader_reports_a_payload_beyond_the_address_space() {
    // the header announces 2^40 bytes
    let bytes = vec![0, 0, 0, 0, 0, 1, 0, 0, 1, 2, 3];
    let mut stream = ScriptedStream::new(bytes.clone(), 4);
    let r = SerializedDataContainer::from_reader(&mut stream);
    if usize::BITS < 64 {
        assert!(matches!(r, Err(FrameError::Oversized)));
        assert_eq!(stream.unread(), 3);
    } else {
        assert!(matches!(r, Err(FrameError::TruncatedPayload)));
        assert_eq!(stream.unread(), 0);
    }
    assert!(SerializedDataContainer::from_one_vec(bytes).is_none());
}

#[test]
fn from_reader_passes_on_a_failure_of_the_stream() {
    let framed = SerializedDataContainer::new(&[1, 2, 3, 4, 5]).to_one_vec();
    let mut stream = PiecewiseReader::over(framed[..10].to_vec(), vec![4]);
    stream.fail_at_end = true;
    match SerializedDataContainer::from_reader(&mut stream) {
        Err(FrameError::Transport(e)) => assert_eq!(e.message, "connection reset"),
        other => panic!("unexpected: {:?}", other),
    }
}

#[test]
fn scripted_stream_delivers_in_chunks_and_records_writes() {
    let mut stream = ScriptedStream::new(vec![1, 2, 3, 4, 5], 2);
    let mut buf = [0u8; 4];
    assert_eq!(stream.read(&mut buf).unwrap(), 2);
    assert_eq!(&buf[..2], &[1, 2]);
    assert_eq!(stream.read(&mut buf[..1]).unwrap(), 1);
    assert_eq!(buf[0], 3);
    assert_eq!(stream.unread(), 2);
    assert_eq!(stream.read(&mut buf).unwrap(), 2);
    assert_eq!(stream.read(&mut buf).unwrap(), 0);
    stream.write_all(&[7, 8]).unwrap();
    stream.write_all(&[9]).unwrap();
    assert_eq!(stream.written(), &vec![7, 8, 9]);
    let copy = stream.try_clone().unwrap();
    assert_eq!(copy.written(), &vec![7, 8, 9]);
    assert_eq!(copy.unread(), 0);
}

#[test]
fn scripted_stream_with_no_chunk_size_delivers_byte_by_byte() {
    let mut stream = ScriptedStream::new(vec![1, 2, 3], 0);
    let mut buf = [0u8; 4];
    assert_eq!(stream.read(&mut buf).unwrap(), 1);
    assert_eq!(stream.read(&mut buf).unwrap(), 1);
    assert_eq!(stream.unread(), 1);
}
