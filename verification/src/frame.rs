//! The frame codec: a payload travels behind its length, which is written
//! as eight bytes, least significant first.

use crate::transport::ReadWriteStream;
use crate::transport::TransportError;
use crate::wire::get_le;
use crate::wire::put_le;
use vstd::prelude::*;
use vstd::slice::slice_to_vec;

verus! {

/// Length of the header of a frame, in bytes.
pub const HEADER_LEN: usize = 8;

/// Most bytes that one read of a stream asks for.
pub const BUF_SIZE: usize = 64 * 1024;

/// Why no frame could be decoded.
#[derive(Debug)]
pub enum FrameError {
    /// The stream ended inside the header.
    TruncatedHeader,
    /// The stream ended before the payload that the header announced was
    /// complete.
    TruncatedPayload,
    /// The header announces a payload that this machine cannot address.
    Oversized,
    /// The stream failed.
    Transport(TransportError),
}

/// A payload together with its length, as it is framed on the wire.
#[derive(Debug)]
pub struct SerializedDataContainer {
    size: usize,
    data: Vec<u8>,
}

impl View for SerializedDataContainer {
    type V = Seq<u8>;

    /// The payload.
    closed spec fn view(&self) -> Seq<u8> {
        self.data@
    }
}

/// The frame of `payload`: its length in `HEADER_LEN` bytes, then the
/// payload itself.
pub open spec fn frame_of(payload: Seq<u8>) -> Seq<u8> {
    crate::wire::le_bytes(payload.len(), HEADER_LEN as nat) + payload
}

/// The payload length that the header at the front of `bytes` announces.
pub open spec fn announced_len(bytes: Seq<u8>) -> nat
    recommends
        bytes.len() >= HEADER_LEN,
{
    crate::wire::le_value(bytes.subrange(0, HEADER_LEN as int))
}

/// The payload of the frame at the front of `bytes`, or the reason why
/// there is none: `bytes` ends too early, or the header announces more than
/// this machine can address. Bytes behind the frame are not looked at.
pub open spec fn frame_payload(bytes: Seq<u8>) -> Result<Seq<u8>, FrameError> {
    if bytes.len() < HEADER_LEN {
        Err(FrameError::TruncatedHeader)
    } else if announced_len(bytes) > usize::MAX {
        Err(FrameError::Oversized)
    } else if bytes.len() - HEADER_LEN < announced_len(bytes) {
        Err(FrameError::TruncatedPayload)
    } else {
        Ok(bytes.subrange(HEADER_LEN as int, HEADER_LEN + announced_len(bytes)))
    }
}

/// A frame decodes to the payload it was made of, whatever follows it.
pub proof fn lemma_frame_round_trip(payload: Seq<u8>, rest: Seq<u8>)
    requires
        payload.len() <= usize::MAX,
    ensures
        frame_payload(frame_of(payload) + rest) == Ok::<Seq<u8>, FrameError>(payload),
        frame_of(payload).len() == HEADER_LEN + payload.len(),
{
    let header = crate::wire::le_bytes(payload.len(), HEADER_LEN as nat);
    let bytes = frame_of(payload) + rest;
    crate::wire::lemma_le_bytes_len(payload.len(), HEADER_LEN as nat);
    crate::wire::lemma_radix_pow_values();
    crate::wire::lemma_le_value_of_bytes(payload.len(), HEADER_LEN as nat);
    assert(bytes.subrange(0, HEADER_LEN as int) =~= header);
    assert(bytes.subrange(HEADER_LEN as int, HEADER_LEN + payload.len()) =~= payload);
}

/// Bytes that decode start with the frame of the payload they decode to.
pub proof fn lemma_frame_payload_prefix(bytes: Seq<u8>)
    requires
        frame_payload(bytes) is Ok,
    ensures
        bytes == frame_of(frame_payload(bytes)->Ok_0) + bytes.skip(
            HEADER_LEN + frame_payload(bytes)->Ok_0.len(),
        ),
{
    crate::wire::lemma_le_bytes_of_value(bytes.subrange(0, HEADER_LEN as int));
}

/// A frame that is cut short does not decode: cut inside the header it is
/// reported as a truncated header, cut behind the header and before the end
/// of the payload as a truncated payload.
pub proof fn lemma_truncated_frame_rejected(payload: Seq<u8>, kept: int)
    requires
        payload.len() <= usize::MAX,
        0 <= kept < HEADER_LEN + payload.len(),
    ensures
        kept < HEADER_LEN ==> frame_payload(frame_of(payload).take(kept)) == Err::<
            Seq<u8>,
            FrameError,
        >(FrameError::TruncatedHeader),
        kept >= HEADER_LEN ==> frame_payload(frame_of(payload).take(kept)) == Err::<
            Seq<u8>,
            FrameError,
        >(FrameError::TruncatedPayload),
{
    let header = crate::wire::le_bytes(payload.len(), HEADER_LEN as nat);
    let cut = frame_of(payload).take(kept);
    crate::wire::lemma_le_bytes_len(payload.len(), HEADER_LEN as nat);
    crate::wire::lemma_radix_pow_values();
    crate::wire::lemma_le_value_of_bytes(payload.len(), HEADER_LEN as nat);
    if kept >= HEADER_LEN {
        assert(cut.subrange(0, HEADER_LEN as int) =~= header);
    }
}

/// Moves bytes from `reader` into a vector until `count` bytes were read or
/// the stream ended. The first read that fails ends it, with the failure of
/// the stream; the bytes read before are dropped. Where no byte is asked
/// for, nothing is asked of the stream.
fn read_up_to<T: ReadWriteStream>(reader: &mut T, count: usize) -> (r: Result<
    Vec<u8>,
    TransportError,
>)
    ensures
        count == 0 ==> r is Ok,
        r matches Ok(bytes) ==> bytes@.len() <= count,
        old(reader).modeled() ==> final(reader).modeled() && final(reader).sent() == old(
            reader,
        ).sent(),
        r matches Ok(bytes) ==> old(reader).modeled() ==> {
            &&& bytes@.len() <= old(reader).incoming().len()
            &&& bytes@.len() < count ==> bytes@.len() == old(reader).incoming().len()
            &&& bytes@ == old(reader).incoming().take(bytes@.len() as int)
            &&& final(reader).incoming() == old(reader).incoming().skip(bytes@.len() as int)
        },
        r is Err ==> old(reader).modeled() ==> exists|taken: int|
            {
                &&& 0 <= taken < count
                &&& taken <= old(reader).incoming().len()
                &&& final(reader).incoming() == #[trigger] old(reader).incoming().skip(taken)
            },
{
    let mut bytes: Vec<u8> = Vec::new();
    let mut buf: Vec<u8> = vec![0u8; if count < BUF_SIZE { count } else { BUF_SIZE }];
    while bytes.len() < count
        invariant
            bytes@.len() <= count,
            bytes@.len() < count ==> 1 <= buf@.len() <= count - bytes@.len(),
            old(reader).modeled() ==> {
                &&& reader.modeled()
                &&& reader.sent() == old(reader).sent()
                &&& bytes@.len() <= old(reader).incoming().len()
                &&& bytes@ == old(reader).incoming().take(bytes@.len() as int)
                &&& reader.incoming() == old(reader).incoming().skip(bytes@.len() as int)
            },
        decreases count - bytes@.len(),
    {
        let ghost had = bytes@;
        let n: usize = match reader.read(buf.as_mut_slice()) {
            Ok(n) => n,
            Err(e) => {
                return Err(e);
            },
        };
        if n == 0 {
            return Ok(bytes);
        }
        let mut copied: usize = 0;
        while copied < n
            invariant
                copied <= n <= buf@.len(),
                bytes@ == had + buf@.subrange(0, copied as int),
            decreases n - copied,
        {
            bytes.push(buf[copied]);
            copied = copied + 1;
        }
        let left: usize = count - bytes.len();
        if left < buf.len() {
            buf.truncate(left);
        }
    }
    Ok(bytes)
}

impl SerializedDataContainer {
    #[verifier::type_invariant]
    spec fn wf(&self) -> bool {
        self.size == self.data@.len()
    }

    /// The container of the payload `v`.
    pub fn new(v: &[u8]) -> (container: Self)
        ensures
            container@ == v@,
    {
        Self { size: v.len(), data: slice_to_vec(v) }
    }

    /// Length of the payload.
    pub fn size(&self) -> (size: usize)
        ensures
            size == self@.len(),
    {
        proof {
            use_type_invariant(self);
        }
        self.size
    }

    /// The payload.
    pub fn data(&self) -> (data: &[u8])
        ensures
            data@ == self@,
    {
        self.data.as_slice()
    }

    /// The frame of the payload: header and payload in one vector.
    pub fn to_one_vec(&self) -> (ret: Vec<u8>)
        ensures
            ret@ == frame_of(self@),
    {
        proof {
            use_type_invariant(self);
        }
        let mut ret: Vec<u8> = Vec::new();
        put_le(&mut ret, self.size as u64, HEADER_LEN);
        let ghost header = ret@;
        let mut copied: usize = 0;
        while copied < self.data.len()
            invariant
                copied <= self.data@.len(),
                ret@ == header + self.data@.subrange(0, copied as int),
            decreases self.data@.len() - copied,
        {
            ret.push(self.data[copied]);
            copied = copied + 1;
        }
        ret
    }

    /// Decodes the next frame of `reader`: reads the header, then as many
    /// bytes as it announces. Of a stream that carries a model the contract
    /// says which bytes these are: as long as the stream itself does not
    /// fail, the result is what `frame_payload` says of the bytes that the
    /// stream holds. A frame that is returned has left the stream, and
    /// nothing behind it has; a stream that ended too early is used up.
    pub fn from_reader<T: ReadWriteStream>(reader: &mut T) -> (r: Result<Self, FrameError>)
        ensures
            old(reader).modeled() ==> final(reader).modeled() && final(reader).sent() == old(
                reader,
            ).sent(),
            old(reader).modeled() ==> match r {
                Ok(container) => {
                    &&& frame_payload(old(reader).incoming()) == Ok::<Seq<u8>, FrameError>(
                        container@,
                    )
                    &&& final(reader).incoming() == old(reader).incoming().skip(
                        HEADER_LEN + container@.len(),
                    )
                },
                Err(FrameError::Transport(_)) => true,
                Err(e) => {
                    &&& frame_payload(old(reader).incoming()) == Err::<Seq<u8>, FrameError>(e)
                    &&& e is Oversized ==> final(reader).incoming() == old(reader).incoming().skip(
                        HEADER_LEN as int,
                    )
                    &&& !(e is Oversized) ==> final(reader).incoming().len() == 0
                },
            },
    {
        let header: Vec<u8> = match read_up_to(reader, HEADER_LEN) {
            Ok(header) => header,
            Err(e) => {
                return Err(FrameError::Transport(e));
            },
        };
        if header.len() < HEADER_LEN {
            return Err(FrameError::TruncatedHeader);
        }
        proof {
            if old(reader).modeled() {
                assert(header@.subrange(0, HEADER_LEN as int) =~= old(reader).incoming().subrange(
                    0,
                    HEADER_LEN as int,
                ));
            }
        }
        let announced: u64 = get_le(header.as_slice(), 0, HEADER_LEN);
        if announced > usize::MAX as u64 {
            return Err(FrameError::Oversized);
        }
        let size: usize = announced as usize;
        let data: Vec<u8> = match read_up_to(reader, size) {
            Ok(data) => data,
            Err(e) => {
                return Err(FrameError::Transport(e));
            },
        };
        if data.len() < size {
            return Err(FrameError::TruncatedPayload);
        }
        proof {
            if old(reader).modeled() {
                assert(data@ =~= old(reader).incoming().subrange(
                    HEADER_LEN as int,
                    HEADER_LEN + announced,
                ));
            }
        }
        Ok(Self { size, data })
    }

    /// Decodes the frame at the front of `v`. Yields nothing where `v` ends
    /// inside the header or inside the payload; bytes behind the frame are
    /// dropped.
    pub fn from_one_vec(v: Vec<u8>) -> (r: Option<Self>)
        ensures
            match r {
                Some(container) => frame_payload(v@) == Ok::<Seq<u8>, FrameError>(container@),
                None => frame_payload(v@) is Err,
            },
    {
        if v.len() < HEADER_LEN {
            return None;
        }
        let announced: u64 = get_le(v.as_slice(), 0, HEADER_LEN);
        if announced > (v.len() - HEADER_LEN) as u64 {
            return None;
        }
        let size: usize = announced as usize;
        let mut data: Vec<u8> = v;
        let ghost whole = data@;
        data.truncate(HEADER_LEN + size);
        let data: Vec<u8> = data.split_off(HEADER_LEN);
        proof {
            assert(data@ =~= whole.subrange(HEADER_LEN as int, HEADER_LEN + size));
        }
        Some(Self { size, data })
    }
}

} // verus!
