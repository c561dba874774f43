//! What a driver does with a stream: it sends and receives messages, each
//! in a frame of its own, and it moves bulk data, which is not framed.
//!
//! The contracts speak of the bytes of a stream wherever the stream carries
//! a model of them (see `ReadWriteStream::modeled`).

use crate::frame::FrameError;
use crate::frame::SerializedDataContainer;
use crate::frame::BUF_SIZE;
use crate::message::decode_message;
use crate::message::encode_message;
use crate::message::NsptNegProtocol;
use crate::session::SessionError;
use crate::transport::ReadWriteStream;
use crate::transport::TransportError;
use vstd::prelude::*;

verus! {

/// The bytes that carry `message` on the wire: its payload in a frame.
pub open spec fn message_frame(message: NsptNegProtocol) -> Seq<u8> {
    crate::frame::frame_of(crate::message::message_bytes(message))
}

/// The bytes that carry `messages` on the wire, one frame behind the other.
pub open spec fn frames(messages: Seq<NsptNegProtocol>) -> Seq<u8>
    decreases messages.len(),
{
    if messages.len() == 0 {
        Seq::empty()
    } else {
        frames(messages.drop_last()) + message_frame(messages.last())
    }
}

/// One more message is one more frame at the end.
pub proof fn lemma_frames_push(messages: Seq<NsptNegProtocol>, message: NsptNegProtocol)
    ensures
        frames(messages.push(message)) == frames(messages) + message_frame(message),
{
    assert(messages.push(message).drop_last() =~= messages);
}

/// The frames of a run of messages are the frames of its front, then the
/// frames of the rest.
pub proof fn lemma_frames_split(messages: Seq<NsptNegProtocol>, front: int)
    requires
        0 <= front <= messages.len(),
    ensures
        frames(messages) == frames(messages.take(front)) + frames(messages.skip(front)),
    decreases messages.len(),
{
    if front == messages.len() {
        assert(messages.take(front) =~= messages);
    } else {
        lemma_frames_split(messages.drop_last(), front);
        assert(messages.drop_last().take(front) =~= messages.take(front));
        assert(messages.drop_last().skip(front) =~= messages.skip(front).drop_last());
    }
}

/// The frames of a run of messages start with the frame of the first.
pub proof fn lemma_frames_first(messages: Seq<NsptNegProtocol>)
    requires
        messages.len() > 0,
    ensures
        frames(messages) == message_frame(messages[0]) + frames(messages.skip(1)),
{
    lemma_frames_split(messages, 1);
    assert(frames(messages.take(1).drop_last()) =~= Seq::<u8>::empty());
}

/// Writes `message` to `stream`, in a frame. Fails where the stream fails,
/// and only there.
pub fn send_message<T: ReadWriteStream>(stream: &mut T, message: &NsptNegProtocol) -> (r: Result<
    (),
    SessionError,
>)
    ensures
        r matches Err(e) ==> e is Transport,
        old(stream).modeled() ==> {
            &&& final(stream).modeled()
            &&& final(stream).incoming() == old(stream).incoming()
            &&& old(stream).sent().is_prefix_of(final(stream).sent())
            &&& r is Ok ==> final(stream).sent() == old(stream).sent() + message_frame(*message)
        },
{
    let payload: Vec<u8> = encode_message(message);
    let frame: Vec<u8> = SerializedDataContainer::new(payload.as_slice()).to_one_vec();
    match stream.write_all(frame.as_slice()) {
        Ok(()) => Ok(()),
        Err(e) => Err(SessionError::Transport(e)),
    }
}

/// What reading one message from a stream that holds `incoming` comes to,
/// where the stream itself does not fail: the message of the frame at the
/// front, or the way in which the bytes are no frame of a message.
pub open spec fn next_message(incoming: Seq<u8>) -> Result<NsptNegProtocol, SessionError> {
    match crate::frame::frame_payload(incoming) {
        Ok(payload) => match crate::message::parse_message(payload) {
            Ok(message) => Ok(message),
            Err(e) => Err(SessionError::Malformed(e)),
        },
        Err(e) => Err(SessionError::Frame(e)),
    }
}

/// What is left of a stream that holds `incoming` when one message was
/// read from it, or could not be: a frame that is whole is taken with its
/// payload, of a frame too large only the header, and a stream that ends
/// inside a frame is used up.
pub open spec fn after_message(incoming: Seq<u8>) -> Seq<u8> {
    match crate::frame::frame_payload(incoming) {
        Ok(payload) => incoming.skip(crate::frame::HEADER_LEN + payload.len()),
        Err(FrameError::Oversized) => incoming.skip(crate::frame::HEADER_LEN as int),
        Err(_) => Seq::empty(),
    }
}

/// Bytes that start with the frame of a message yield that message.
pub proof fn lemma_next_message_of_frame(message: NsptNegProtocol, rest: Seq<u8>)
    ensures
        next_message(message_frame(message) + rest) == Ok::<NsptNegProtocol, SessionError>(
            message,
        ),
        message_frame(message).len() == crate::frame::HEADER_LEN
            + crate::message::message_bytes(message).len(),
{
    crate::message::lemma_message_bytes_len(message);
    crate::frame::lemma_frame_round_trip(crate::message::message_bytes(message), rest);
    crate::message::lemma_message_round_trip(message);
}

/// Of bytes that start with the frames of `whole`, what is left when the
/// first `count` frames are taken yields the message behind them.
pub proof fn lemma_next_message_owed(
    whole: Seq<NsptNegProtocol>,
    count: int,
    held: Seq<u8>,
    left: Seq<u8>,
)
    requires
        0 <= count < whole.len(),
        frames(whole).is_prefix_of(held),
        held == frames(whole.take(count)) + left,
    ensures
        next_message(left) == Ok::<NsptNegProtocol, SessionError>(whole[count]),
{
    let front = frames(whole.take(count));
    let back = frames(whole.skip(count));
    let behind = held.skip(frames(whole).len() as int);
    let rest = frames(whole.skip(count).skip(1)) + behind;
    lemma_frames_split(whole, count);
    lemma_frames_first(whole.skip(count));
    assert(held =~= front + back + behind);
    assert(left =~= held.skip(front.len() as int));
    assert(left =~= message_frame(whole[count]) + rest);
    lemma_next_message_of_frame(whole[count], rest);
}

/// Of bytes that start with the frames of `whole`, what is left when the
/// first `count` frames are taken yields the message behind them, and
/// leaves what is left when one frame more is taken.
pub proof fn lemma_next_message_in_order(
    whole: Seq<NsptNegProtocol>,
    count: int,
    held: Seq<u8>,
    left: Seq<u8>,
)
    requires
        0 <= count < whole.len(),
        frames(whole).is_prefix_of(held),
        held == frames(whole.take(count)) + left,
    ensures
        next_message(left) == Ok::<NsptNegProtocol, SessionError>(whole[count]),
        held == frames(whole.take(count + 1)) + after_message(left),
{
    lemma_next_message_owed(whole, count, held, left);
    let rest = left.skip(message_frame(whole[count]).len() as int);
    crate::message::lemma_message_encoding_unique(
        crate::frame::frame_payload(left)->Ok_0,
    );
    crate::frame::lemma_frame_payload_prefix(left);
    assert(whole.take(count + 1) =~= whole.take(count).push(whole[count]));
    lemma_frames_push(whole.take(count), whole[count]);
    assert(after_message(left) =~= rest);
    assert(left =~= message_frame(whole[count]) + rest);
    assert(held =~= frames(whole.take(count + 1)) + after_message(left));
}

/// Whether the stream holds the first `count` messages due, in order, and
/// behind them the message `received`, which is of another kind than the
/// one that is due there.
pub open spec fn holds_wrong_message(
    due: Seq<NsptNegProtocol>,
    incoming: Seq<u8>,
    count: int,
    received: NsptNegProtocol,
) -> bool {
    &&& 0 <= count < due.len()
    &&& frames(due.take(count).push(received)).is_prefix_of(incoming)
    &&& crate::session::kind_of(received) != crate::session::kind_of(due[count])
}

/// Reads the next frame of `stream` and decodes the message in it. Of a
/// stream that carries a model: as long as the stream itself does not fail,
/// the result is what `next_message` says of the bytes that the stream
/// holds, and a message that is returned has left the stream, frame and
/// all, and nothing else has.
pub fn receive_message<T: ReadWriteStream>(stream: &mut T) -> (r: Result<
    NsptNegProtocol,
    SessionError,
>)
    ensures
        r matches Err(e) ==> e is Frame || e is Malformed,
        old(stream).modeled() ==> {
            &&& final(stream).modeled()
            &&& final(stream).sent() == old(stream).sent()
            &&& !(r matches Err(SessionError::Frame(FrameError::Transport(_)))) ==> r
                == next_message(old(stream).incoming())
            &&& r matches Ok(message) ==> old(stream).incoming() == message_frame(message)
                + final(stream).incoming()
            &&& r matches Err(SessionError::Frame(e)) ==> (e is TruncatedHeader
                || e is TruncatedPayload ==> final(stream).incoming().len() == 0)
            &&& !(r matches Err(SessionError::Frame(FrameError::Transport(_)))) ==> {
                final(stream).incoming() == after_message(old(stream).incoming())
            }
        },
{
    let container: SerializedDataContainer = match SerializedDataContainer::from_reader(stream) {
        Ok(container) => container,
        Err(e) => {
            return Err(SessionError::Frame(e));
        },
    };
    match decode_message(container.data()) {
        Ok(message) => {
            proof {
                if old(stream).modeled() {
                    crate::message::lemma_message_encoding_unique(container@);
                    crate::frame::lemma_frame_payload_prefix(old(stream).incoming());
                }
            }
            Ok(message)
        },
        Err(e) => Err(SessionError::Malformed(e)),
    }
}

/// Bulk data of `total` bytes made of `block`: the block again and again,
/// the last time as far as it is needed.
pub open spec fn bulk_of(block: Seq<u8>, total: nat) -> Seq<u8> {
    Seq::new(total, |i: int| block[i % (block.len() as int)])
}

/// Bulk data that ends with a whole block goes on with the block from its
/// start.
pub proof fn lemma_bulk_of_extend(block: Seq<u8>, whole: nat, more: nat)
    requires
        block.len() > 0,
        whole % block.len() == 0,
        more <= block.len(),
    ensures
        bulk_of(block, whole) + block.take(more as int) == bulk_of(block, whole + more),
        more == block.len() ==> (whole + more) % block.len() == 0,
{
    let len = block.len() as int;
    assert forall|i: int| whole <= i < whole + more implies #[trigger] (i % len) == i - whole by {
        let offset = i - whole;
        assert((whole + offset) % len == offset) by (nonlinear_arith)
            requires
                len > 0,
                whole % (len as nat) == 0,
                0 <= offset < len,
        ;
    }
    if more == block.len() {
        assert((whole + len) % len == 0) by (nonlinear_arith)
            requires
                len > 0,
                whole % (len as nat) == 0,
        ;
    }
}

/// Writes `total` bytes of bulk data to `stream`: the bytes of `block`,
/// again and again, handed over in pieces of at most the length of `block`.
/// The first piece that the stream does not take ends the transfer, with
/// the failure of the stream; a front of the bulk data is written then.
/// Where nothing is to be written, nothing is asked of the stream.
pub fn write_bulk<T: ReadWriteStream>(stream: &mut T, block: &[u8], total: usize) -> (r: Result<
    (),
    TransportError,
>)
    requires
        block@.len() >= 1 || total == 0,
    ensures
        total == 0 ==> r is Ok,
        old(stream).modeled() ==> {
            &&& final(stream).modeled()
            &&& final(stream).incoming() == old(stream).incoming()
            &&& old(stream).sent().is_prefix_of(final(stream).sent())
            &&& r is Ok ==> final(stream).sent() == old(stream).sent() + bulk_of(
                block@,
                total as nat,
            )
            &&& r is Err ==> exists|written: nat|
                written <= total && final(stream).sent() == old(stream).sent()
                    + #[trigger] bulk_of(block@, written)
        },
{
    let mut left: usize = total;
    proof {
        if total > 0 {
            let len = block@.len() as int;
            assert(0int % len == 0) by (nonlinear_arith)
                requires
                    len > 0,
            ;
        }
    }
    while left > 0
        invariant
            left <= total,
            block@.len() >= 1 || total == 0,
            left > 0 ==> (total - left) % (block@.len() as int) == 0,
            old(stream).modeled() ==> {
                &&& stream.modeled()
                &&& stream.incoming() == old(stream).incoming()
                &&& old(stream).sent().is_prefix_of(stream.sent())
                &&& stream.sent() == old(stream).sent() + bulk_of(block@, (total - left) as nat)
            },
        decreases left,
    {
        let piece: usize = if left < block.len() {
            left
        } else {
            block.len()
        };
        let ghost before = stream.sent();
        let front: &[u8] = vstd::slice::slice_subrange(block, 0, piece);
        let written: Result<(), TransportError> = stream.write_all(front);
        if let Err(e) = written {
            proof {
                if old(stream).modeled() {
                    let part = choose|part: int|
                        0 <= part <= front@.len() && stream.sent() == before
                            + #[trigger] front@.take(part);
                    lemma_bulk_of_extend(block@, (total - left) as nat, part as nat);
                    assert(front@.take(part) =~= block@.take(part));
                    assert(stream.sent() == old(stream).sent() + bulk_of(
                        block@,
                        (total - left + part) as nat,
                    ));
                }
            }
            return Err(e);
        }
        proof {
            lemma_bulk_of_extend(block@, (total - left) as nat, piece as nat);
        }
        left = left - piece;
    }
    Ok(())
}

/// Reads exactly `total` bytes of bulk data from `stream` and drops them,
/// in as many reads as the stream takes to deliver them. No read asks for
/// more than is still due, so nothing behind the `total` bytes is touched.
/// A stream that ends before is reported as `PeerClosed`. Where no byte is
/// due, nothing is asked of the stream.
pub fn drain<T: ReadWriteStream>(stream: &mut T, total: usize) -> (r: Result<(), SessionError>)
    ensures
        total == 0 ==> r is Ok,
        r matches Err(e) ==> e is Transport || e is PeerClosed,
        old(stream).modeled() ==> {
            &&& final(stream).modeled()
            &&& final(stream).sent() == old(stream).sent()
            &&& match r {
                Ok(()) => {
                    &&& total <= old(stream).incoming().len()
                    &&& final(stream).incoming() == old(stream).incoming().skip(total as int)
                },
                Err(SessionError::PeerClosed) => {
                    &&& old(stream).incoming().len() < total
                    &&& final(stream).incoming().len() == 0
                },
                Err(_) => true,
            }
        },
{
    let mut buf: Vec<u8> = vec![0u8; if total < BUF_SIZE { total } else { BUF_SIZE }];
    let mut left: usize = total;
    while left > 0
        invariant
            left <= total,
            left > 0 ==> 1 <= buf@.len() <= left,
            old(stream).modeled() ==> {
                &&& stream.modeled()
                &&& stream.sent() == old(stream).sent()
                &&& total - left <= old(stream).incoming().len()
                &&& stream.incoming() == old(stream).incoming().skip(total - left)
            },
        decreases left,
    {
        let n: usize = match stream.read(buf.as_mut_slice()) {
            Ok(n) => n,
            Err(e) => {
                return Err(SessionError::Transport(e));
            },
        };
        if n == 0 {
            return Err(SessionError::PeerClosed);
        }
        left = left - n;
        if left < buf.len() {
            buf.truncate(left);
        }
    }
    Ok(())
}

} // verus!
