//! What the two roles of a session have in common: the actions that a
//! session asks its driver to perform, the events with which the driver
//! answers, and the ways in which a session fails.
//!
//! A session never touches a stream. It is a state machine: it names the
//! next action, the driver performs it and reports the outcome as an event,
//! and the session moves on.

use crate::frame::FrameError;
use crate::message::MessageError;
use crate::message::NsptNegProtocol;
use crate::message::ProtocolVer;
use crate::transport::TransportError;
use vstd::prelude::*;

verus! {

/// Number of bytes of the calibration transfer (24 MiB).
pub const TOTAL_SEND_NEG_BYTES: usize = 1024 * 1024 * 24;

/// The variants of `NsptNegProtocol`, without their fields.
#[derive(Debug, Clone, Copy, PartialEq, Eq, Structural)]
pub enum MessageKind {
    ClientHello,
    ServerHello,
    SpeedNegotiation,
    StartSpeedNegotiation,
    NotifyBufferSize,
    StartSpeedTest,
    EndOfSpeedTest,
    EndOfTransfer,
}

/// What a session asks its driver to do next.
#[derive(Debug, Clone, Copy, PartialEq, Eq, Structural)]
pub enum Action {
    /// Read one message from the control handle.
    Receive,
    /// Write this message to the control handle.
    Send(NsptNegProtocol),
    /// Move this many bytes of bulk data over the data handle: the
    /// initiator writes them and takes the time, the responder drains them.
    Transfer(usize),
    /// The session has come to its regular end.
    Finish,
    /// The session has failed.
    Abort(Fault),
}

/// What the driver reports back.
#[derive(Debug, Clone, Copy, PartialEq, Eq, Structural)]
pub enum Event {
    /// The message that a `Receive` yielded.
    Received(NsptNegProtocol),
    /// The message of a `Send` is written.
    Sent,
    /// The bytes of a `Transfer` are moved; writing them took this long.
    Transferred { elapsed_ms: u64 },
}

/// A failure that the session itself detects.
#[derive(Debug, Clone, Copy, PartialEq, Eq, Structural)]
pub enum Fault {
    /// The peer sent another message than the one that the protocol has at
    /// this point.
    ProtocolViolation { expected: MessageKind, received: NsptNegProtocol },
    /// The peer speaks another version of the protocol.
    VersionMismatch { ours: ProtocolVer, theirs: ProtocolVer },
    /// The driver reported an event that does not answer the pending
    /// action.
    OutOfTurn,
}

/// One timed round: the bytes written and the milliseconds it took.
#[derive(Debug, Clone, Copy, PartialEq, Eq, Structural)]
pub struct Sample {
    pub bytes: usize,
    pub elapsed_ms: u64,
}

/// Why a driven session ended early.
#[derive(Debug)]
pub enum SessionError {
    /// The session detected a failure.
    Fault(Fault),
    /// A stream failed.
    Transport(TransportError),
    /// No frame could be read from the control handle.
    Frame(FrameError),
    /// A frame arrived whose payload is no message.
    Malformed(MessageError),
    /// The peer closed the connection while bulk data was still due.
    PeerClosed,
}

/// Whether `error` is a failure of the stream itself.
pub open spec fn transport_failed(error: SessionError) -> bool {
    match error {
        SessionError::Transport(e) => true,
        SessionError::Frame(FrameError::Transport(e)) => true,
        _ => false,
    }
}

/// Whether `r` reports a failure of the stream itself.
pub open spec fn stream_failed<T>(r: Result<T, SessionError>) -> bool {
    r matches Err(e) && transport_failed(e)
}

/// The variant of `message`.
pub open spec fn kind_of(message: NsptNegProtocol) -> MessageKind {
    match message {
        NsptNegProtocol::ClientHello(_) => MessageKind::ClientHello,
        NsptNegProtocol::ServerHello(_) => MessageKind::ServerHello,
        NsptNegProtocol::SpeedNegotiation(_) => MessageKind::SpeedNegotiation,
        NsptNegProtocol::StartSpeedNegotiation => MessageKind::StartSpeedNegotiation,
        NsptNegProtocol::NotifyBufferSize(_, _) => MessageKind::NotifyBufferSize,
        NsptNegProtocol::StartSpeedTest => MessageKind::StartSpeedTest,
        NsptNegProtocol::EndOfSpeedTest => MessageKind::EndOfSpeedTest,
        NsptNegProtocol::EndOfTransfer => MessageKind::EndOfTransfer,
    }
}

/// The bulk data of a whole session, in bytes: the rounds, and the
/// calibration volume where the session has a calibration transfer.
pub open spec fn bulk_volume(calibrated: bool, unit_size: usize, rounds: u16) -> nat {
    (rounds * unit_size + if calibrated {
        TOTAL_SEND_NEG_BYTES as int
    } else {
        0
    }) as nat
}

/// Whether `event` is the outcome of `action`.
pub open spec fn answers(action: Action, event: Event) -> bool {
    match (action, event) {
        (Action::Receive, Event::Received(message)) => true,
        (Action::Send(message), Event::Sent) => true,
        (Action::Transfer(bytes), Event::Transferred { elapsed_ms }) => true,
        _ => false,
    }
}

/// The milliseconds that a round counts for: those that were measured, and
/// one where the round was too fast to be timed.
pub open spec fn spec_timed_ms(sample: Sample) -> u64 {
    if sample.elapsed_ms == 0 {
        1
    } else {
        sample.elapsed_ms
    }
}

/// The milliseconds that a round counts for when its speed is worked out:
/// those that were measured, and one where the round was too fast to be
/// timed. No speed is ever a division by zero.
pub fn timed_ms(sample: &Sample) -> (ms: u64)
    ensures
        ms == spec_timed_ms(*sample),
        ms >= 1,
{
    if sample.elapsed_ms == 0 {
        1
    } else {
        sample.elapsed_ms
    }
}

/// The throughput, in bytes per second, of a transfer that moved `bytes`
/// bytes in `elapsed_ms` milliseconds. A transfer too fast to be timed
/// counts as one millisecond long.
pub open spec fn spec_bytes_per_second(bytes: nat, elapsed_ms: nat) -> nat {
    if elapsed_ms == 0 {
        bytes * 1000
    } else {
        (bytes * 1000) / elapsed_ms
    }
}

/// The throughput of a transfer in bytes per second, rounded down; a
/// throughput beyond `u64::MAX` is reported as `u64::MAX`.
pub fn bytes_per_second(bytes: usize, elapsed_ms: u64) -> (rate: u64)
    ensures
        rate == if spec_bytes_per_second(bytes as nat, elapsed_ms as nat) <= u64::MAX {
            spec_bytes_per_second(bytes as nat, elapsed_ms as nat)
        } else {
            u64::MAX as nat
        },
{
    let scaled: u128 = bytes as u128 * 1000;
    let rate: u128 = if elapsed_ms == 0 {
        scaled
    } else {
        scaled / elapsed_ms as u128
    };
    if rate <= u64::MAX as u128 {
        rate as u64
    } else {
        u64::MAX
    }
}

} // verus!
