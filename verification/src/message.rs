//! The message set of the negotiation protocol and its encoding as the
//! payload of a frame: one tag byte, then the fields of the variant at
//! fixed width, least significant byte first.

use crate::frame::SerializedDataContainer;
use crate::wire::get_le;
use crate::wire::put_le;
use vstd::prelude::*;

verus! {

/// The version of the protocol.
pub type ProtocolVer = u64;

/// The version that this build speaks.
pub const PROTOCOL_VER: ProtocolVer = 0x0000_0000_0000_0001;

/// Tag of `NsptNegProtocol::ClientHello`.
pub const TAG_CLIENT_HELLO: u8 = 0;

/// Tag of `NsptNegProtocol::ServerHello`.
pub const TAG_SERVER_HELLO: u8 = 1;

/// Tag of `NsptNegProtocol::SpeedNegotiation`.
pub const TAG_SPEED_NEGOTIATION: u8 = 2;

/// Tag of `NsptNegProtocol::StartSpeedNegotiation`.
pub const TAG_START_SPEED_NEGOTIATION: u8 = 3;

/// Tag of `NsptNegProtocol::NotifyBufferSize`.
pub const TAG_NOTIFY_BUFFER_SIZE: u8 = 4;

/// Tag of `NsptNegProtocol::StartSpeedTest`.
pub const TAG_START_SPEED_TEST: u8 = 5;

/// Tag of `NsptNegProtocol::EndOfSpeedTest`.
pub const TAG_END_OF_SPEED_TEST: u8 = 6;

/// Tag of `NsptNegProtocol::EndOfTransfer`.
pub const TAG_END_OF_TRANSFER: u8 = 7;

/// The messages that initiator and responder exchange, in the order of a
/// session.
#[derive(Debug, Clone, Copy, PartialEq, Eq, Structural)]
pub enum NsptNegProtocol {
    /// The initiator announces its protocol version.
    ClientHello(ProtocolVer),
    /// The responder announces its protocol version.
    ServerHello(ProtocolVer),
    /// The initiator says whether a calibration transfer follows.
    SpeedNegotiation(bool),
    /// Either side is ready for the calibration transfer.
    StartSpeedNegotiation,
    /// The initiator fixes the size of a transfer unit and the number of
    /// rounds.
    NotifyBufferSize(usize, u16),
    /// The responder is ready for the timed rounds.
    StartSpeedTest,
    /// The responder acknowledges the end of the session.
    EndOfSpeedTest,
    /// The initiator has sent all rounds.
    EndOfTransfer,
}

/// Why a payload is no message.
#[derive(Debug, Clone, Copy, PartialEq, Eq, Structural)]
pub enum MessageError {
    /// The payload is empty or starts with a tag that no variant has.
    UnknownMessage,
    /// The tag is known, but what follows it is not the fields of that
    /// variant.
    MalformedMessage,
}

/// The payload that carries `message`.
pub open spec fn message_bytes(message: NsptNegProtocol) -> Seq<u8> {
    match message {
        NsptNegProtocol::ClientHello(version) => seq![TAG_CLIENT_HELLO] + crate::wire::le_bytes(
            version as nat,
            8,
        ),
        NsptNegProtocol::ServerHello(version) => seq![TAG_SERVER_HELLO] + crate::wire::le_bytes(
            version as nat,
            8,
        ),
        NsptNegProtocol::SpeedNegotiation(required) => seq![
            TAG_SPEED_NEGOTIATION,
            if required { 1u8 } else { 0u8 },
        ],
        NsptNegProtocol::StartSpeedNegotiation => seq![TAG_START_SPEED_NEGOTIATION],
        NsptNegProtocol::NotifyBufferSize(unit_size, rounds) => seq![TAG_NOTIFY_BUFFER_SIZE]
            + crate::wire::le_bytes(unit_size as nat, 8) + crate::wire::le_bytes(rounds as nat, 2),
        NsptNegProtocol::StartSpeedTest => seq![TAG_START_SPEED_TEST],
        NsptNegProtocol::EndOfSpeedTest => seq![TAG_END_OF_SPEED_TEST],
        NsptNegProtocol::EndOfTransfer => seq![TAG_END_OF_TRANSFER],
    }
}

/// The message that `payload` carries, or why it carries none.
pub open spec fn parse_message(payload: Seq<u8>) -> Result<NsptNegProtocol, MessageError> {
    if payload.len() == 0 || payload[0] > TAG_END_OF_TRANSFER {
        Err(MessageError::UnknownMessage)
    } else {
        let tag = payload[0];
        let fields = payload.skip(1);
        if tag == TAG_CLIENT_HELLO {
            if fields.len() == 8 {
                Ok(NsptNegProtocol::ClientHello(crate::wire::le_value(fields) as u64))
            } else {
                Err(MessageError::MalformedMessage)
            }
        } else if tag == TAG_SERVER_HELLO {
            if fields.len() == 8 {
                Ok(NsptNegProtocol::ServerHello(crate::wire::le_value(fields) as u64))
            } else {
                Err(MessageError::MalformedMessage)
            }
        } else if tag == TAG_SPEED_NEGOTIATION {
            if fields.len() == 1 && fields[0] <= 1 {
                Ok(NsptNegProtocol::SpeedNegotiation(fields[0] == 1))
            } else {
                Err(MessageError::MalformedMessage)
            }
        } else if tag == TAG_NOTIFY_BUFFER_SIZE {
            if fields.len() == 10 && crate::wire::le_value(fields.subrange(0, 8)) <= usize::MAX {
                Ok(
                    NsptNegProtocol::NotifyBufferSize(
                        crate::wire::le_value(fields.subrange(0, 8)) as usize,
                        crate::wire::le_value(fields.subrange(8, 10)) as u16,
                    ),
                )
            } else {
                Err(MessageError::MalformedMessage)
            }
        } else if fields.len() == 0 {
            Ok(
                if tag == TAG_START_SPEED_NEGOTIATION {
                    NsptNegProtocol::StartSpeedNegotiation
                } else if tag == TAG_START_SPEED_TEST {
                    NsptNegProtocol::StartSpeedTest
                } else if tag == TAG_END_OF_SPEED_TEST {
                    NsptNegProtocol::EndOfSpeedTest
                } else {
                    NsptNegProtocol::EndOfTransfer
                },
            )
        } else {
            Err(MessageError::MalformedMessage)
        }
    }
}

/// No payload of a message is longer than eleven bytes.
pub proof fn lemma_message_bytes_len(message: NsptNegProtocol)
    ensures
        1 <= message_bytes(message).len() <= 11,
{
    match message {
        NsptNegProtocol::ClientHello(version) => {
            crate::wire::lemma_le_bytes_len(version as nat, 8);
        },
        NsptNegProtocol::ServerHello(version) => {
            crate::wire::lemma_le_bytes_len(version as nat, 8);
        },
        NsptNegProtocol::NotifyBufferSize(unit_size, rounds) => {
            crate::wire::lemma_le_bytes_len(unit_size as nat, 8);
            crate::wire::lemma_le_bytes_len(rounds as nat, 2);
        },
        _ => {},
    }
}

/// Decoding undoes encoding: every message is read back from its payload,
/// whatever its variant and the values of its fields.
pub proof fn lemma_message_round_trip(message: NsptNegProtocol)
    ensures
        parse_message(message_bytes(message)) == Ok::<NsptNegProtocol, MessageError>(message),
{
    let payload = message_bytes(message);
    let fields = payload.skip(1);
    crate::wire::lemma_radix_pow_values();
    match message {
        NsptNegProtocol::ClientHello(version) => {
            crate::wire::lemma_le_bytes_len(version as nat, 8);
            crate::wire::lemma_le_value_of_bytes(version as nat, 8);
            assert(fields =~= crate::wire::le_bytes(version as nat, 8));
        },
        NsptNegProtocol::ServerHello(version) => {
            crate::wire::lemma_le_bytes_len(version as nat, 8);
            crate::wire::lemma_le_value_of_bytes(version as nat, 8);
            assert(fields =~= crate::wire::le_bytes(version as nat, 8));
        },
        NsptNegProtocol::NotifyBufferSize(unit_size, rounds) => {
            crate::wire::lemma_le_bytes_len(unit_size as nat, 8);
            crate::wire::lemma_le_bytes_len(rounds as nat, 2);
            crate::wire::lemma_le_value_of_bytes(unit_size as nat, 8);
            crate::wire::lemma_le_value_of_bytes(rounds as nat, 2);
            assert(fields.subrange(0, 8) =~= crate::wire::le_bytes(unit_size as nat, 8));
            assert(fields.subrange(8, 10) =~= crate::wire::le_bytes(rounds as nat, 2));
        },
        _ => {},
    }
}

/// Every message has one payload only: a payload that decodes is the
/// encoding of the message it decodes to.
pub proof fn lemma_message_encoding_unique(payload: Seq<u8>)
    requires
        parse_message(payload) is Ok,
    ensures
        message_bytes(parse_message(payload)->Ok_0) == payload,
{
    let fields = payload.skip(1);
    let tag = payload[0];
    if tag == TAG_CLIENT_HELLO || tag == TAG_SERVER_HELLO {
        crate::wire::lemma_le_value_bound(fields);
        crate::wire::lemma_radix_pow_values();
        crate::wire::lemma_le_bytes_of_value(fields);
    } else if tag == TAG_NOTIFY_BUFFER_SIZE {
        let size_field = fields.subrange(0, 8);
        let rounds_field = fields.subrange(8, 10);
        crate::wire::lemma_le_value_bound(rounds_field);
        crate::wire::lemma_radix_pow_values();
        crate::wire::lemma_le_bytes_of_value(size_field);
        crate::wire::lemma_le_bytes_of_value(rounds_field);
    }
}

/// Encodes `message` as the payload of a frame.
pub fn encode_message(message: &NsptNegProtocol) -> (payload: Vec<u8>)
    ensures
        payload@ == message_bytes(*message),
{
    let mut payload: Vec<u8> = Vec::new();
    match *message {
        NsptNegProtocol::ClientHello(version) => {
            payload.push(TAG_CLIENT_HELLO);
            put_le(&mut payload, version, 8);
        },
        NsptNegProtocol::ServerHello(version) => {
            payload.push(TAG_SERVER_HELLO);
            put_le(&mut payload, version, 8);
        },
        NsptNegProtocol::SpeedNegotiation(required) => {
            payload.push(TAG_SPEED_NEGOTIATION);
            payload.push(if required { 1u8 } else { 0u8 });
        },
        NsptNegProtocol::StartSpeedNegotiation => {
            payload.push(TAG_START_SPEED_NEGOTIATION);
        },
        NsptNegProtocol::NotifyBufferSize(unit_size, rounds) => {
            payload.push(TAG_NOTIFY_BUFFER_SIZE);
            put_le(&mut payload, unit_size as u64, 8);
            put_le(&mut payload, rounds as u64, 2);
        },
        NsptNegProtocol::StartSpeedTest => {
            payload.push(TAG_START_SPEED_TEST);
        },
        NsptNegProtocol::EndOfSpeedTest => {
            payload.push(TAG_END_OF_SPEED_TEST);
        },
        NsptNegProtocol::EndOfTransfer => {
            payload.push(TAG_END_OF_TRANSFER);
        },
    }
    payload
}

/// Decodes the message that `payload` carries. An empty payload and an
/// unknown tag are reported as `UnknownMessage`; fields of the wrong length,
/// a flag that is neither 0 nor 1 and a unit size that this machine cannot
/// hold as `MalformedMessage`.
pub fn decode_message(payload: &[u8]) -> (r: Result<NsptNegProtocol, MessageError>)
    ensures
        r == parse_message(payload@),
{
    if payload.len() == 0 {
        return Err(MessageError::UnknownMessage);
    }
    let tag: u8 = payload[0];
    let fields_len: usize = payload.len() - 1;
    let ghost fields = payload@.skip(1);
    if tag == TAG_CLIENT_HELLO || tag == TAG_SERVER_HELLO {
        if fields_len != 8 {
            return Err(MessageError::MalformedMessage);
        }
        let version: u64 = get_le(payload, 1, 8);
        if tag == TAG_CLIENT_HELLO {
            Ok(NsptNegProtocol::ClientHello(version))
        } else {
            Ok(NsptNegProtocol::ServerHello(version))
        }
    } else if tag == TAG_SPEED_NEGOTIATION {
        if fields_len != 1 || payload[1] > 1 {
            return Err(MessageError::MalformedMessage);
        }
        Ok(NsptNegProtocol::SpeedNegotiation(payload[1] == 1))
    } else if tag == TAG_NOTIFY_BUFFER_SIZE {
        if fields_len != 10 {
            return Err(MessageError::MalformedMessage);
        }
        let unit_size: u64 = get_le(payload, 1, 8);
        let rounds: u64 = get_le(payload, 9, 2);
        proof {
            assert(payload@.subrange(1, 9) =~= fields.subrange(0, 8));
            assert(payload@.subrange(9, 11) =~= fields.subrange(8, 10));
        }
        if unit_size > usize::MAX as u64 {
            return Err(MessageError::MalformedMessage);
        }
        Ok(NsptNegProtocol::NotifyBufferSize(unit_size as usize, rounds as u16))
    } else if tag > TAG_END_OF_TRANSFER {
        Err(MessageError::UnknownMessage)
    } else if fields_len != 0 {
        Err(MessageError::MalformedMessage)
    } else if tag == TAG_START_SPEED_NEGOTIATION {
        Ok(NsptNegProtocol::StartSpeedNegotiation)
    } else if tag == TAG_START_SPEED_TEST {
        Ok(NsptNegProtocol::StartSpeedTest)
    } else if tag == TAG_END_OF_SPEED_TEST {
        Ok(NsptNegProtocol::EndOfSpeedTest)
    } else {
        Ok(NsptNegProtocol::EndOfTransfer)
    }
}

impl SerializedDataContainer {
    /// The container whose payload carries `t`.
    pub fn from_serializable_data(t: &NsptNegProtocol) -> (r: Option<Self>)
        ensures
            r matches Some(container) && container@ == message_bytes(*t),
    {
        let payload: Vec<u8> = encode_message(t);
        Some(SerializedDataContainer::new(payload.as_slice()))
    }

    /// The message that the payload carries, if it carries one.
    pub fn to_serializable_data(&self) -> (r: Option<NsptNegProtocol>)
        ensures
            match parse_message(self@) {
                Ok(message) => r == Some(message),
                Err(_) => r is None,
            },
    {
        match decode_message(self.data()) {
            Ok(message) => Some(message),
            Err(_) => None,
        }
    }
}

} // verus!
