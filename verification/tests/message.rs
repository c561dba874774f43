use nspt::frame::SerializedDataContainer;
use nspt::message::decode_message;
use nspt::message::encode_message;
use nspt::message::MessageError;
use nspt::message::NsptNegProtocol;
use nspt::message::PROTOCOL_VER;

fn every_variant() -> Vec<NsptNegProtocol> {
    vec![
        NsptNegProtocol::ClientHello(0),
        NsptNegProtocol::ClientHello(PROTOCOL_VER),
        NsptNegProtocol::ClientHello(u64::MAX),
        NsptNegProtocol::ServerHello(0),
        NsptNegProtocol::ServerHello(PROTOCOL_VER),
        NsptNegProtocol::ServerHello(u64::MAX),
        NsptNegProtocol::SpeedNegotiation(true),
        NsptNegProtocol::SpeedNegotiation(false),
        NsptNegProtocol::StartSpeedNegotiation,
        NsptNegProtocol::NotifyBufferSize(0, 0),
        NsptNegProtocol::NotifyBufferSize(65_536, 3),
        NsptNegProtocol::NotifyBufferSize(usize::MAX, u16::MAX),
        NsptNegProtocol::StartSpeedTest,
        NsptNegProtocol::EndOfSpeedTest,
        NsptNegProtocol::EndOfTransfer,
    ]
}

#[test]
fn protocol_version_is_one() {
    assert_eq!(PROTOCOL_VER, 1);
}

#[test]
fn every_message_round_trips() {
    for message in every_variant() {
        let payload = encode_message(&message);
        assert_eq!(decode_message(&payload), Ok(message));
    }
}

#[test]
fn every_message_round_trips_through_a_container() {
    for message in every_variant() {
        let container = SerializedDataContainer::from_serializable_data(&message).unwrap();
        assert_eq!(container.to_serializable_data(), Some(message));
        let framed = container.to_one_vec();
        let back = SerializedDataContainer::from_one_vec(framed).unwrap();
        assert_eq!(back.to_serializable_data(), Some(message));
    }
}

#[test]
fn encodings_are_tag_and_fixed_width_fields() {
    assert_eq!(
        encode_message(&NsptNegProtocol::ClientHello(1)),
        vec![0, 1, 0, 0, 0, 0, 0, 0, 0]
    );
    assert_eq!(
        encode_message(&NsptNegProtocol::ServerHello(u64::MAX)),
        vec![1, 255, 255, 255, 255, 255, 255, 255, 255]
    );
    assert_eq!(encode_message(&NsptNegProtocol::SpeedNegotiation(true)), vec![2, 1]);
    assert_eq!(encode_message(&NsptNegProtocol::SpeedNegotiation(false)), vec![2, 0]);
    assert_eq!(encode_message(&NsptNegProtocol::StartSpeedNegotiation), vec![3]);
    assert_eq!(
        encode_message(&NsptNegProtocol::NotifyBufferSize(65_536, 3)),
        vec![4, 0, 0, 1, 0, 0, 0, 0, 0, 3, 0]
    );
    assert_eq!(encode_message(&NsptNegProtocol::StartSpeedTest), vec![5]);
    assert_eq!(encode_message(&NsptNegProtocol::EndOfSpeedTest), vec![6]);
    assert_eq!(encode_message(&NsptNegProtocol::EndOfTransfer), vec![7]);
}

#[test]
fn empty_payload_is_unknown() {
    assert_eq!(decode_message(&[]), Err(MessageError::UnknownMessage));
}

#[test]
fn unknown_tag_is_unknown() {
    assert_eq!(decode_message(&[8]), Err(MessageError::UnknownMessage));
    assert_eq!(decode_message(&[255, 0, 0]), Err(MessageError::UnknownMessage));
}

#[test]
fn fields_of_wrong_length_are_malformed() {
    assert_eq!(decode_message(&[0]), Err(MessageError::MalformedMessage));
    assert_eq!(decode_message(&[0, 1, 0, 0, 0, 0, 0, 0]), Err(MessageError::MalformedMessage));
    assert_eq!(
        decode_message(&[1, 1, 0, 0, 0, 0, 0, 0, 0, 0]),
        Err(MessageError::MalformedMessage)
    );
    assert_eq!(decode_message(&[2]), Err(MessageError::MalformedMessage));
    assert_eq!(decode_message(&[3, 0]), Err(MessageError::MalformedMessage));
    assert_eq!(
        decode_message(&[4, 0, 0, 1, 0, 0, 0, 0, 0, 3]),
        Err(MessageError::MalformedMessage)
    );
    assert_eq!(decode_message(&[5, 5]), Err(MessageError::MalformedMessage));
    assert_eq!(decode_message(&[6, 0]), Err(MessageError::MalformedMessage));
    assert_eq!(decode_message(&[7, 0, 0]), Err(MessageError::MalformedMessage));
}

#[test]
fn flag_that_is_no_flag_is_malformed() {
    assert_eq!(decode_message(&[2, 2]), Err(MessageError::MalformedMessage));
    assert_eq!(decode_message(&[2, 255]), Err(MessageError::MalformedMessage));
}

#[test]
fn container_of_no_message_yields_nothing() {
    assert_eq!(SerializedDataContainer::new(&[]).to_serializable_data(), None);
    assert_eq!(SerializedDataContainer::new(&[9, 9]).to_serializable_data(), None);
    assert_eq!(SerializedDataContainer::new(&[2, 7]).to_serializable_data(), None);
}
