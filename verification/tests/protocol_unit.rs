use nrf52820_s140_firmware::modem_core::protocol::serialization::PayloadReader;
use nrf52820_s140_firmware::modem_core::protocol::{
    calculate_crc16, validate_crc16, Packet, ProtocolError, RequestCode, ResponseCode,
};

#[test]
fn protocol_unit_test_crc16_calculation() {
    let data = b"Hello, World!";
    let crc = calculate_crc16(data);
    assert_ne!(crc, 0);
    let crc2 = calculate_crc16(data);
    assert_eq!(crc, crc2);
    let crc3 = calculate_crc16(b"Hello, World?");
    assert_ne!(crc, crc3);
}

#[test]
fn protocol_unit_test_crc16_validation() {
    let data = b"Test message";
    let crc = calculate_crc16(data);
    assert!(validate_crc16(data, crc));
    assert!(!validate_crc16(data, crc + 1));
    assert!(!validate_crc16(data, 0));
}

#[test]
fn test_response_packet_serialization() {
    let payload = b"test data";
    let packet = Packet::new_response(ResponseCode::Ack, payload).unwrap();
    let serialized = packet.serialize().unwrap();
    let serialized = serialized.as_slice();

    let expected_length = 2 + 2 + payload.len() + 2;
    assert_eq!(serialized.len(), expected_length);

    let length = u16::from_be_bytes([serialized[0], serialized[1]]);
    assert_eq!(length as usize, expected_length);

    let code = u16::from_be_bytes([serialized[2], serialized[3]]);
    assert_eq!(code, ResponseCode::Ack.to_u16());

    let payload_bytes = &serialized[4..4 + payload.len()];
    assert_eq!(payload_bytes, payload);

    let crc_offset = serialized.len() - 2;
    let message_without_crc = &serialized[..crc_offset];
    let received_crc = u16::from_be_bytes([serialized[crc_offset], serialized[crc_offset + 1]]);
    assert!(validate_crc16(message_without_crc, received_crc));
}

fn request_frame(payload: &[u8], code: u16, length_field: Option<u16>) -> Vec<u8> {
    let mut message = Vec::new();
    let total_length = 2 + payload.len() + 2 + 2;
    message.extend_from_slice(&length_field.unwrap_or(total_length as u16).to_be_bytes());
    message.extend_from_slice(payload);
    message.extend_from_slice(&code.to_be_bytes());
    let crc = calculate_crc16(&message);
    message.extend_from_slice(&crc.to_be_bytes());
    message
}

#[test]
fn test_request_packet_parsing() {
    let payload = b"test";
    let request_code = RequestCode::GetInfo.to_u16();
    let message = request_frame(payload, request_code, None);

    let packet = Packet::new_request(&message).unwrap();
    assert_eq!(packet.code, request_code);
    assert_eq!(packet.payload.as_slice(), payload);
    assert_eq!(packet.request_code(), Some(RequestCode::GetInfo));
}

#[test]
fn test_request_packet_crc_validation() {
    let payload = b"test";
    let request_code = RequestCode::GetInfo.to_u16();
    let message = request_frame(payload, request_code, None);
    assert!(Packet::new_request(&message).is_ok());

    let mut corrupted = message.clone();
    let crc_offset = corrupted.len() - 2;
    corrupted[crc_offset] ^= 0xFF;
    match Packet::new_request(&corrupted) {
        Err(ProtocolError::InvalidCrc) => (),
        other => panic!("Expected InvalidCrc error, got: {:?}", other),
    }
}

#[test]
fn short_or_mislabelled_frames_are_invalid_length() {
    let short_packet = [0x00, 0x04, 0x01, 0x02];
    match Packet::new_request(&short_packet) {
        Err(ProtocolError::InvalidLength) => (),
        other => panic!("Expected InvalidLength error, got: {:?}", other),
    }
    // a 10-byte frame whose length field says 12
    let message = request_frame(b"test", RequestCode::GetInfo.to_u16(), Some(12));
    assert_eq!(message.len(), 10);
    match Packet::new_request(&message) {
        Err(ProtocolError::InvalidLength) => (),
        other => panic!("Expected InvalidLength error, got: {:?}", other),
    }
}

#[test]
fn test_request_for_sending() {
    let payload = b"echo test";
    let packet = Packet::new_request_for_sending(RequestCode::GetInfo, payload).unwrap();
    assert_eq!(packet.code, RequestCode::GetInfo.to_u16());
    assert_eq!(packet.payload.as_slice(), payload);

    let serialized = packet.serialize_request().unwrap();
    let parsed = Packet::new_request(serialized.as_slice()).unwrap();
    assert_eq!(parsed.code, RequestCode::GetInfo.to_u16());
    assert_eq!(parsed.payload.as_slice(), payload);
}

#[test]
fn test_empty_payload() {
    let packet = Packet::new_response(ResponseCode::Ack, &[]).unwrap();
    let serialized = packet.serialize().unwrap();
    assert_eq!(serialized.len(), 6);
    let s = serialized.as_slice();
    let length = u16::from_be_bytes([s[0], s[1]]);
    assert_eq!(length, 6);
}

#[test]
fn test_max_payload_size() {
    let max_payload = vec![0xAA; 243];
    let packet = Packet::new_response(ResponseCode::Ack, &max_payload).unwrap();
    let serialized = packet.serialize().unwrap();
    assert_eq!(serialized.len(), 249);
}

#[test]
fn oversized_response_does_not_serialize() {
    let payload = vec![0x11; 244];
    let packet = Packet::new_response(ResponseCode::Ack, &payload).unwrap();
    assert_eq!(packet.serialize().unwrap_err(), ProtocolError::BufferFull);
    let too_big = vec![0u8; 250];
    assert_eq!(
        Packet::new_response(ResponseCode::Ack, &too_big).unwrap_err(),
        ProtocolError::BufferFull
    );
}

#[test]
fn request_codes_round_trip() {
    for value in 0u16..=0x00FF {
        if let Some(code) = RequestCode::from_u16(value) {
            assert_eq!(code.to_u16(), value);
        }
    }
    assert_eq!(RequestCode::from_u16(0x0003), Some(RequestCode::Echo));
    assert_eq!(RequestCode::from_u16(0x00A5), Some(RequestCode::GattcWrite));
    assert_eq!(RequestCode::from_u16(0x1111), None);
}

#[test]
fn response_code_of_a_packet() {
    let ack = Packet::new_response(ResponseCode::Ack, &[]).unwrap();
    assert_eq!(ack.response_code(), Some(ResponseCode::Ack));
    let err = Packet::new_response(ResponseCode::Error, &[]).unwrap();
    assert_eq!(err.response_code(), Some(ResponseCode::Error));
    let other = Packet::new_request_for_sending(RequestCode::Echo, &[]).unwrap();
    assert_eq!(other.response_code(), None);
    let ev = Packet::new_response(ResponseCode::BleEvent, &[]).unwrap();
    assert_eq!(ev.response_code(), Some(ResponseCode::BleEvent));
}

#[test]
fn decode_request_checks_the_given_crc() {
    // [len 0x0007][payload 0xAA][code 0x0003][crc 0x1234]
    let frame = [0x00u8, 0x07, 0xAA, 0x00, 0x03, 0x12, 0x34];
    let packet = Packet::decode_request(&frame, 0x1234).unwrap();
    assert_eq!(packet.code, 0x0003);
    assert_eq!(packet.payload.as_slice(), &[0xAA]);
    assert!(matches!(Packet::decode_request(&frame, 0x1235), Err(ProtocolError::InvalidCrc)));
    assert!(matches!(Packet::decode_request(&frame[..6], 0x1234), Err(ProtocolError::InvalidLength)));
}

#[test]
fn reader_position_is_the_total_of_successful_reads() {
    let data = [0x01u8, 0x02, 0x03, 0x04, 0x05, 0x06, 0x07];
    let mut r = PayloadReader::new(&data);
    assert_eq!((r.offset(), r.remaining()), (0, 7));
    assert_eq!(r.read_u8(), Ok(0x01));
    assert_eq!(r.read_u16(), Ok(0x0203));
    assert_eq!(r.read_slice(5), Err(ProtocolError::InvalidData));
    assert_eq!((r.offset(), r.remaining()), (3, 4));
    assert_eq!(r.read_u32(), Ok(0x04050607));
    assert_eq!(r.read_u8(), Err(ProtocolError::InvalidData));
    // successful reads: 1 + 2 + 4 bytes
    assert_eq!((r.offset(), r.remaining()), (7, 0));
}
