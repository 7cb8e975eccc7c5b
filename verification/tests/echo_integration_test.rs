use nrf52820_s140_firmware::commands::system::{handle_echo, handle_get_info, handle_reboot, handle_shutdown};
use nrf52820_s140_firmware::modem_core::protocol::{Packet, RequestCode, ResponseCode};

#[test]
fn test_echo_command_integration() {
    let echo_data = b"Hello BLE Modem!";
    let response_packet = Packet::new_response(ResponseCode::Ack, echo_data);
    assert!(response_packet.is_ok());
    let expected_packet = response_packet.unwrap();
    let expected_data = expected_packet.serialize();
    assert!(expected_data.is_ok());
    assert!(expected_data.unwrap().len() > echo_data.len());
}

#[test]
fn echo_integration_test_test_get_info_command() {
    let request_packet = Packet::new_request_for_sending(RequestCode::GetInfo, &[]);
    assert!(request_packet.is_ok());
    let packet = request_packet.unwrap();
    assert_eq!(packet.code, RequestCode::GetInfo.to_u16());
    assert_eq!(packet.payload.len(), 0);
}

#[test]
fn test_packet_roundtrip() {
    let test_payload = b"Test payload";
    let request_packet = Packet::new_request_for_sending(RequestCode::Echo, test_payload);
    assert!(request_packet.is_ok());
    let packet = request_packet.unwrap();
    assert_eq!(packet.code, RequestCode::Echo.to_u16());
    assert_eq!(packet.payload.as_slice(), test_payload);

    let serialized = packet.serialize_request();
    assert!(serialized.is_ok());
    let wire_data = serialized.unwrap();

    let parsed_packet = Packet::new_request(wire_data.as_slice());
    assert!(parsed_packet.is_ok());
    let parsed = parsed_packet.unwrap();
    assert_eq!(parsed.code, RequestCode::Echo.to_u16());
    assert_eq!(parsed.payload.as_slice(), test_payload);
}

#[test]
fn test_all_system_commands() {
    let request = Packet::new_request_for_sending(RequestCode::GetInfo, &[]);
    assert!(request.is_ok());
    let payloads: [&[u8]; 4] = [&[][..], b"A", b"Hello World", &[0x00, 0xFF, 0x55, 0xAA]];
    for payload in &payloads {
        let request = Packet::new_request_for_sending(RequestCode::Echo, payload);
        assert!(request.is_ok());
    }
    let request = Packet::new_request_for_sending(RequestCode::Shutdown, &[]);
    assert!(request.is_ok());
    let request = Packet::new_request_for_sending(RequestCode::Reboot, &[]);
    assert!(request.is_ok());
}

#[test]
fn test_echo_large_payload() {
    let large_payload = vec![0x42u8; 200];
    let request = Packet::new_request_for_sending(RequestCode::Echo, &large_payload);
    assert!(request.is_ok());
    let packet = request.unwrap();
    assert_eq!(packet.payload.len(), large_payload.len());
    assert_eq!(packet.payload.as_slice(), &large_payload[..]);
}

#[test]
fn test_protocol_error_handling() {
    let short_data = [0x01, 0x02];
    assert!(Packet::new_request(&short_data).is_err());
    let invalid_length = [0xFF, 0xFF, 0x01, 0x02, 0x03, 0x04];
    assert!(Packet::new_request(&invalid_length).is_err());
    let min_valid = [0x06, 0x00, 0x01, 0x00, 0x00, 0x00];
    assert!(Packet::new_request(&min_valid).is_err());
}

#[test]
fn echo_handler_answers_with_the_same_bytes() {
    let data = b"Hello BLE Modem!";
    let reply = handle_echo(data).unwrap();
    let expected = Packet::new_response(ResponseCode::Ack, data).unwrap().serialize().unwrap();
    assert_eq!(reply.as_slice(), expected.as_slice());
}

#[test]
fn system_handlers_acknowledge() {
    let ack = Packet::new_response(ResponseCode::Ack, &[]).unwrap().serialize().unwrap();
    assert_eq!(handle_shutdown(&[]).unwrap().as_slice(), ack.as_slice());
    assert_eq!(handle_reboot(&[1, 2]).unwrap().as_slice(), ack.as_slice());
    let info = handle_get_info(&[]).unwrap();
    assert_eq!(&info.as_slice()[4..8], &[0x00, 0x01, 0x00, 0x00]);
}
