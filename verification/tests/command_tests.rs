use nrf52820_s140_firmware::ble::gap_state::GapState;
use nrf52820_s140_firmware::ble::gatt_state::ModemState;
use nrf52820_s140_firmware::ble::registry::GattRegistry;
use nrf52820_s140_firmware::commands::{
    packet_to_send, process_command, CommandError, CommandProcessor, CommandStep, ResponseBuilder,
    SdRequest,
};
use nrf52820_s140_firmware::advertising::AdvCommand;
use nrf52820_s140_firmware::modem_core::protocol::{Packet, RequestCode, ResponseCode};

#[test]
fn command_tests_test_get_info_command() {
    let _payload: &[u8] = &[];
    let get_info_code = RequestCode::GetInfo.to_u16();
    assert_eq!(get_info_code, 0x0001);
}

#[test]
fn test_echo_command() {
    let echo_code = RequestCode::Echo.to_u16();
    assert_eq!(echo_code, 0x0003);
}

#[test]
fn test_response_builder() {
    let mut builder = ResponseBuilder::new();
    builder.add_u8(0x42).unwrap();
    builder.add_u16(0x1234).unwrap();
    builder.add_u32(0xDEADBEEF).unwrap();

    let packet = builder.build(ResponseCode::Ack).unwrap();
    let data = packet.as_slice();
    assert!(data.len() > 0);
}

#[test]
fn test_error_responses() {
    let error_packet = ResponseBuilder::build_error(CommandError::InvalidPayload).unwrap();
    let data = error_packet.as_slice();
    assert!(data.len() > 0);

    let error_code_packet = ResponseBuilder::build_error_code(0x1234).unwrap();
    let data2 = error_code_packet.as_slice();
    assert!(data2.len() > 0);
}

#[test]
fn test_packet_creation() {
    let test_payload = b"Hello World";
    let packet = Packet::new_response(ResponseCode::Ack, test_payload).unwrap();
    assert_eq!(packet.payload.as_slice(), test_payload);
    assert_eq!(packet.code, ResponseCode::Ack.to_u16());
}

#[test]
fn test_uuid_register_command() {
    let uuid_code = RequestCode::RegisterUuidGroup.to_u16();
    assert_eq!(uuid_code, 0x0010);
}

#[test]
fn test_invalid_command_handling() {
    let invalid_codes = [0xFFFF, 0x9999, 0x5555, 0x1111];
    for &invalid_code in &invalid_codes {
        let valid_codes = [
            RequestCode::GetInfo.to_u16(),
            RequestCode::Echo.to_u16(),
            RequestCode::Shutdown.to_u16(),
            RequestCode::Reboot.to_u16(),
            RequestCode::RegisterUuidGroup.to_u16(),
            RequestCode::GapGetAddr.to_u16(),
            RequestCode::GapSetAddr.to_u16(),
            RequestCode::GapAdvStart.to_u16(),
            RequestCode::GapAdvStop.to_u16(),
            RequestCode::GapAdvSetConfigure.to_u16(),
            RequestCode::GapGetName.to_u16(),
            RequestCode::GapSetName.to_u16(),
        ];
        assert!(
            !valid_codes.contains(&invalid_code),
            "Invalid code 0x{:04X} should not match any valid RequestCode",
            invalid_code
        );
    }
    for &valid_code in &[
        RequestCode::GetInfo.to_u16(),
        RequestCode::Echo.to_u16(),
        RequestCode::Shutdown.to_u16(),
        RequestCode::Reboot.to_u16(),
    ] {
        let packet = Packet::new_request_for_sending(RequestCode::from_u16(valid_code).unwrap(), &[]);
        assert!(
            packet.is_ok(),
            "Valid code 0x{:04X} should create packet successfully",
            valid_code
        );
    }
}

fn run(code: RequestCode, payload: &[u8]) -> (CommandStep, GapState, GattRegistry, ModemState) {
    let packet = Packet::new_request_for_sending(code, payload).unwrap();
    let mut gap = GapState::default();
    let mut registry = GattRegistry::new();
    let mut state = ModemState::new();
    let step = process_command(&packet, &mut gap, &mut registry, &mut state);
    (step, gap, registry, state)
}

fn reply_bytes(step: CommandStep) -> Vec<u8> {
    match step {
        CommandStep::Reply(Ok(p)) => p.as_slice().to_vec(),
        other => panic!("expected a reply, got {:?}", other),
    }
}

#[test]
fn get_info_answers_with_firmware_version() {
    let (step, ..) = run(RequestCode::GetInfo, &[]);
    let bytes = reply_bytes(step);
    assert_eq!(&bytes[..8], &[0x00, 0x0A, 0xAC, 0x50, 0x00, 0x01, 0x00, 0x00]);
}

#[test]
fn echo_answers_with_payload() {
    let (step, ..) = run(RequestCode::Echo, b"ping");
    let bytes = reply_bytes(step);
    assert_eq!(&bytes[..8], &[0x00, 0x0A, 0xAC, 0x50, b'p', b'i', b'n', b'g']);
}

#[test]
fn unknown_code_gives_unknown_command() {
    let mut packet = Packet::new_request_for_sending(RequestCode::GetInfo, &[]).unwrap();
    packet.code = 0x1111;
    let mut gap = GapState::default();
    let mut registry = GattRegistry::new();
    let mut state = ModemState::new();
    let step = process_command(&packet, &mut gap, &mut registry, &mut state);
    assert!(matches!(step, CommandStep::Reply(Err(CommandError::UnknownCommand))));
    let mut processor = CommandProcessor::new();
    let step2 = processor.process_command(&packet, &mut gap, &mut registry, &mut state);
    assert!(matches!(step2, CommandStep::Reply(Err(CommandError::UnknownCommand))));
}

#[test]
fn central_commands_are_not_implemented() {
    for code in [RequestCode::GapScanStart, RequestCode::GattcRead, RequestCode::GattsSysAttrGet] {
        let (step, ..) = run(code, &[]);
        let bytes = reply_bytes(step);
        // Error response, code 0x0007
        assert_eq!(&bytes[..6], &[0x00, 0x08, 0xAC, 0x51, 0x00, 0x07]);
    }
}

#[test]
fn gap_commands_name_their_softdevice_call() {
    let (step, ..) = run(RequestCode::GapAdvStart, &[3, 1]);
    assert!(matches!(
        step,
        CommandStep::Call(SdRequest::Advertising(AdvCommand::Start { handle: 3, conn_cfg_tag: 1 }))
    ));
    let (step, ..) = run(RequestCode::GapGetAddr, &[]);
    assert!(matches!(step, CommandStep::Call(SdRequest::GetAddress)));
    let (step, ..) = run(RequestCode::GapDisconnect, &[0x34, 0x12, 0x13]);
    assert!(matches!(
        step,
        CommandStep::Call(SdRequest::Disconnect { conn_handle: 0x1234, reason: 0x13 })
    ));
}

#[test]
fn get_name_from_gap_state() {
    let (step, ..) = run(RequestCode::GapGetName, &[1]);
    let bytes = reply_bytes(step);
    let mut expected = vec![0x00, 0x15, 0xAC, 0x50, 0, 0, 0, 0, 0x00, 0x09];
    expected.extend_from_slice(b"BLE_Modem");
    assert_eq!(&bytes[..expected.len()], &expected[..]);
}

#[test]
fn register_uuid_through_dispatcher() {
    let (step, _gap, _registry, state) = run(RequestCode::RegisterUuidGroup, &[0x5A; 16]);
    let bytes = reply_bytes(step);
    assert_eq!(&bytes[..5], &[0x00, 0x07, 0xAC, 0x50, 0x00]);
    assert_eq!(state.get_uuid_base(0).unwrap().base, [0x5A; 16]);
}

#[test]
fn errors_are_sent_as_unknown_command() {
    let sent = packet_to_send(Err(CommandError::SoftDeviceError)).unwrap();
    assert_eq!(&sent.as_slice()[..6], &[0x00, 0x08, 0xAC, 0x51, 0x00, 0x01]);
    let ok = ResponseBuilder::build_ack().unwrap();
    let bytes = ok.as_slice().to_vec();
    assert_eq!(packet_to_send(Ok(ok)).unwrap().as_slice(), &bytes[..]);
}

#[test]
fn add_string_appends_utf8_bytes() {
    let mut builder = ResponseBuilder::new();
    builder.add_string("héllo").unwrap();
    let packet = builder.build(ResponseCode::Ack).unwrap();
    assert_eq!(&packet.as_slice()[4..10], "héllo".as_bytes());
    let mut full = ResponseBuilder::new();
    assert!(full.add_slice(&[0u8; 249]).is_ok());
    assert!(full.add_u8(1).is_err());
}
