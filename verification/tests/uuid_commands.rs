use nrf52820_s140_firmware::ble::gatt_state::{ModemState, StateError};
use nrf52820_s140_firmware::commands::uuid::{
    create_uuid_from_base_and_offset, get_uuid_base_for_softdevice, handle_register_uuid_group,
    uuid_base_to_softdevice_format,
};
use nrf52820_s140_firmware::commands::CommandError;

#[test]
fn test_create_uuid_from_base_and_offset() {
    let base = [
        0x00, 0x63, 0x4C, 0xF7, 0x6F, 0x05, 0x53, 0xB6, 0xFB, 0x47, 0x75, 0x9E, 0x00, 0x00, 0xC8,
        0xC3,
    ];
    let offset = 0x0001;

    let result = create_uuid_from_base_and_offset(&base, offset);

    assert_eq!(result[12], 0x01);
    assert_eq!(result[13], 0x00);

    assert_eq!(result[0], 0x00);
    assert_eq!(result[14], 0xC8);
    assert_eq!(result[15], 0xC3);
}

#[test]
fn offset_is_written_little_endian() {
    let base = [0xEE; 16];
    let result = create_uuid_from_base_and_offset(&base, 0xABCD);
    assert_eq!(result[12], 0xCD);
    assert_eq!(result[13], 0xAB);
    assert_eq!(&result[..12], &base[..12]);
    assert_eq!(&result[14..], &base[14..]);
}

#[test]
fn register_uuid_group_answers_with_handle() {
    let mut state = ModemState::new();
    let base: Vec<u8> = (0u8..16).collect();
    let packet = handle_register_uuid_group(&base, &mut state).unwrap();
    // [len=7][0xAC50][handle 0][crc]
    let bytes = packet.as_slice();
    assert_eq!(&bytes[..5], &[0x00, 0x07, 0xAC, 0x50, 0x00]);
    assert_eq!(state.get_uuid_base(0).unwrap().base.to_vec(), base);
    let second = handle_register_uuid_group(&base, &mut state).unwrap();
    assert_eq!(second.as_slice()[4], 0x01);
}

#[test]
fn register_uuid_group_rejects_wrong_length() {
    let mut state = ModemState::new();
    let packet = handle_register_uuid_group(&[1, 2, 3], &mut state).unwrap();
    // Error response with code 0x0001
    assert_eq!(&packet.as_slice()[..6], &[0x00, 0x08, 0xAC, 0x51, 0x00, 0x01]);
    assert!(state.get_uuid_base(0).is_none());
}

#[test]
fn register_uuid_group_when_full() {
    let mut state = ModemState::new();
    for i in 0..4u8 {
        assert!(state.register_uuid_base([i; 16]).is_ok());
    }
    let result = handle_register_uuid_group(&[9u8; 16], &mut state);
    assert!(matches!(
        result,
        Err(CommandError::StateError(StateError::UuidBasesExhausted))
    ));
}

#[test]
fn softdevice_format_is_the_base() {
    let base = [0x42u8; 16];
    assert_eq!(uuid_base_to_softdevice_format(&base), base);
    let mut state = ModemState::new();
    state.register_uuid_base(base).unwrap();
    assert_eq!(get_uuid_base_for_softdevice(&state, 0), Some(base));
    assert_eq!(get_uuid_base_for_softdevice(&state, 1), None);
}
