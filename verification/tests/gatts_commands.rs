use nrf52820_s140_firmware::ble::registry::GattRegistry;
use nrf52820_s140_firmware::commands::gatts::{
    handle_characteristic_add, handle_hvx, handle_mtu_reply, handle_service_add, handle_sys_attr_set,
};
use nrf52820_s140_firmware::commands::{CommandError, ResponseBuilder};
use nrf52820_s140_firmware::modem_core::protocol::ProtocolError;

fn ack(payload: &[u8]) -> Vec<u8> {
    let mut b = ResponseBuilder::new();
    b.add_slice(payload).unwrap();
    b.build(nrf52820_s140_firmware::modem_core::protocol::ResponseCode::Ack)
        .unwrap()
        .as_slice()
        .to_vec()
}

fn invalid() -> Vec<u8> {
    ResponseBuilder::build_error(CommandError::InvalidPayload).unwrap().as_slice().to_vec()
}

#[test]
fn service_add_registers_handle_one() {
    let mut registry = GattRegistry::new();
    let reply = handle_service_add(&[0, 0x0D, 0x18, 1], &mut registry).unwrap();
    assert_eq!(reply.as_slice(), &ack(&[0x00, 0x01])[..]);
    let s = registry.find_service(1).unwrap();
    assert_eq!(s.uuid_type, 0);
    assert_eq!(s.uuid_data, 0x180D);
    assert_eq!(s.service_type, 1);
}

#[test]
fn service_add_rejects_malformed_payloads() {
    let mut registry = GattRegistry::new();
    for payload in [&[0u8, 1, 2][..], &[3, 0, 0, 1], &[0, 1, 2, 3], &[1, 0, 0, 0], &[2, 0, 1, 0]] {
        let reply = handle_service_add(payload, &mut registry).unwrap();
        assert_eq!(reply.as_slice(), &invalid()[..], "payload {:?}", payload);
    }
    // vendor UUID whose base 0 is not registered
    let reply = handle_service_add(&[2, 0, 0x34, 0x12, 2], &mut registry).unwrap();
    assert_eq!(reply.as_slice(), &invalid()[..]);
    assert_eq!(registry.stats().0, 0);
    registry.register_uuid_base([0x11; 16]).unwrap();
    let reply = handle_service_add(&[2, 0, 0x34, 0x12, 2], &mut registry).unwrap();
    assert_eq!(reply.as_slice(), &ack(&[0x00, 0x01])[..]);
    assert_eq!(registry.find_service(1).unwrap().uuid_data, 0x1234);
    assert_eq!(registry.find_service(1).unwrap().service_type, 2);
}

#[test]
fn service_add_when_registry_full() {
    let mut registry = GattRegistry::new();
    for _ in 0..8 {
        handle_service_add(&[0, 1, 0, 1], &mut registry).unwrap();
    }
    let reply = handle_service_add(&[0, 1, 0, 1], &mut registry).unwrap();
    assert_eq!(&reply.as_slice()[..6], &[0x00, 0x08, 0xAC, 0x51, 0x00, 0x05]);
}

#[test]
fn characteristic_add_answers_with_handles() {
    let mut registry = GattRegistry::new();
    handle_service_add(&[0, 0x0D, 0x18, 1], &mut registry).unwrap();
    // service 0x0001, 16-bit UUID 0x2A37, notify, max len 20, 1-byte value, permissions 3
    let payload = [0x00, 0x01, 0, 0x37, 0x2A, 0x10, 0x00, 0x14, 1, 0x55, 3];
    let reply = handle_characteristic_add(&payload, &mut registry).unwrap();
    assert_eq!(reply.as_slice(), &ack(&[0x00, 0x10, 0x00, 0x11, 0x00, 0x00])[..]);
    let c = registry.find_characteristic_by_value_handle(0x10).unwrap();
    assert_eq!(c.uuid_data, 0x2A37);
    assert_eq!(c.max_len, 20);
    assert_eq!(c.permissions, 3);
    assert_eq!(c.cccd_handle, 0x11);

    // read-only: no CCCD; permissions default to 0
    let payload = [0x00, 0x01, 0, 0x38, 0x2A, 0x02, 0x00, 0x08, 0];
    let reply = handle_characteristic_add(&payload, &mut registry).unwrap();
    assert_eq!(reply.as_slice(), &ack(&[0x00, 0x10, 0x00, 0x00, 0x00, 0x00])[..]);
    assert_eq!(registry.characteristics()[1].permissions, 0);
}

#[test]
fn characteristic_add_errors() {
    let mut registry = GattRegistry::new();
    // unknown service
    let payload = [0x00, 0x01, 0, 0x37, 0x2A, 0x10, 0x00, 0x14, 0];
    assert_eq!(handle_characteristic_add(&payload, &mut registry).unwrap().as_slice(), &invalid()[..]);
    handle_service_add(&[0, 0x0D, 0x18, 1], &mut registry).unwrap();
    // bad UUID type
    let payload = [0x00, 0x01, 7, 0x37, 0x2A, 0x10, 0x00, 0x14, 0];
    assert_eq!(handle_characteristic_add(&payload, &mut registry).unwrap().as_slice(), &invalid()[..]);
    // truncated fixed fields
    let payload = [0x00, 0x01, 0, 0x37, 0x2A, 0x10, 0x00, 0x14];
    assert!(matches!(
        handle_characteristic_add(&payload, &mut registry),
        Err(CommandError::ProtocolError(ProtocolError::InvalidData))
    ));
    // initial value longer than the payload
    let payload = [0x00, 0x01, 0, 0x37, 0x2A, 0x10, 0x00, 0x14, 5, 1];
    assert_eq!(handle_characteristic_add(&payload, &mut registry).unwrap().as_slice(), &invalid()[..]);
    assert_eq!(registry.stats().1, 0);
}

#[test]
fn hvx_mtu_and_sys_attr() {
    let ok = ack(&[]);
    assert_eq!(handle_hvx(&[0, 1, 0, 2, 1, 0, 2, 9, 9]).unwrap().as_slice(), &ok[..]);
    assert_eq!(handle_hvx(&[0, 1, 0, 2, 2, 0, 0]).unwrap().as_slice(), &ok[..]);
    assert_eq!(handle_hvx(&[0, 1, 0, 2, 3, 0, 0]).unwrap().as_slice(), &invalid()[..]);
    assert_eq!(handle_hvx(&[0, 1, 0, 2, 1, 0, 3, 9]).unwrap().as_slice(), &invalid()[..]);
    assert_eq!(handle_hvx(&[0, 1]).unwrap().as_slice(), &invalid()[..]);
    assert_eq!(handle_mtu_reply(&[0, 1, 0, 247]).unwrap().as_slice(), &ok[..]);
    assert_eq!(handle_mtu_reply(&[0, 1, 0]).unwrap().as_slice(), &invalid()[..]);
    assert_eq!(handle_sys_attr_set(&[0, 1, 0, 2, 7, 7]).unwrap().as_slice(), &ok[..]);
    assert_eq!(handle_sys_attr_set(&[0, 1, 0, 3, 7, 7]).unwrap().as_slice(), &invalid()[..]);
}
