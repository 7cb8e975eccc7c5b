use nrf52820_s140_firmware::ble::registry::{
    insert_uuid_offset, BleUuid, GattRegistry, RegistryError, SdUuid, ServiceType, UuidType,
};
use nrf52820_s140_firmware::modem_core::memory::{get_stats, TxPacket, TxQueue, TX_POOL_SIZE};
use nrf52820_s140_firmware::modem_core::protocol::{Packet, ProtocolError, RequestCode};
use nrf52820_s140_firmware::modem_core::transport::{process_rx_transfer, RxOutcome};

#[test]
fn uuids_parse_from_payload() {
    assert_eq!(BleUuid::from_payload(0, &[0x0D, 0x18]), Ok(BleUuid::Uuid16(0x180D)));
    let long: Vec<u8> = (0..16).collect();
    match BleUuid::from_payload(1, &long) {
        Ok(BleUuid::Uuid128(a)) => assert_eq!(a.to_vec(), long),
        other => panic!("unexpected {:?}", other),
    }
    assert_eq!(
        BleUuid::from_payload(2, &[1, 0x34, 0x12]),
        Ok(BleUuid::VendorSpecific { base_id: 1, offset: 0x1234 })
    );
    assert_eq!(BleUuid::from_payload(0, &[1]), Err(RegistryError::InvalidUuidType));
    assert_eq!(BleUuid::from_payload(3, &[1, 2, 3]), Err(RegistryError::InvalidUuidType));
    assert_eq!(BleUuid::Uuid128([0; 16]).to_compact(), (UuidType::Uuid128.to_u8(), 0));
}

#[test]
fn vendor_uuids_resolve_through_registered_bases() {
    let mut registry = GattRegistry::new();
    let vendor = BleUuid::VendorSpecific { base_id: 0, offset: 0xBEEF };
    assert_eq!(vendor.to_softdevice_uuid(&registry), None);
    let base = [0x11; 16];
    assert_eq!(registry.register_uuid_base(base), Ok(0));
    let expected = insert_uuid_offset(&base, 0xBEEF);
    assert_eq!(expected[12], 0xEF);
    assert_eq!(expected[13], 0xBE);
    assert_eq!(vendor.to_softdevice_uuid(&registry), Some(SdUuid::Uuid128(expected)));
    assert_eq!(BleUuid::Uuid16(5).to_softdevice_uuid(&registry), Some(SdUuid::Uuid16(5)));
    for _ in 0..3 {
        registry.register_uuid_base(base).unwrap();
    }
    assert_eq!(registry.register_uuid_base(base), Err(RegistryError::UuidBasesFull));
    assert_eq!(registry.get_uuid_base(3), Some(&base));
    assert_eq!(registry.get_uuid_base(4), None);
}

#[test]
fn registry_lookup_and_limits() {
    let mut registry = GattRegistry::new();
    for h in 1..=8u16 {
        registry.add_service(h, BleUuid::Uuid16(h), ServiceType::Primary).unwrap();
    }
    assert_eq!(registry.add_service(9, BleUuid::Uuid16(9), ServiceType::Secondary), Err(RegistryError::ServicesFull));
    assert_eq!(registry.find_service(4).unwrap().uuid_data, 4);
    assert!(registry.find_service(9).is_none());
    registry.add_characteristic(1, 0x10, 0x11, 0, BleUuid::Uuid16(0x2A00), 0x12, 20, 1).unwrap();
    registry.add_characteristic(1, 0x20, 0, 0, BleUuid::Uuid16(0x2A01), 0x02, 20, 1).unwrap();
    assert_eq!(registry.find_characteristic_by_cccd_handle(0x11).unwrap().value_handle, 0x10);
    assert!(registry.find_characteristic_by_cccd_handle(0).is_none());
    assert_eq!(registry.find_characteristic_by_value_handle(0x20).unwrap().uuid_data, 0x2A01);
    assert_eq!(registry.stats(), (8, 2, 0));
    assert_eq!(registry.services().len(), 8);
    assert_eq!(registry.characteristics()[1].value_handle, 0x20);
    registry.clear();
    assert_eq!(registry.stats(), (0, 0, 0));
}

#[test]
fn tx_queue_is_fifo_and_bounded() {
    let mut queue = TxQueue::new();
    assert!(queue.is_empty());
    for i in 0..TX_POOL_SIZE {
        queue.enqueue(TxPacket::new(&[i as u8]).unwrap()).unwrap();
    }
    assert!(queue.is_full());
    for i in 0..TX_POOL_SIZE {
        assert_eq!(queue.dequeue().unwrap().as_slice(), &[i as u8]);
    }
    assert!(queue.dequeue().is_none());
    let stats = get_stats();
    assert_eq!(stats.tx_available, TX_POOL_SIZE);
}

#[test]
fn receive_path_decisions() {
    let packet = Packet::new_request_for_sending(RequestCode::Echo, b"hi").unwrap();
    let frame = packet.serialize_request().unwrap();
    let mut buf = [0u8; 249];
    buf[..frame.len()].copy_from_slice(frame.as_slice());
    assert!(matches!(process_rx_transfer(&buf, 0), RxOutcome::Empty));
    match process_rx_transfer(&buf, frame.len()) {
        RxOutcome::Command(p) => {
            assert_eq!(p.code, 0x0003);
            assert_eq!(p.payload.as_slice(), b"hi");
        }
        other => panic!("unexpected {:?}", other),
    }
    assert!(matches!(process_rx_transfer(&buf, frame.len() - 1), RxOutcome::Invalid(ProtocolError::InvalidLength)));
    buf[frame.len() - 1] ^= 1;
    assert!(matches!(process_rx_transfer(&buf, frame.len()), RxOutcome::Invalid(ProtocolError::InvalidCrc)));
}
