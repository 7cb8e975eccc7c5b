use nrf52820_s140_firmware::ble::events::{
    create_cccd_write_event, create_connected_event, create_disconnected_event,
    create_gatts_write_event, event_packet, BleModemEvent,
};
use nrf52820_s140_firmware::collections::AttrBuf;
use nrf52820_s140_firmware::modem_core::protocol::{Packet, ResponseCode};

fn attr(bytes: &[u8]) -> AttrBuf {
    let mut b = AttrBuf::new();
    assert!(b.extend_from_slice(bytes));
    b
}

#[test]
fn test_ble_modem_event_types() {
    let connected_event = BleModemEvent::Connected {
        conn_handle: 1,
        peer_addr: [0x12, 0x34, 0x56, 0x78, 0x9A, 0xBC],
        addr_type: 0,
    };
    match connected_event {
        BleModemEvent::Connected { conn_handle, peer_addr, addr_type } => {
            assert_eq!(conn_handle, 1);
            assert_eq!(peer_addr, [0x12, 0x34, 0x56, 0x78, 0x9A, 0xBC]);
            assert_eq!(addr_type, 0);
        }
        _ => panic!("Should be Connected event"),
    }

    let write_event = BleModemEvent::GattsWrite {
        conn_handle: 1,
        char_handle: 20,
        data: attr(&[0xAA, 0xBB, 0xCC]),
    };
    match write_event {
        BleModemEvent::GattsWrite { conn_handle, char_handle, data } => {
            assert_eq!(conn_handle, 1);
            assert_eq!(char_handle, 20);
            assert_eq!(data.len(), 3);
            assert_eq!(data.as_slice()[0], 0xAA);
            assert_eq!(data.as_slice()[1], 0xBB);
            assert_eq!(data.as_slice()[2], 0xCC);
        }
        _ => panic!("Should be GattsWrite event"),
    }

    let disconnected_event = BleModemEvent::Disconnected { conn_handle: 1, reason: 0x13 };
    match disconnected_event {
        BleModemEvent::Disconnected { conn_handle, reason } => {
            assert_eq!(conn_handle, 1);
            assert_eq!(reason, 0x13);
        }
        _ => panic!("Should be Disconnected event"),
    }

    let cccd_event = BleModemEvent::CccdWrite {
        conn_handle: 1,
        char_handle: 25,
        notifications: true,
        indications: false,
    };
    match cccd_event {
        BleModemEvent::CccdWrite { conn_handle, char_handle, notifications, indications } => {
            assert_eq!(conn_handle, 1);
            assert_eq!(char_handle, 25);
            assert_eq!(notifications, true);
            assert_eq!(indications, false);
        }
        _ => panic!("Should be CccdWrite event"),
    }
}

#[test]
fn test_event_serialization() {
    let connected_event = BleModemEvent::Connected {
        conn_handle: 0x1234,
        peer_addr: [0xAA, 0xBB, 0xCC, 0xDD, 0xEE, 0xFF],
        addr_type: 1,
    };
    let serialized = connected_event.serialize();
    assert!(serialized.is_ok());
    let data = serialized.unwrap();
    let data = data.as_slice();
    assert_eq!(data[0], 0x11);
    assert_eq!(data[1], 0x00);
    assert_eq!(data[2], 0x34);
    assert_eq!(data[3], 0x12);
    assert_eq!(data[4], 1);
    assert_eq!(data[5], 0xAA);
    assert_eq!(data[10], 0xFF);

    let disconnected_event = BleModemEvent::Disconnected { conn_handle: 0x5678, reason: 0x13 };
    let disconnected_data = disconnected_event.serialize().unwrap();
    let disconnected_data = disconnected_data.as_slice();
    assert_eq!(disconnected_data[0], 0x12);
    assert_eq!(disconnected_data[1], 0x00);
    assert_eq!(disconnected_data[2], 0x78);
    assert_eq!(disconnected_data[3], 0x56);
    assert_eq!(disconnected_data[4], 0x13);

    let write_event = BleModemEvent::GattsWrite {
        conn_handle: 0x9ABC,
        char_handle: 0xDEF0,
        data: attr(&[0x01, 0x02, 0x03]),
    };
    let write_serialized = write_event.serialize().unwrap();
    let write_serialized = write_serialized.as_slice();
    assert_eq!(write_serialized[0], 0x50);
    assert_eq!(write_serialized[1], 0x00);
    assert_eq!(write_serialized[2], 0xBC);
    assert_eq!(write_serialized[3], 0x9A);
    assert_eq!(write_serialized[4], 0xF0);
    assert_eq!(write_serialized[5], 0xDE);
    assert_eq!(write_serialized[6], 3);
    assert_eq!(write_serialized[7], 0x01);
    assert_eq!(write_serialized[8], 0x02);
    assert_eq!(write_serialized[9], 0x03);
}

#[test]
fn test_event_creation_helpers() {
    let disc_event = create_disconnected_event(42, 0x16);
    match disc_event {
        BleModemEvent::Disconnected { conn_handle: h, reason: r } => {
            assert_eq!(h, 42);
            assert_eq!(r, 0x16);
        }
        _ => panic!("Should create Disconnected event"),
    }

    let test_data = [0xDE, 0xAD, 0xBE, 0xEF];
    let write_result = create_gatts_write_event(123, 456, &test_data);
    assert!(write_result.is_ok());
    let write_event = write_result.unwrap();
    match &write_event {
        BleModemEvent::GattsWrite { conn_handle: ch, char_handle: chrh, data } => {
            assert_eq!(*ch, 123);
            assert_eq!(*chrh, 456);
            assert_eq!(data.len(), 4);
            assert_eq!(data.as_slice(), &test_data);
        }
        _ => panic!("Should create GattsWrite event"),
    }

    let cccd_event = create_cccd_write_event(789, 321, true, false);
    match cccd_event {
        BleModemEvent::CccdWrite { conn_handle, char_handle, notifications, indications } => {
            assert_eq!(conn_handle, 789);
            assert_eq!(char_handle, 321);
            assert_eq!(notifications, true);
            assert_eq!(indications, false);
        }
        _ => panic!("Should create CccdWrite event"),
    }

    let mut event_queue = Vec::new();
    event_queue.push(disc_event);
    event_queue.push(write_event);
    event_queue.push(cccd_event);
    assert_eq!(event_queue.len(), 3);
    assert!(matches!(event_queue.remove(0), BleModemEvent::Disconnected { .. }), "First event should be Disconnected");
    assert!(matches!(event_queue.remove(0), BleModemEvent::GattsWrite { .. }), "Second event should be GattsWrite");
    assert!(matches!(event_queue.remove(0), BleModemEvent::CccdWrite { .. }), "Third event should be CccdWrite");
    assert!(event_queue.is_empty());
}

#[test]
fn test_event_size_limits() {
    let max_data: Vec<u8> = (0..64).map(|i| i as u8).collect();
    let max_write_event = BleModemEvent::GattsWrite { conn_handle: 1, char_handle: 2, data: attr(&max_data) };
    let serialized_result = max_write_event.serialize();
    assert!(serialized_result.is_ok());
    let serialized = serialized_result.unwrap();
    let serialized = serialized.as_slice();
    assert_eq!(serialized[6], 64);
    assert_eq!(serialized.len(), 7 + 64);
    assert_eq!(serialized[7], 0);
    assert_eq!(serialized[70], 63);

    let large_handle_event = BleModemEvent::GattsRead { conn_handle: 0xFFFE, char_handle: 0xFFFD };
    let large_serialized = large_handle_event.serialize().unwrap();
    let large_serialized = large_serialized.as_slice();
    assert_eq!(large_serialized[0], 0x51);
    assert_eq!(large_serialized[1], 0x00);
    assert_eq!(large_serialized[2], 0xFE);
    assert_eq!(large_serialized[3], 0xFF);
    assert_eq!(large_serialized[4], 0xFD);
    assert_eq!(large_serialized[5], 0xFF);

    let mtu_event = BleModemEvent::MtuExchange { conn_handle: 1, client_mtu: 512, server_mtu: 247 };
    let mtu_serialized = mtu_event.serialize().unwrap();
    let mtu_serialized = mtu_serialized.as_slice();
    assert_eq!(mtu_serialized[4], 0x00);
    assert_eq!(mtu_serialized[5], 0x02);
    assert_eq!(mtu_serialized[6], 0xF7);
    assert_eq!(mtu_serialized[7], 0x00);

    let cccd_both = BleModemEvent::CccdWrite { conn_handle: 1, char_handle: 2, notifications: true, indications: true };
    let cccd_serialized = cccd_both.serialize().unwrap();
    assert_eq!(cccd_serialized.as_slice()[6], 0x03);
}

#[test]
fn test_event_transmission_reliability() {
    let test_events = [
        BleModemEvent::Connected { conn_handle: 0x1234, peer_addr: [0xDE, 0xAD, 0xBE, 0xEF, 0xCA, 0xFE], addr_type: 1 },
        BleModemEvent::Disconnected { conn_handle: 0x1234, reason: 0x13 },
        BleModemEvent::GattsRead { conn_handle: 0x5678, char_handle: 0x9ABC },
        BleModemEvent::MtuExchange { conn_handle: 0xDEF0, client_mtu: 247, server_mtu: 23 },
        BleModemEvent::CccdWrite { conn_handle: 0x1111, char_handle: 0x2222, notifications: false, indications: true },
    ];
    for (i, event) in test_events.iter().enumerate() {
        let serialized = event.serialize();
        assert!(serialized.is_ok(), "Event {} should serialize successfully", i);
        let data = serialized.unwrap();
        let data = data.as_slice();
        assert!(data.len() >= 2, "Event {} should have at least 2-byte header", i);
        assert_eq!(data[1], 0x00, "Event {} second byte should be 0x00", i);
        match event {
            BleModemEvent::Connected { .. } => assert_eq!(data[0], 0x11),
            BleModemEvent::Disconnected { .. } => assert_eq!(data[0], 0x12),
            BleModemEvent::GattsRead { .. } => assert_eq!(data[0], 0x51),
            BleModemEvent::MtuExchange { .. } => assert_eq!(data[0], 0x52),
            BleModemEvent::CccdWrite { .. } => assert_eq!(data[0], 0x53),
            BleModemEvent::GattsWrite { .. } => assert_eq!(data[0], 0x50),
        }
    }
    for &handle in &[0x0000u16, 0x0001, 0xFFFE, 0xFFFF] {
        let event = BleModemEvent::Disconnected { conn_handle: handle, reason: 0x08 };
        let serialized = event.serialize().unwrap();
        let s = serialized.as_slice();
        let reconstructed = ((s[3] as u16) << 8) | (s[2] as u16);
        assert_eq!(reconstructed, handle, "Handle 0x{:04X} not properly serialized", handle);
    }
}

#[test]
fn test_connection_event_integration() {
    let conn_handle = 42;
    let peer_addr = [0x12, 0x34, 0x56, 0x78, 0x9A, 0xBC];
    let connected = BleModemEvent::Connected { conn_handle, peer_addr, addr_type: 1 };
    let serialized = connected.serialize().unwrap();
    let serialized = serialized.as_slice();
    assert_eq!(serialized.len(), 11);
    assert_eq!(serialized[0], 0x11);
    assert_eq!(serialized[1], 0x00);
    assert_eq!(serialized[2], 42);
    assert_eq!(serialized[3], 0);
    assert_eq!(serialized[4], 1);
    for i in 0..6 {
        assert_eq!(serialized[5 + i], peer_addr[i]);
    }

    let disconnected = create_disconnected_event(conn_handle, 0x13);
    match disconnected {
        BleModemEvent::Disconnected { conn_handle: h, reason } => {
            assert_eq!(h, conn_handle);
            assert_eq!(reason, 0x13);
        }
        _ => panic!("Should create disconnected event"),
    }
    let disc_serialized = disconnected.serialize().unwrap();
    let disc_serialized = disc_serialized.as_slice();
    assert_eq!(serialized[2], disc_serialized[2]);
    assert_eq!(serialized[3], disc_serialized[3]);
    assert_ne!(serialized[0], disc_serialized[0]);

    let gatts_write = create_gatts_write_event(conn_handle, 100, &[0xFF, 0xEE, 0xDD, 0xCC]);
    assert!(gatts_write.is_ok());
    let write_serialized = gatts_write.unwrap().serialize().unwrap();
    let write_serialized = write_serialized.as_slice();
    assert_eq!(write_serialized[2], 42);
    assert_eq!(write_serialized[3], 0);
    assert_eq!(write_serialized[0], 0x50);
}

#[test]
fn write_event_refuses_more_than_64_bytes() {
    assert!(create_gatts_write_event(1, 2, &[0u8; 65]).is_err());
    assert!(create_gatts_write_event(1, 2, &[0u8; 64]).is_ok());
}

#[test]
fn connected_event_without_handle_uses_zero() {
    match create_connected_event(None) {
        BleModemEvent::Connected { conn_handle, peer_addr, addr_type } => {
            assert_eq!(conn_handle, 0);
            assert_eq!(peer_addr, [0; 6]);
            assert_eq!(addr_type, 0);
        }
        _ => panic!("expected Connected"),
    }
    assert!(matches!(create_connected_event(Some(7)), BleModemEvent::Connected { conn_handle: 7, .. }));
}

#[test]
fn event_packet_frames_the_event() {
    let event = create_disconnected_event(0x0102, 0x13);
    let packet = event_packet(&event).unwrap();
    let expected = Packet::new_response(ResponseCode::BleEvent, &[0x12, 0x00, 0x02, 0x01, 0x13])
        .unwrap()
        .serialize()
        .unwrap();
    assert_eq!(packet.as_slice(), expected.as_slice());
    assert_eq!(&packet.as_slice()[2..4], &[0x80, 0x01]);
}
