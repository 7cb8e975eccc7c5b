use nrf52820_s140_firmware::modem_core::memory::{BufferError, RxBuffer, TxPacket};
use nrf52820_s140_firmware::modem_core::protocol::{Packet, RequestCode};

fn sample(len: usize, seed: u8) -> Vec<u8> {
    (0..len).map(|i| seed.wrapping_mul(31).wrapping_add(i as u8)).collect()
}

#[test]
fn spi_tests_1_test_rx_buffer_operations() {
    let mut rx_buf = RxBuffer::new();
    assert!(rx_buf.is_empty());
    assert_eq!(rx_buf.len(), 0);

    let test_data = b"hello world";
    let buf_slice = rx_buf.as_mut_slice();
    buf_slice[..test_data.len()].copy_from_slice(test_data);
    rx_buf.set_len(test_data.len()).unwrap();

    assert!(!rx_buf.is_empty());
    assert_eq!(rx_buf.len(), test_data.len());
    assert_eq!(rx_buf.as_slice(), test_data);

    rx_buf.clear();
    assert!(rx_buf.is_empty());
    assert_eq!(rx_buf.len(), 0);
}

#[test]
fn spi_tests_1_test_empty_packet() {
    let packet = TxPacket::new(b"");
    assert!(packet.is_ok());
    let packet = packet.unwrap();
    assert_eq!(packet.len(), 0);
    assert!(packet.is_empty());
}

#[test]
fn test_buffer_size_boundaries() {
    for len in [0usize, 1, 100, 248, 249, 250, 299] {
        let data = sample(len, len as u8);
        let result = TxPacket::new(&data);
        if data.len() <= 249 {
            assert!(result.is_ok());
            let packet = result.unwrap();
            assert_eq!(packet.len(), data.len());
            assert_eq!(packet.as_slice(), &data[..]);
        } else {
            assert!(matches!(result, Err(BufferError::BufferTooSmall)));
        }
    }
}

#[test]
fn test_buffer_data_integrity() {
    for len in [0usize, 1, 7, 128, 248] {
        let data = sample(len, 3);
        let packet = TxPacket::new(&data);
        assert!(packet.is_ok());
        let packet = packet.unwrap();
        assert_eq!(packet.len(), data.len());
        assert_eq!(packet.as_slice(), &data[..]);
        assert_eq!(packet.is_empty(), data.is_empty());
    }
}

#[test]
fn test_rx_buffer_length_validation() {
    for len in [0usize, 1, 200, 249, 250, 399] {
        let mut rx_buf = RxBuffer::new();
        let result = rx_buf.set_len(len);
        if len <= 249 {
            assert!(result.is_ok());
            assert_eq!(rx_buf.len(), len);
            assert_eq!(rx_buf.is_empty(), len == 0);
        } else {
            assert!(matches!(result, Err(BufferError::InvalidSize)));
        }
    }
}

#[test]
fn test_packet_serialization_roundtrip() {
    let codes = [
        RequestCode::GetInfo,
        RequestCode::GapAdvStart,
        RequestCode::GapAdvStop,
        RequestCode::GapGetAddr,
        RequestCode::GapSetAddr,
    ];
    for (i, request_code) in codes.iter().enumerate() {
        for len in [0usize, 1, 50, 199] {
            let payload = sample(len, i as u8);
            let packet = Packet::new_request_for_sending(*request_code, &payload);
            assert!(packet.is_ok());
            let packet = packet.unwrap();
            assert_eq!(packet.code, request_code.to_u16());
            assert_eq!(packet.payload.as_slice(), &payload[..]);

            let serialized = packet.serialize_request();
            assert!(serialized.is_ok());
            let wire_data = serialized.unwrap();
            let parsed = Packet::new_request(wire_data.as_slice());
            assert!(parsed.is_ok());
            let parsed_packet = parsed.unwrap();
            assert_eq!(parsed_packet.code, request_code.to_u16());
            assert_eq!(parsed_packet.payload.as_slice(), &payload[..]);
        }
    }
}

#[test]
fn test_request_code_preservation() {
    let codes = [
        RequestCode::GetInfo,
        RequestCode::Echo,
        RequestCode::Shutdown,
        RequestCode::Reboot,
        RequestCode::RegisterUuidGroup,
        RequestCode::GapGetAddr,
        RequestCode::GapSetAddr,
        RequestCode::GapAdvStart,
        RequestCode::GapAdvStop,
        RequestCode::GapAdvSetConfigure,
        RequestCode::GapGetName,
        RequestCode::GapSetName,
    ];
    for request_code in codes {
        let payload: [u8; 0] = [];
        let packet = Packet::new_request_for_sending(request_code, &payload);
        assert!(packet.is_ok());
        let packet = packet.unwrap();
        assert_eq!(packet.code, request_code.to_u16());
        if let Ok(wire_data) = packet.serialize_request() {
            if let Ok(parsed) = Packet::new_request(wire_data.as_slice()) {
                assert_eq!(parsed.code, request_code.to_u16());
            }
        }
    }
}
