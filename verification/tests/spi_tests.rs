use nrf52820_s140_firmware::modem_core::memory::{BufferError, RxBuffer, TxPacket};
use nrf52820_s140_firmware::modem_core::protocol::{Packet, RequestCode};

#[test]
fn test_buffer_allocation() {
    let data = b"test data";
    let packet = TxPacket::new(data);
    assert!(packet.is_ok());
    let packet = packet.unwrap();
    assert_eq!(packet.len(), data.len());
    assert_eq!(packet.as_slice(), data);
    assert!(!packet.is_empty());
}

#[test]
fn test_buffer_too_large() {
    let large_data = [0xFF; 250];
    let result = TxPacket::new(&large_data);
    match result {
        Err(BufferError::BufferTooSmall) => {}
        _ => panic!("Expected BufferTooSmall error"),
    }
}

#[test]
fn spi_tests_test_rx_buffer_operations() {
    let mut rx_buf = RxBuffer::new();
    assert!(rx_buf.is_empty());
    assert_eq!(rx_buf.len(), 0);

    let test_data = b"hello world";
    let buf_slice = rx_buf.as_mut_slice();
    buf_slice[..test_data.len()].copy_from_slice(test_data);
    rx_buf.set_len(test_data.len()).unwrap();

    assert!(!rx_buf.is_empty());
    assert_eq!(rx_buf.len(), test_data.len());
    assert_eq!(rx_buf.as_slice(), test_data);

    rx_buf.clear();
    assert!(rx_buf.is_empty());
    assert_eq!(rx_buf.len(), 0);
}

#[test]
fn test_rx_buffer_invalid_length() {
    let mut rx_buf = RxBuffer::new();
    let result = rx_buf.set_len(300);
    match result {
        Err(BufferError::InvalidSize) => {}
        _ => panic!("Expected InvalidSize error"),
    }
}

#[test]
fn spi_tests_test_empty_packet() {
    let empty_data = b"";
    let packet = TxPacket::new(empty_data);
    assert!(packet.is_ok());
    let packet = packet.unwrap();
    assert_eq!(packet.len(), 0);
    assert!(packet.is_empty());
}

#[test]
fn test_buffer_patterns() {
    let patterns: [(&[u8], &str); 5] = [
        (b"A", "single byte"),
        (b"Hello, World!", "text data"),
        (&[0x00, 0x01, 0x02, 0x03, 0x04], "sequential bytes"),
        (&[0xFF; 10], "all ones"),
        (&[0x00; 10], "all zeros"),
    ];
    for (data, _description) in &patterns {
        let packet = TxPacket::new(data).unwrap();
        assert_eq!(packet.len(), data.len());
        assert_eq!(packet.as_slice(), *data);
    }
}

#[test]
fn test_command_processing_gap_commands() {
    let mut rx_buf = RxBuffer::new();
    let adv_start_cmd = [0x01, 0x10, 0x00, 0x04, 0x00, 0x01, 0x00, 0x00, 0x00];
    let buf_slice = rx_buf.as_mut_slice();
    buf_slice[..adv_start_cmd.len()].copy_from_slice(&adv_start_cmd);
    rx_buf.set_len(adv_start_cmd.len()).unwrap();

    let payload = [0x01, 0x00];
    let packet = Packet::new_request_for_sending(RequestCode::GapAdvStart, &payload);
    assert!(packet.is_ok());
    let packet = packet.unwrap();
    assert_eq!(packet.code, RequestCode::GapAdvStart.to_u16());
    assert_eq!(packet.payload.as_slice(), &payload);

    let serialized = packet.serialize_request();
    assert!(serialized.is_ok());
    let wire_data = serialized.unwrap();

    match Packet::new_request(wire_data.as_slice()) {
        Ok(parsed_packet) => {
            assert_eq!(parsed_packet.code, RequestCode::GapAdvStart.to_u16());
            assert_eq!(parsed_packet.payload.as_slice(), &payload);
        }
        Err(e) => panic!("Failed to parse serialized GAP command: {:?}", e),
    }
}
