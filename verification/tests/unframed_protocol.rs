use nrf52820_s140_firmware::protocol::{Packet, ProtocolError, RequestCode, ResponseCode};
use nrf52820_s140_firmware::spi_comm::{process_rx_transfer, RxOutcome, SpiError};
use nrf52820_s140_firmware::modem_core::memory::BufferError;

#[test]
fn request_is_payload_then_code() {
    let packet = Packet::new_request(&[1, 2, 3, 0x00, 0x11]).unwrap();
    assert_eq!(packet.code, 0x0011);
    assert_eq!(packet.payload.as_slice(), &[1, 2, 3]);
    assert_eq!(packet.request_code(), Some(RequestCode::GapGetAddr));
    assert!(matches!(Packet::new_request(&[1]), Err(ProtocolError::InvalidLength)));
    assert!(matches!(Packet::new_request(&[0u8; 252]), Err(ProtocolError::BufferFull)));
    // the unframed protocol has no echo command
    assert_eq!(RequestCode::from_u16(0x0003), None);
}

#[test]
fn response_is_code_then_payload() {
    let packet = Packet::new_response(ResponseCode::Ack, &[7, 8]).unwrap();
    assert_eq!(packet.serialize().unwrap().as_slice(), &[0xAC, 0x50, 7, 8]);
    assert_eq!(packet.response_code(), Some(ResponseCode::Ack));
    assert_eq!(ResponseCode::SocEvent.to_u16(), 0x8002);
    let big = Packet::new_response(ResponseCode::BleEvent, &[0u8; 248]).unwrap();
    assert!(matches!(big.serialize(), Err(ProtocolError::BufferFull)));
}

#[test]
fn receive_decisions() {
    let buf = [9u8, 0x00, 0x01, 0, 0];
    assert!(matches!(process_rx_transfer(&buf, 0), RxOutcome::Empty));
    assert!(matches!(process_rx_transfer(&buf, 1), RxOutcome::Invalid(ProtocolError::InvalidLength)));
    match process_rx_transfer(&buf, 3) {
        RxOutcome::Command(p) => {
            assert_eq!(p.code, 0x0001);
            assert_eq!(p.payload.as_slice(), &[9]);
        }
        other => panic!("unexpected {:?}", other),
    }
    let e: SpiError = BufferError::PoolExhausted.into();
    assert_eq!(e, SpiError::BufferError(BufferError::PoolExhausted));
    let p: SpiError = ProtocolError::InvalidCode.into();
    assert_eq!(p, SpiError::ProtocolError(ProtocolError::InvalidCode));
}
