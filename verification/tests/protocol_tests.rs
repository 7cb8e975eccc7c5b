use nrf52820_s140_firmware::modem_core::protocol::{calculate_crc16, validate_crc16};

fn create_test_data(size: usize, pattern: u8) -> Vec<u8> {
    (0..size).map(|i| pattern.wrapping_add(i as u8)).collect()
}

#[test]
fn protocol_tests_test_crc16_calculation() {
    let data = b"Hello, World!";
    let crc = calculate_crc16(data);
    assert_ne!(crc, 0);
    let crc2 = calculate_crc16(data);
    assert_eq!(crc, crc2);
    let crc3 = calculate_crc16(b"Hello, World?");
    assert_ne!(crc, crc3);
}

#[test]
fn protocol_tests_test_crc16_validation() {
    let data = b"Test message";
    let crc = calculate_crc16(data);
    assert!(validate_crc16(data, crc));
    assert!(!validate_crc16(data, crc + 1));
    assert!(!validate_crc16(data, 0));
}

#[test]
fn test_empty_data_crc() {
    let empty_data = b"";
    let crc = calculate_crc16(empty_data);
    assert!(validate_crc16(empty_data, crc));
}

#[test]
fn test_known_crc_values() {
    let test_cases = [
        (b"123456789" as &[u8], "known test vector"),
        (b"\x00\x01\x02\x03\x04" as &[u8], "sequential bytes"),
        (b"\xFF\xFF\xFF\xFF" as &[u8], "all ones"),
        (b"A" as &[u8], "single character"),
    ];
    for (data, _description) in &test_cases {
        let crc = calculate_crc16(data);
        assert!(validate_crc16(data, crc));
        assert!(!validate_crc16(data, crc ^ 0x1234));
    }
}

#[test]
fn test_crc16_boundary_conditions() {
    let max_data = create_test_data(200, 0xAA);
    let crc1 = calculate_crc16(&max_data);
    assert!(validate_crc16(&max_data, crc1));
    let pattern2 = create_test_data(200, 0x55);
    let crc2 = calculate_crc16(&pattern2);
    assert_ne!(crc1, crc2);
}

#[test]
fn crc_check_value_is_the_ibm_sdlc_one() {
    // CRC-16/IBM-SDLC (X.25) check value over "123456789".
    assert_eq!(calculate_crc16(b"123456789"), 0x906E);
    assert_eq!(calculate_crc16(b""), 0x0000);
}
