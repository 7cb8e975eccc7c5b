use nrf52820_s140_firmware::ble::gap_state::{
    AdvState, GapState, CONN_HANDLE_INVALID, FLAG_BONDED, FLAG_CONNECTED, MAX_ADV_DATA_LEN,
    MAX_DEVICE_NAME_LEN,
};

#[test]
fn test_gap_state_size() {
    assert!(
        core::mem::size_of::<GapState>() < 200,
        "GapState too large: {} bytes",
        core::mem::size_of::<GapState>()
    );
}

#[test]
fn test_device_name() {
    let mut state = GapState::default();

    state.set_device_name(b"Test Device");
    assert_eq!(state.device_name(), b"Test Device");
    assert_eq!(state.device_name_len, 11);

    let long_name = b"This is a very long device name that should be truncated";
    state.set_device_name(long_name);
    assert_eq!(state.device_name_len, MAX_DEVICE_NAME_LEN as u8);
    assert_eq!(state.device_name(), &long_name[..MAX_DEVICE_NAME_LEN]);
}

#[test]
fn test_advertising_state() {
    let mut state = GapState::default();

    assert_eq!(state.adv_state(), AdvState::Stopped);

    state.set_adv_state(AdvState::Active);
    assert_eq!(state.adv_state(), AdvState::Active);
}

#[test]
fn test_connection_flags() {
    let mut state = GapState::default();

    assert!(!state.is_connected());

    state.set_connected(true);
    assert!(state.is_connected());
    assert_eq!(state.status_flags & FLAG_CONNECTED, FLAG_CONNECTED);

    state.set_connected(false);
    assert!(!state.is_connected());
    assert_eq!(state.conn_handle, 0xFFFF);
}

#[test]
fn default_state_is_named_ble_modem() {
    let state = GapState::default();
    assert_eq!(state.device_name(), b"BLE_Modem");
    assert_eq!(state.current_mtu, 23);
    assert_eq!(state.conn_handle, CONN_HANDLE_INVALID);
    assert_eq!(state.adv_interval_min, 160);
    assert_eq!(state.adv_interval_max, 320);
    assert_eq!(state.preferred_conn_params.min_conn_interval, 24);
    assert_eq!(state.preferred_conn_params.max_conn_interval, 40);
    assert_eq!(state.preferred_conn_params.slave_latency, 0);
    assert_eq!(state.preferred_conn_params.conn_sup_timeout, 400);
}

#[test]
fn name_is_zero_padded_after_a_shorter_name() {
    let mut state = GapState::new();
    state.set_device_name(b"ABCDEFGH");
    state.set_device_name(b"XY");
    assert_eq!(state.device_name(), b"XY");
    assert!(state.device_name.iter().skip(2).all(|b| *b == 0));
}

#[test]
fn adv_data_and_scan_response_are_cut_to_31_bytes() {
    let mut state = GapState::new();
    let data = [7u8; 40];
    state.set_adv_data(&data);
    assert_eq!(state.adv_data_len as usize, MAX_ADV_DATA_LEN);
    assert_eq!(state.adv_data(), &data[..MAX_ADV_DATA_LEN]);
    state.set_scan_response(&[1, 2, 3]);
    assert_eq!(state.scan_response(), &[1, 2, 3]);
    assert_eq!(state.scan_rsp_data[3], 0);
}

#[test]
fn unknown_stored_adv_state_reads_as_stopped() {
    let mut state = GapState::new();
    state.adv_state = 9;
    assert_eq!(state.adv_state(), AdvState::Stopped);
    state.set_adv_state(AdvState::Stopping);
    assert_eq!(state.adv_state, 3);
}

#[test]
fn connecting_keeps_other_flags() {
    let mut state = GapState::new();
    state.status_flags = FLAG_BONDED;
    state.conn_handle = 7;
    state.set_connected(true);
    assert_eq!(state.status_flags, FLAG_BONDED | FLAG_CONNECTED);
    assert_eq!(state.conn_handle, 7);
    state.set_connected(false);
    assert_eq!(state.status_flags, FLAG_BONDED);
    assert_eq!(state.conn_handle, CONN_HANDLE_INVALID);
}
