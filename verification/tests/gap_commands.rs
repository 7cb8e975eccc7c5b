use nrf52820_s140_firmware::advertising::AdvCommand;
use nrf52820_s140_firmware::ble::gap_state::{ConnectionParams, GapState};
use nrf52820_s140_firmware::commands::gap::{
    finish_adv_command, finish_conn_params_get, finish_conn_params_set, finish_get_addr, finish_set_addr,
    finish_set_name, finish_status, handle_adv_configure, handle_adv_start, handle_adv_stop,
    handle_conn_param_update, handle_conn_params_get, handle_conn_params_set, handle_data_length_update,
    handle_get_addr, handle_get_name, handle_phy_update, handle_set_addr, handle_set_name,
    handle_set_tx_power, handle_start_rssi_reporting, handle_stop_rssi_reporting,
};
use nrf52820_s140_firmware::commands::{CommandError, CommandStep, ResponseBuilder, SdRequest};
use nrf52820_s140_firmware::modem_core::protocol::ResponseCode;

fn ack(payload: &[u8]) -> Vec<u8> {
    let mut b = ResponseBuilder::new();
    b.add_slice(payload).unwrap();
    b.build(ResponseCode::Ack).unwrap().as_slice().to_vec()
}

fn is_invalid(step: CommandStep) -> bool {
    let expected = ResponseBuilder::build_error(CommandError::InvalidPayload).unwrap();
    matches!(step, CommandStep::Reply(Ok(p)) if p.as_slice() == expected.as_slice())
}

#[test]
fn get_and_set_address() {
    let mut gap = GapState::new();
    assert!(matches!(handle_get_addr(&[]), CommandStep::Call(SdRequest::GetAddress)));
    let reply = finish_get_addr(0x03, [1, 2, 3, 4, 5, 6], &mut gap).unwrap();
    assert_eq!(reply.as_slice(), &ack(&[0, 0, 0, 0, 0x01, 1, 2, 3, 4, 5, 6])[..]);
    assert_eq!(gap.device_addr, [1, 2, 3, 4, 5, 6]);
    assert_eq!(gap.addr_type, 1);

    match handle_set_addr(&[2, 9, 8, 7, 6, 5, 4]) {
        CommandStep::Call(SdRequest::SetAddress { addr_type, addr }) => {
            assert_eq!(addr_type, 2);
            assert_eq!(addr, [9, 8, 7, 6, 5, 4]);
            let reply = finish_set_addr(addr_type, addr, &mut gap).unwrap();
            assert_eq!(reply.as_slice(), &ack(&[0, 0, 0, 0])[..]);
            assert_eq!(gap.device_addr, [9, 8, 7, 6, 5, 4]);
            assert_eq!(gap.addr_type, 2);
        }
        other => panic!("unexpected {:?}", other),
    }
    assert!(is_invalid(handle_set_addr(&[4, 0, 0, 0, 0, 0, 0])));
    assert!(is_invalid(handle_set_addr(&[0, 0, 0])));
}

#[test]
fn advertising_commands() {
    assert!(matches!(
        handle_adv_start(&[1, 2]),
        CommandStep::Call(SdRequest::Advertising(AdvCommand::Start { handle: 1, conn_cfg_tag: 2 }))
    ));
    assert!(is_invalid(handle_adv_start(&[1])));
    assert!(matches!(
        handle_adv_stop(&[4]),
        CommandStep::Call(SdRequest::Advertising(AdvCommand::Stop { handle: 4 }))
    ));
    assert!(is_invalid(handle_adv_stop(&[])));
    let queued = finish_adv_command(AdvCommand::Stop { handle: 4 }, true).unwrap();
    assert_eq!(queued.as_slice(), &ack(&[0, 0, 0, 0])[..]);
    let full = finish_adv_command(AdvCommand::Configure { handle: 7, data_present: true }, false).unwrap();
    assert_eq!(full.as_slice(), &ack(&[0, 0, 0, 4, 7])[..]);
}

#[test]
fn adv_configure_stores_data() {
    let mut gap = GapState::new();
    let payload = [5, 1, 0, 3, 0, 2, 0xA1, 0xA2, 0xA3, 0xB1, 0xB2];
    let step = handle_adv_configure(&payload, &mut gap);
    assert!(matches!(
        step,
        CommandStep::Call(SdRequest::Advertising(AdvCommand::Configure { handle: 5, data_present: true }))
    ));
    assert_eq!(gap.adv_data(), &[0xA1, 0xA2, 0xA3]);
    assert_eq!(gap.scan_response(), &[0xB1, 0xB2]);
    assert_eq!(gap.adv_handle, 5);

    // lengths that do not fit leave the state alone
    let mut gap2 = GapState::new();
    let step = handle_adv_configure(&[6, 1, 0, 40, 0, 0], &mut gap2);
    assert!(matches!(step, CommandStep::Call(SdRequest::Advertising(AdvCommand::Configure { handle: 6, .. }))));
    assert_eq!(gap2.adv_data_len, 0);
    assert_eq!(gap2.adv_handle, 0);
    assert!(is_invalid(handle_adv_configure(&[1], &mut gap2)));
}

#[test]
fn name_commands() {
    let mut gap = GapState::default();
    let reply = handle_get_name(&[0], &gap).unwrap();
    assert_eq!(reply.as_slice(), &ack(&[0, 0, 0, 0, 0, 9])[..]);
    match handle_set_name(&[1, 1, b'N', b'e', b'w']) {
        CommandStep::Call(SdRequest::SetDeviceName { sec_mode_sm, sec_mode_lv, name }) => {
            assert_eq!((sec_mode_sm, sec_mode_lv), (1, 1));
            assert_eq!(name, b"New".to_vec());
            let failed = finish_set_name(&name, 7, &mut gap).unwrap();
            assert_eq!(failed.as_slice(), &ack(&[0, 0, 0, 7])[..]);
            assert_eq!(gap.device_name(), b"BLE_Modem");
            finish_set_name(&name, 0, &mut gap).unwrap();
            assert_eq!(gap.device_name(), b"New");
        }
        other => panic!("unexpected {:?}", other),
    }
    assert!(is_invalid(handle_set_name(&[1])));
    assert!(handle_get_name(&[], &gap).is_ok());
}

#[test]
fn connection_parameter_commands() {
    let mut gap = GapState::new();
    assert!(matches!(handle_conn_params_get(&[]), CommandStep::Call(SdRequest::PpcpGet)));
    let params = ConnectionParams { min_conn_interval: 6, max_conn_interval: 0x0102, slave_latency: 0, conn_sup_timeout: 100 };
    let reply = finish_conn_params_get(0, params, &mut gap).unwrap();
    assert_eq!(reply.as_slice(), &ack(&[0, 0, 0, 0, 0, 6, 1, 2, 0, 0, 0, 100])[..]);
    assert_eq!(gap.preferred_conn_params, params);
    let reply = finish_conn_params_get(5, ConnectionParams::default(), &mut gap).unwrap();
    assert_eq!(reply.as_slice(), &ack(&[0, 0, 0, 5])[..]);
    assert_eq!(gap.preferred_conn_params, params);

    match handle_conn_params_set(&[0, 6, 0, 12, 0, 1, 0, 200]) {
        CommandStep::Call(SdRequest::PpcpSet(p)) => {
            assert_eq!(p.min_conn_interval, 6);
            assert_eq!(p.max_conn_interval, 12);
            assert_eq!(p.slave_latency, 1);
            assert_eq!(p.conn_sup_timeout, 200);
            finish_conn_params_set(p, 0, &mut gap).unwrap();
            assert_eq!(gap.preferred_conn_params, p);
        }
        other => panic!("unexpected {:?}", other),
    }
    assert!(is_invalid(handle_conn_params_set(&[0, 6])));

    match handle_conn_param_update(&[1, 0, 6, 0, 12, 0, 0, 0, 100, 0]) {
        CommandStep::Call(SdRequest::ConnParamUpdate { conn_handle, params }) => {
            assert_eq!(conn_handle, 1);
            assert_eq!(params.max_conn_interval, 12);
            assert_eq!(params.conn_sup_timeout, 100);
        }
        other => panic!("unexpected {:?}", other),
    }
    assert!(is_invalid(handle_conn_param_update(&[1, 0, 6])));
}

#[test]
fn link_commands_and_status() {
    assert!(matches!(
        handle_data_length_update(&[1, 0, 251, 0, 0x48, 0x08]),
        CommandStep::Call(SdRequest::DataLengthUpdate { conn_handle: 1, tx_octets: 251, tx_time_us: 0x0848 })
    ));
    assert!(is_invalid(handle_data_length_update(&[1, 0])));
    assert!(matches!(
        handle_phy_update(&[2, 0, 2, 1, 0, 0]),
        CommandStep::Call(SdRequest::PhyUpdate { conn_handle: 2, tx_phys: 2, rx_phys: 1 })
    ));
    assert!(is_invalid(handle_phy_update(&[2, 0, 2, 1, 0])));
    assert!(matches!(
        handle_set_tx_power(&[3, 5, 0, 0xFC]),
        CommandStep::Call(SdRequest::SetTxPower { role: 3, handle: 5, tx_power: -4 })
    ));
    assert!(matches!(
        handle_set_tx_power(&[1, 5, 0, 4]),
        CommandStep::Call(SdRequest::SetTxPower { role: 1, handle: 0, tx_power: 4 })
    ));
    assert!(is_invalid(handle_set_tx_power(&[9, 5, 0, 4])));
    assert_eq!(finish_status(0).unwrap().as_slice(), &ack(&[])[..]);
    let err = finish_status(8).unwrap();
    assert_eq!(&err.as_slice()[..6], &[0x00, 0x08, 0xAC, 0x51, 0x00, 0x06]);
    assert_eq!(handle_start_rssi_reporting(&[]).unwrap().as_slice(), &ack(&[])[..]);
    assert_eq!(handle_stop_rssi_reporting(&[]).unwrap().as_slice(), &ack(&[])[..]);
}
