use nrf52820_s140_firmware::ble::connection::{
    ConnectionError, ConnectionManager, ConnectionParams, MAX_CONNECTIONS,
};

#[test]
fn test_connection_cleanup_on_disconnect() {
    let mut manager = ConnectionManager::new();
    let connection_ids = [1, 2];
    for &conn_id in &connection_ids {
        let result = manager.add_connection(conn_id, 23);
        assert!(result.is_ok());
        assert!(manager.is_connected(conn_id));
    }
    assert_eq!(manager.connection_count(), 2);

    let disconnect_result = manager.remove_connection(connection_ids[0], 0x13);
    assert!(disconnect_result.is_ok());
    assert!(!manager.is_connected(connection_ids[0]));
    assert!(manager.is_connected(connection_ids[1]));
    assert_eq!(manager.connection_count(), 1);

    let new_connection_result = manager.add_connection(99, 23);
    assert!(new_connection_result.is_ok());
    assert_eq!(manager.connection_count(), 2);
}

#[test]
fn connection_pool_is_bounded() {
    let mut manager = ConnectionManager::new();
    for h in 1..=MAX_CONNECTIONS as u16 {
        assert!(manager.add_connection(h, 23).is_ok());
    }
    assert_eq!(manager.add_connection(50, 23), Err(ConnectionError::ConnectionMapFull));
    assert!(manager.remove_connection(1, 0x13).is_ok());
    assert!(manager.add_connection(50, 23).is_ok());
    let mut handles = manager.active_handles();
    handles.sort();
    assert_eq!(handles, vec![2, 50]);
}

#[test]
fn handle_zero_and_duplicates_are_rejected() {
    let mut manager = ConnectionManager::new();
    assert_eq!(manager.add_connection(0, 23), Err(ConnectionError::InvalidHandle));
    assert!(manager.add_connection(5, 23).is_ok());
    assert_eq!(manager.add_connection(5, 100), Err(ConnectionError::DuplicateHandle));
    assert_eq!(manager.get_connection(5).unwrap().mtu, 23);
    assert_eq!(manager.remove_connection(6, 0), Err(ConnectionError::ConnectionNotFound));
}

#[test]
fn mtu_and_params_updates() {
    let mut manager = ConnectionManager::new();
    manager.add_connection(7, 23).unwrap();
    let info = manager.get_connection(7).unwrap();
    assert_eq!(info.handle, 7);
    assert_eq!(info.conn_params, ConnectionParams::default());
    assert_eq!(info.conn_params.supervision_timeout, 400);

    assert!(manager.update_mtu(7, 247).is_ok());
    assert_eq!(manager.get_connection(7).unwrap().mtu, 247);
    let params = ConnectionParams { min_conn_interval: 6, max_conn_interval: 8, slave_latency: 2, supervision_timeout: 50 };
    assert!(manager.update_params(7, params).is_ok());
    assert_eq!(manager.get_connection(7).unwrap().conn_params, params);
    assert_eq!(manager.get_connection(7).unwrap().mtu, 247);
    assert_eq!(manager.update_mtu(8, 100), Err(ConnectionError::ConnectionNotFound));
    assert_eq!(manager.update_params(8, params), Err(ConnectionError::ConnectionNotFound));
}
