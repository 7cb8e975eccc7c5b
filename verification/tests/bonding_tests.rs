use nrf52820_s140_firmware::ble::bonding::{
    BondingError, BondingStorage, MAX_BONDED_DEVICES, MAX_SYS_ATTR_SIZE,
};

#[test]
fn bonding_tests_1_test_bonded_device_storage_limits() {
    let mut storage = BondingStorage::new();
    let initial_count = storage.device_count();
    assert_eq!(initial_count, 0, "Expected empty bonding table at test start, found {} devices", initial_count);

    let mut bonded_conn_handles = Vec::new();
    for i in 0..MAX_BONDED_DEVICES {
        let conn_handle = (i + 100) as u16;
        let peer_addr = [0x10 + i as u8, 0x20, 0x30, 0x40, 0x50, 0x60];
        let result = storage.add_bonded_device(conn_handle, peer_addr, 0);
        assert!(result.is_ok(), "Failed to add bonded device {}", i);
        bonded_conn_handles.push(conn_handle);
        assert!(storage.is_device_bonded(conn_handle));
    }
    assert_eq!(storage.device_count(), MAX_BONDED_DEVICES);

    let overflow_handle = 999;
    let overflow_addr = [0xFF, 0xEE, 0xDD, 0xCC, 0xBB, 0xAA];
    let overflow_result = storage.add_bonded_device(overflow_handle, overflow_addr, 0);
    assert!(matches!(overflow_result, Err(BondingError::BondingTableFull)));
    assert_eq!(storage.device_count(), MAX_BONDED_DEVICES);

    let remove_result = storage.remove_bonded_device(bonded_conn_handles[0]);
    assert!(remove_result.is_ok());
    assert_eq!(storage.device_count(), MAX_BONDED_DEVICES - 1);

    let new_bond_result = storage.add_bonded_device(overflow_handle, overflow_addr, 0);
    assert!(new_bond_result.is_ok());
    assert_eq!(storage.device_count(), MAX_BONDED_DEVICES);
}

#[test]
fn bonding_tests_1_test_bond_data_persistence() {
    let mut storage = BondingStorage::new();
    let conn_handle = 101;
    let peer_addr = [0x11, 0x22, 0x33, 0x44, 0x55, 0x66];
    let first_sys_attr = [0xDD, 0xEE, 0xFF, 0x11, 0x22, 0x33];

    assert!(storage.add_bonded_device(conn_handle, peer_addr, 0).is_ok());
    assert!(storage.set_system_attributes(conn_handle, &first_sys_attr).is_ok());

    let attrs = storage.get_system_attributes(conn_handle);
    assert!(attrs.is_some());
    let attrs = attrs.unwrap();
    assert_eq!(attrs.len(), first_sys_attr.len());
    for (i, &byte) in first_sys_attr.iter().enumerate() {
        assert_eq!(attrs[i], byte);
    }
    assert!(storage.is_device_bonded(conn_handle));

    let oversized_attrs = [0xFF; MAX_SYS_ATTR_SIZE + 10];
    let oversized_result = storage.set_system_attributes(conn_handle, &oversized_attrs);
    assert!(matches!(oversized_result, Err(BondingError::InvalidData)));
    let preserved = storage.get_system_attributes(conn_handle);
    assert!(preserved.is_some());
    assert_eq!(preserved.unwrap().len(), first_sys_attr.len());
}

#[test]
fn test_system_attributes_size_limits() {
    for attr_sizes in [vec![0usize, 99], vec![64, 65], vec![10]] {
        let mut storage = BondingStorage::new();
        let mut conn_handles = Vec::new();
        for (i, &size) in attr_sizes.iter().take(MAX_BONDED_DEVICES).enumerate() {
            let conn_handle = (200 + i) as u16;
            let peer_addr = [0x12 + i as u8, 0x34, 0x56, 0x78, 0x9A, 0xBC];
            assert!(storage.add_bonded_device(conn_handle, peer_addr, 0).is_ok());
            conn_handles.push(conn_handle);

            let sys_attr: Vec<u8> = (0..size.min(MAX_SYS_ATTR_SIZE)).map(|j| 0x55 + (j % 256) as u8).collect();
            let result = storage.set_system_attributes(conn_handle, &sys_attr);
            assert!(result.is_ok(), "Should accept {} byte attributes", size);
            let retrieved = storage.get_system_attributes(conn_handle);
            assert!(retrieved.is_some());
            assert_eq!(retrieved.unwrap().len(), size.min(MAX_SYS_ATTR_SIZE));
        }
        for handle in conn_handles {
            let _ = storage.remove_bonded_device(handle);
        }
        assert_eq!(storage.device_count(), 0);
    }
}

#[test]
fn test_bonding_state_consistency() {
    for conn_handles in [vec![300u16, 301], vec![350, 350, 399], vec![399]] {
        let mut storage = BondingStorage::new();
        let mut bonded_handles = Vec::new();
        for (i, &handle) in conn_handles.iter().take(MAX_BONDED_DEVICES).enumerate() {
            if bonded_handles.contains(&handle) {
                continue;
            }
            let peer_addr = [0x10 + i as u8, 0x20, 0x30, 0x40, 0x50, 0x60];
            assert!(storage.add_bonded_device(handle, peer_addr, i as u8 % 2).is_ok());
            bonded_handles.push(handle);
            assert!(storage.is_device_bonded(handle));
            let sys_attr = [0x44 + i as u8; 8];
            assert!(storage.set_system_attributes(handle, &sys_attr).is_ok());
            let retrieved = storage.get_system_attributes(handle);
            assert!(retrieved.is_some());
            assert_eq!(retrieved.unwrap().len(), 8);
        }
        assert_eq!(storage.device_count(), bonded_handles.len());
        for &handle in &bonded_handles {
            assert!(storage.is_device_bonded(handle));
        }
        for handle in bonded_handles {
            assert!(storage.remove_bonded_device(handle).is_ok());
            assert!(!storage.is_device_bonded(handle));
        }
        assert_eq!(storage.device_count(), 0);
    }
}

#[test]
fn test_device_data_combinations() {
    let specs: [&[(u16, [u8; 6], u8, usize)]; 3] = [
        &[(1, [0, 1, 2, 3, 4, 5], 0, 0), (399, [255; 6], 2, 64)],
        &[(200, [9, 8, 7, 6, 5, 4], 1, 17)],
        &[(5, [1; 6], 0, 3), (6, [2; 6], 1, 4)],
    ];
    for device_specs in specs {
        let mut storage = BondingStorage::new();
        let mut bonded_devices = Vec::new();
        for &(handle, addr, addr_type, sys_attr_len) in device_specs.iter().take(MAX_BONDED_DEVICES) {
            assert!(storage.add_bonded_device(handle, addr, addr_type).is_ok());
            bonded_devices.push(handle);
            let sys_attrs: Vec<u8> = (0..sys_attr_len).map(|i| 0xAA + (i % 256) as u8).collect();
            assert!(storage.set_system_attributes(handle, &sys_attrs).is_ok());

            let info = storage.get_bonded_device_info(handle);
            assert!(info.is_some());
            let info = info.unwrap();
            assert_eq!(info.conn_handle, handle);
            assert_eq!(info.peer_addr, addr);
            assert_eq!(info.addr_type, addr_type);

            let attrs = storage.get_system_attributes(handle).unwrap();
            assert_eq!(attrs.len(), sys_attr_len);
            for (i, &byte) in attrs.iter().enumerate() {
                assert_eq!(byte, 0xAA + (i % 256) as u8);
            }
            assert!(storage.is_device_bonded(handle));
        }
        assert_eq!(storage.device_count(), bonded_devices.len());
        for handle in bonded_devices {
            assert!(storage.remove_bonded_device(handle).is_ok());
            assert!(!storage.is_device_bonded(handle));
        }
        assert_eq!(storage.device_count(), 0);
    }
}

#[test]
fn unknown_device_errors() {
    let mut storage = BondingStorage::new();
    assert_eq!(storage.set_system_attributes(7, &[1]), Err(BondingError::DeviceNotFound));
    assert_eq!(storage.remove_bonded_device(7), Err(BondingError::DeviceNotFound));
    assert!(storage.get_system_attributes(7).is_none());
    assert!(storage.get_bonded_device_info(7).is_none());
}

#[test]
fn rebonding_a_known_handle_replaces_it_even_when_full() {
    let mut storage = BondingStorage::new();
    storage.add_bonded_device(1, [1; 6], 0).unwrap();
    storage.add_bonded_device(2, [2; 6], 0).unwrap();
    storage.set_system_attributes(1, &[9, 9]).unwrap();
    assert!(storage.add_bonded_device(1, [7; 6], 1).is_ok());
    let info = storage.get_bonded_device_info(1).unwrap();
    assert_eq!(info.peer_addr, [7; 6]);
    assert_eq!(info.addr_type, 1);
    assert_eq!(storage.get_system_attributes(1).unwrap().len(), 0);
    let mut handles = storage.get_all_bonded_handles();
    handles.sort();
    assert_eq!(handles, vec![1, 2]);
}
