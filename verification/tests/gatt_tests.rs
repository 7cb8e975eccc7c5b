use nrf52820_s140_firmware::ble::gatt_state::{ModemState, ServiceType, StateError, MAX_SERVICES};
use nrf52820_s140_firmware::ble::registry::SdUuid;

#[test]
fn test_service_registration_limits() {
    for service_handles in [vec![1u16, 2, 3], (1..=10).collect::<Vec<u16>>(), (100..120).collect()] {
        let mut state = ModemState::new();
        let mut registered_services = Vec::new();
        for &handle in service_handles.iter().take(MAX_SERVICES) {
            let uuid = SdUuid::Uuid16(handle % 0xFFFF);
            if state.add_service(handle, uuid, ServiceType::Primary).is_ok() {
                registered_services.push(handle);
            }
        }
        assert!(registered_services.len() <= MAX_SERVICES);
        if registered_services.len() == MAX_SERVICES {
            let overflow_result = state.add_service(9999, SdUuid::Uuid16(0x1234), ServiceType::Primary);
            assert!(overflow_result.is_err());
        }
    }
}

#[test]
fn test_characteristic_handle_assignment() {
    for char_counts in [vec![1usize, 2, 3], vec![5, 5, 9], vec![9]] {
        let mut state = ModemState::new();
        let mut service_handles = Vec::new();
        for &char_count in char_counts.iter().take(MAX_SERVICES.min(8)) {
            let service_handle = (char_count + 1000) as u16;
            if service_handles.contains(&service_handle) {
                continue;
            }
            let service_uuid = SdUuid::Uuid16(0x1234 + char_count as u16);
            if state.add_service(service_handle, service_uuid, ServiceType::Primary).is_ok() {
                service_handles.push(service_handle);
            }
        }
        for i in 1..service_handles.len() {
            for j in 0..i {
                assert_ne!(service_handles[i], service_handles[j]);
            }
        }
        for &handle in &service_handles {
            let service = state.get_service(handle);
            assert!(service.is_some());
            assert_eq!(service.unwrap().handle, handle);
        }
    }
}

#[test]
fn gatt_tests_1_test_uuid_base_registration() {
    for uuid_bases in [vec![[1u8; 16]], vec![[0u8; 16], [0xFF; 16], [7; 16], [8; 16], [9; 16]]] {
        let mut state = ModemState::new();
        let mut registered_bases = Vec::new();
        for uuid_base in uuid_bases.iter().take(4) {
            let result = state.register_uuid_base(*uuid_base);
            if result.is_ok() {
                let handle = result.unwrap();
                registered_bases.push((handle, *uuid_base));
                let retrieved = state.get_uuid_base(handle);
                assert!(retrieved.is_some());
                assert_eq!(&retrieved.unwrap().base, uuid_base);
            }
        }
        for (handle, uuid_base) in &registered_bases {
            let retrieved = state.get_uuid_base(*handle);
            assert!(retrieved.is_some());
            assert_eq!(&retrieved.unwrap().base, uuid_base);
        }
    }
}

fn uuid_base_limits() {
    let mut state = ModemState::new();
    let mut uuid_bases = Vec::new();
    for i in 0..4 {
        let mut uuid_base = [0u8; 16];
        uuid_base[15] = i;
        let result = state.register_uuid_base(uuid_base);
        assert!(result.is_ok());
        let handle = result.unwrap();
        assert_eq!(handle, i);
        uuid_bases.push((handle, uuid_base));
    }
    assert_eq!(uuid_bases.len(), 4);
    let overflow_result = state.register_uuid_base([0xFF; 16]);
    assert!(matches!(overflow_result, Err(StateError::UuidBasesExhausted)));
    for (handle, uuid_base) in &uuid_bases {
        let retrieved = state.get_uuid_base(*handle);
        assert!(retrieved.is_some());
        assert_eq!(&retrieved.unwrap().base, uuid_base);
    }
}

#[test]
fn gatt_tests_1_test_uuid_base_limits() {
    uuid_base_limits();
}

#[test]
fn gatt_tests_test_uuid_base_limits() {
    uuid_base_limits();
}

#[test]
fn test_service_handle_collision_prevention() {
    for handles in [vec![1u16, 2, 3], vec![5, 5, 6], (1..20).collect::<Vec<u16>>()] {
        let mut state = ModemState::new();
        let mut used_handles = Vec::new();
        for &handle in handles.iter().take(MAX_SERVICES) {
            if used_handles.contains(&handle) {
                continue;
            }
            let uuid = SdUuid::Uuid16(handle % 0xFFFF);
            if state.add_service(handle, uuid, ServiceType::Primary).is_ok() {
                used_handles.push(handle);
                let collision_result = state.add_service(handle, SdUuid::Uuid16(0x9999), ServiceType::Primary);
                assert!(collision_result.is_err());
            }
        }
        let mut sorted_handles = used_handles.clone();
        sorted_handles.sort();
        sorted_handles.dedup();
        assert_eq!(used_handles.len(), sorted_handles.len());
    }
}

#[test]
fn duplicate_service_handle_is_invalid_handle() {
    let mut state = ModemState::new();
    state.add_service(3, SdUuid::Uuid16(1), ServiceType::Primary).unwrap();
    assert_eq!(
        state.add_service(3, SdUuid::Uuid16(2), ServiceType::Secondary),
        Err(StateError::InvalidHandle)
    );
    assert_eq!(state.get_service(3).unwrap().service_type, ServiceType::Primary);
}
