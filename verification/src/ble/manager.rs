//! Dynamic service creation: the requests a service manager task serves,
//! and its decisions around the SoftDevice calls that create services and
//! characteristics.
use vstd::prelude::*;

use crate::ble::registry::{service_entry, BleUuid, GattRegistry, ServiceType};
use crate::collections::{AttrBuf, ATTR_BUF_CAPACITY};

verus! {

/// Request ids: each request gets the next id; ids wrap around.
pub struct RequestIdCounter {
    next: u32,
}

impl RequestIdCounter {
    /// The id the next request gets.
    pub closed spec fn spec_next(self) -> u32 {
        self.next
    }

    /// A counter whose first id is 1.
    pub fn new() -> (r: Self)
        ensures
            r.spec_next() == 1,
    {
        Self { next: 1 }
    }

    /// Take the next id.
    pub fn take(&mut self) -> (r: u32)
        ensures
            r == old(self).spec_next(),
            final(self).spec_next() == old(self).spec_next().wrapping_add(1),
    {
        let id = self.next;
        self.next = self.next.wrapping_add(1);
        id
    }
}

/// Service creation request.
#[derive(Debug, Clone, Copy)]
pub struct ServiceCreateRequest {
    pub uuid: BleUuid,
    pub service_type: ServiceType,
    pub response_id: u32,
}

/// Service creation response.
#[derive(Debug, Clone, Copy)]
pub struct ServiceCreateResponse {
    pub response_id: u32,
    pub result: Result<u16, ServiceCreateError>,
}

/// Characteristic creation request.
#[derive(Debug)]
pub struct CharacteristicCreateRequest {
    pub service_handle: u16,
    pub uuid: BleUuid,
    pub properties: u8,
    pub max_length: u16,
    pub permissions: u8,
    pub initial_value: AttrBuf,
    pub response_id: u32,
}

/// Characteristic handles.
#[derive(Debug, Clone, Copy, PartialEq, Eq, Structural)]
pub struct CharacteristicHandlesInfo {
    pub value_handle: u16,
    pub user_desc_handle: u16,
    pub cccd_handle: u16,
    pub sccd_handle: u16,
}

/// Characteristic creation response.
#[derive(Debug, Clone, Copy)]
pub struct CharacteristicCreateResponse {
    pub response_id: u32,
    pub result: Result<CharacteristicHandlesInfo, ServiceCreateError>,
}

/// Service creation errors.
#[derive(Debug, Clone, Copy, PartialEq, Eq, Structural)]
pub enum ServiceCreateError {
    RegisterError,
    UuidConversionFailed,
    RegistryFull,
    ServiceNotFound,
    InvalidParameters,
    SoftdeviceError,
}

/// A service creation request with the next id.
pub fn request_service_creation(
    ids: &mut RequestIdCounter,
    uuid: BleUuid,
    service_type: ServiceType,
) -> (r: ServiceCreateRequest)
    ensures
        r == (ServiceCreateRequest { uuid, service_type, response_id: old(ids).spec_next() }),
        final(ids).spec_next() == old(ids).spec_next().wrapping_add(1),
{
    let request_id = ids.take();
    ServiceCreateRequest { uuid, service_type, response_id: request_id }
}

/// A characteristic creation request with the next id; the id is taken
/// even when the initial value is longer than 64 bytes, which gives
/// `InvalidParameters`.
pub fn request_characteristic_creation(
    ids: &mut RequestIdCounter,
    service_handle: u16,
    uuid: BleUuid,
    properties: u8,
    max_length: u16,
    permissions: u8,
    initial_value: &[u8],
) -> (r: Result<CharacteristicCreateRequest, ServiceCreateError>)
    ensures
        final(ids).spec_next() == old(ids).spec_next().wrapping_add(1),
        r is Ok <==> initial_value@.len() <= ATTR_BUF_CAPACITY,
        r matches Err(e) ==> e == ServiceCreateError::InvalidParameters,
        r matches Ok(q) ==> q.service_handle == service_handle && q.uuid == uuid && q.properties
            == properties && q.max_length == max_length && q.permissions == permissions
            && q.initial_value@ == initial_value@ && q.response_id == old(ids).spec_next(),
{
    let request_id = ids.take();
    let mut initial_vec = AttrBuf::new();
    if !initial_vec.extend_from_slice(initial_value) {
        return Err(ServiceCreateError::InvalidParameters);
    }
    Ok(
        CharacteristicCreateRequest {
            service_handle,
            uuid,
            properties,
            max_length,
            permissions,
            initial_value: initial_vec,
            response_id: request_id,
        },
    )
}

/// A raw SoftDevice UUID: value and type.
#[derive(Debug, Clone, Copy, PartialEq, Eq, Structural)]
pub struct RawUuid {
    pub uuid: u16,
    pub uuid_type: u8,
}

/// The SoftDevice's UUID type for Bluetooth SIG UUIDs.
pub const BLE_UUID_TYPE_BLE: u8 = 1;

/// The raw UUID handed to the SoftDevice.  The SoftDevice UUID is not taken
/// apart: every UUID is sent as the 16-bit SIG UUID 0x1234.
pub fn uuid_to_raw(_uuid: &BleUuid) -> (r: RawUuid)
    ensures
        r == (RawUuid { uuid: 0x1234, uuid_type: BLE_UUID_TYPE_BLE }),
{
    RawUuid { uuid: 0x1234, uuid_type: BLE_UUID_TYPE_BLE }
}

/// The SoftDevice call that creates a service: its raw type (1 primary, 2
/// secondary) and raw UUID.
#[derive(Debug, Clone, Copy, PartialEq, Eq, Structural)]
pub struct ServiceAddCall {
    pub service_type: u8,
    pub uuid: RawUuid,
}

/// The call that serves a service creation request, or
/// `UuidConversionFailed` when its vendor UUID base is not registered.
pub fn process_service_request(request: &ServiceCreateRequest, registry: &GattRegistry) -> (r: Result<
    ServiceAddCall,
    ServiceCreateError,
>)
    ensures
        request.uuid.resolve(registry.spec_uuid_bases()) is None && !(request.uuid is Uuid16)
            <==> r is Err,
        r matches Err(e) ==> e == ServiceCreateError::UuidConversionFailed,
        r matches Ok(c) ==> c == (ServiceAddCall {
            service_type: request.service_type.value(),
            uuid: RawUuid { uuid: 0x1234, uuid_type: BLE_UUID_TYPE_BLE },
        }),
{
    if request.uuid.to_softdevice_uuid(registry).is_none() {
        return Err(ServiceCreateError::UuidConversionFailed);
    }
    let service_uuid = uuid_to_raw(&request.uuid);
    let service_type = request.service_type.to_u8();
    Ok(ServiceAddCall { service_type, uuid: service_uuid })
}

/// The UUID under which a created service is registered: the SoftDevice
/// UUID is not taken apart, so every service is registered as 0x1234.
pub open spec fn registered_service_uuid() -> BleUuid {
    BleUuid::Uuid16(0x1234)
}

/// Finish a service creation from the SoftDevice's status and handle: a
/// failed call gives `SoftdeviceError`; else the service is registered and
/// its handle returned, or `RegistryFull`.
pub fn finish_service_creation(
    status: u32,
    service_handle: u16,
    service_type: ServiceType,
    registry: &mut GattRegistry,
) -> (r: Result<u16, ServiceCreateError>)
    ensures
        status != 0 ==> r == Err::<u16, ServiceCreateError>(ServiceCreateError::SoftdeviceError)
            && final(registry).spec_services() == old(registry).spec_services(),
        status == 0 && old(registry).spec_services().len() < 8 ==> r == Ok::<
            u16,
            ServiceCreateError,
        >(service_handle) && final(registry).spec_services() == old(registry).spec_services().push(
            service_entry(service_handle, registered_service_uuid(), service_type),
        ),
        status == 0 && old(registry).spec_services().len() >= 8 ==> r == Err::<
            u16,
            ServiceCreateError,
        >(ServiceCreateError::RegistryFull) && final(registry).spec_services() == old(
            registry,
        ).spec_services(),
        final(registry).spec_characteristics() == old(registry).spec_characteristics(),
        final(registry).spec_uuid_bases() == old(registry).spec_uuid_bases(),
{
    if status != 0 {
        return Err(ServiceCreateError::SoftdeviceError);
    }
    let ble_uuid = BleUuid::Uuid16(0x1234);
    match registry.add_service(service_handle, ble_uuid, service_type) {
        Ok(()) => Ok(service_handle),
        Err(_) => Err(ServiceCreateError::RegistryFull),
    }
}

/// The characteristic metadata handed to the SoftDevice.
#[derive(Debug, Clone, Copy, PartialEq, Eq, Structural)]
pub struct CharacteristicMetadata {
    pub read: bool,
    pub write_without_response: bool,
    pub write: bool,
    pub notify: bool,
    pub indicate: bool,
    /// Whether a CCCD is described (open read and write access, stored
    /// in the stack).
    pub has_cccd: bool,
    /// The value: variable length, open access, stored in the stack.
    pub init_len: u16,
    pub max_len: u16,
    pub uuid: RawUuid,
}

/// The metadata for a characteristic with the given properties: read
/// (0x02), write without response (0x04), write (0x08), notify (0x10),
/// indicate (0x20); a CCCD when it can notify or indicate.
pub open spec fn metadata_for(properties: u8, max_length: u16, init_len: u16) -> CharacteristicMetadata {
    CharacteristicMetadata {
        read: properties & 0x02 != 0,
        write_without_response: properties & 0x04 != 0,
        write: properties & 0x08 != 0,
        notify: properties & 0x10 != 0,
        indicate: properties & 0x20 != 0,
        has_cccd: properties & 0x30 != 0,
        init_len,
        max_len: max_length,
        uuid: RawUuid { uuid: 0x1234, uuid_type: BLE_UUID_TYPE_BLE },
    }
}

/// The metadata that serves a characteristic creation request, or
/// `UuidConversionFailed` when its vendor UUID base is not registered.
pub fn process_characteristic_request(
    request: &CharacteristicCreateRequest,
    registry: &GattRegistry,
) -> (r: Result<CharacteristicMetadata, ServiceCreateError>)
    ensures
        request.uuid.resolve(registry.spec_uuid_bases()) is None && !(request.uuid is Uuid16)
            <==> r is Err,
        r matches Err(e) ==> e == ServiceCreateError::UuidConversionFailed,
        r matches Ok(m) ==> m == metadata_for(
            request.properties,
            request.max_length,
            request.initial_value@.len() as u16,
        ),
{
    if request.uuid.to_softdevice_uuid(registry).is_none() {
        return Err(ServiceCreateError::UuidConversionFailed);
    }
    let char_uuid = uuid_to_raw(&request.uuid);
    Ok(
        add_characteristic_to_service(
            request.properties,
            request.max_length,
            request.initial_value.len() as u16,
            char_uuid,
        ),
    )
}

/// The metadata for a characteristic with the given properties, length
/// limits and UUID.
pub fn add_characteristic_to_service(properties: u8, max_length: u16, init_len: u16, uuid: RawUuid) -> (r:
    CharacteristicMetadata)
    ensures
        r == (CharacteristicMetadata { uuid, ..metadata_for(properties, max_length, init_len) }),
{
    CharacteristicMetadata {
        read: properties & 0x02 != 0,
        write_without_response: properties & 0x04 != 0,
        write: properties & 0x08 != 0,
        notify: properties & 0x10 != 0,
        indicate: properties & 0x20 != 0,
        has_cccd: properties & 0x30 != 0,
        init_len,
        max_len: max_length,
        uuid,
    }
}

/// Finish a characteristic creation from the SoftDevice's status and
/// handles: a failed call gives `SoftdeviceError`.
pub fn finish_characteristic_creation(status: u32, handles: CharacteristicHandlesInfo) -> (r: Result<
    CharacteristicHandlesInfo,
    ServiceCreateError,
>)
    ensures
        status != 0 ==> r == Err::<CharacteristicHandlesInfo, ServiceCreateError>(
            ServiceCreateError::SoftdeviceError,
        ),
        status == 0 ==> r == Ok::<CharacteristicHandlesInfo, ServiceCreateError>(handles),
{
    if status != 0 {
        return Err(ServiceCreateError::SoftdeviceError);
    }
    Ok(handles)
}

/// The result a requester takes from a response: the response's result
/// when it answers the request's id, else `None` (it is for another
/// request).
pub fn service_response_for(response: &ServiceCreateResponse, request_id: u32) -> (r: Option<
    Result<u16, ServiceCreateError>,
>)
    ensures
        r == (if response.response_id == request_id {
            Some(response.result)
        } else {
            None
        }),
{
    if response.response_id == request_id {
        Some(response.result)
    } else {
        None
    }
}

/// The result a requester takes from a response: the response's result
/// when it answers the request's id, else `None`.
pub fn characteristic_response_for(response: &CharacteristicCreateResponse, request_id: u32) -> (r:
    Option<Result<CharacteristicHandlesInfo, ServiceCreateError>>)
    ensures
        r == (if response.response_id == request_id {
            Some(response.result)
        } else {
            None
        }),
{
    if response.response_id == request_id {
        Some(response.result)
    } else {
        None
    }
}

} // verus!
