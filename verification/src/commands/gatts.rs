//! GATT server commands: adding services and characteristics, notifying,
//! MTU replies and system attributes.
use vstd::prelude::*;

use crate::ble::registry::{
    le16_value, BleUuid, CharacteristicInfo, GattRegistry, RegistryError, ServiceInfo, ServiceType,
};
use crate::ble::gatt_state::StateError;
use crate::commands::{ack_outcome, error_outcome, replies, CommandError, ResponseBuilder};
use crate::modem_core::memory::TxPacket;
use crate::modem_core::protocol::serialization::PayloadReader;
use crate::modem_core::protocol::{be16, be16_value, response_frame, ProtocolError, ResponseCode};

verus! {

/// The handle given to a new service.
pub const SERVICE_HANDLE: u16 = 0x0001;

/// The value handle given to a new characteristic.
pub const VALUE_HANDLE: u16 = 0x0010;

/// The CCCD handle given to a characteristic that can notify or indicate.
pub const CCCD_HANDLE: u16 = 0x0011;

/// The answer to a malformed payload.
pub open spec fn invalid_payload() -> Result<Seq<u8>, CommandError> {
    error_outcome(CommandError::InvalidPayload)
}

/// Whether two registries hold the same entries.
pub open spec fn same_registry(a: GattRegistry, b: GattRegistry) -> bool {
    &&& a.spec_services() == b.spec_services()
    &&& a.spec_characteristics() == b.spec_characteristics()
    &&& a.spec_uuid_bases() == b.spec_uuid_bases()
}

/// The number of UUID bytes that follow a UUID type byte: 2 for a 16-bit
/// UUID, 16 for a 128-bit UUID, 3 for a vendor base id and offset.
pub open spec fn uuid_field_len(uuid_type: u8) -> Option<nat> {
    if uuid_type == 0 {
        Some(2)
    } else if uuid_type == 1 {
        Some(16)
    } else if uuid_type == 2 {
        Some(3)
    } else {
        None
    }
}

/// The `(uuid_type, uuid_data)` pair the registry stores for UUID bytes of
/// a known type (a 128-bit UUID is stored with data 0).
pub open spec fn compact_uuid(uuid_type: u8, data: Seq<u8>) -> (u8, u16) {
    if uuid_type == 0 {
        (0, le16_value(data[0], data[1]))
    } else if uuid_type == 1 {
        (1, 0)
    } else {
        (2, le16_value(data[1], data[2]))
    }
}

/// Whether the UUID bytes can be put in SoftDevice form: all can but a
/// vendor UUID whose base is not registered.
pub open spec fn uuid_resolvable(uuid_type: u8, data: Seq<u8>, n_bases: nat) -> bool {
    uuid_type != 2 || data[0] < n_bases
}

/// The fields of a SERVICE_ADD payload
/// `[UUID type][UUID (2, 16 or 3 bytes)][service type]`: the UUID type,
/// the UUID bytes and the service type, or `None` when malformed.
pub open spec fn parse_service_add(p: Seq<u8>) -> Option<(u8, Seq<u8>, ServiceType)> {
    if p.len() < 4 {
        None
    } else {
        match uuid_field_len(p[0]) {
            None => None,
            Some(n) => if p.len() <= 1 + n {
                None
            } else if p[1 + n as int] == 1 {
                Some((p[0], p.subrange(1, 1 + n as int), ServiceType::Primary))
            } else if p[1 + n as int] == 2 {
                Some((p[0], p.subrange(1, 1 + n as int), ServiceType::Secondary))
            } else {
                None
            },
        }
    }
}

/// The registry entry for a service added with the given fields.
pub open spec fn added_service(uuid_type: u8, data: Seq<u8>, service_type: ServiceType) -> ServiceInfo {
    ServiceInfo {
        handle: SERVICE_HANDLE,
        uuid_type: compact_uuid(uuid_type, data).0,
        uuid_data: compact_uuid(uuid_type, data).1,
        service_type: service_type.value(),
        _reserved: 0,
    }
}

/// The three handles a CHARACTERISTIC_ADD answers with: value, CCCD (only
/// when the properties allow notify or indicate) and SCCD.
pub open spec fn characteristic_handles(properties: u8) -> (u16, u16, u16) {
    (VALUE_HANDLE, if properties & 0x30 != 0 {
        CCCD_HANDLE
    } else {
        0
    }, 0)
}

/// What a CHARACTERISTIC_ADD payload
/// `[service handle (2)][UUID type][UUID][properties][max length (2)]
/// [initial value length][initial value][permissions (optional)]` holds.
pub enum CharAddRequest {
    /// Malformed: answered with `InvalidPayload`.
    Invalid,
    /// A fixed field runs past the end of the payload.
    Truncated,
    /// Well formed.
    Parsed {
        uuid_type: u8,
        uuid_data: Seq<u8>,
        properties: u8,
        max_len: u16,
        permissions: u8,
    },
}

/// The fields of a CHARACTERISTIC_ADD payload after its service handle;
/// multi-byte fields are big-endian, a missing permissions byte is 0.
pub open spec fn parse_characteristic_add(p: Seq<u8>) -> CharAddRequest {
    if p.len() < 8 {
        CharAddRequest::Invalid
    } else {
        match uuid_field_len(p[2]) {
            None => CharAddRequest::Invalid,
            Some(n) => {
                let q = 3 + n as int;
                if p.len() < q {
                    CharAddRequest::Invalid
                } else if p.len() < q + 4 {
                    CharAddRequest::Truncated
                } else {
                    let ivl = p[q + 3] as int;
                    if p.len() < q + 4 + ivl {
                        CharAddRequest::Invalid
                    } else {
                        CharAddRequest::Parsed {
                            uuid_type: p[2],
                            uuid_data: p.subrange(3, q),
                            properties: p[q],
                            max_len: be16_value(p[q + 1], p[q + 2]),
                            permissions: if p.len() > q + 4 + ivl {
                                p[q + 4 + ivl]
                            } else {
                                0
                            },
                        }
                    }
                }
            },
        }
    }
}

/// Whether a service with the given handle is registered.
pub open spec fn service_registered(registry: GattRegistry, handle: u16) -> bool {
    exists|i: int|
        0 <= i < registry.spec_services().len() && registry.spec_services()[i].handle == handle
}

/// The registry entry for a characteristic added with the given fields.
pub open spec fn added_characteristic(
    service_handle: u16,
    uuid_type: u8,
    data: Seq<u8>,
    properties: u8,
    max_len: u16,
    permissions: u8,
) -> CharacteristicInfo {
    CharacteristicInfo {
        service_handle,
        value_handle: characteristic_handles(properties).0,
        cccd_handle: characteristic_handles(properties).1,
        sccd_handle: characteristic_handles(properties).2,
        uuid_data: compact_uuid(uuid_type, data).1,
        properties,
        uuid_type: compact_uuid(uuid_type, data).0,
        max_len,
        current_len: 0,
        permissions,
        _reserved: 0,
    }
}

/// The UUID parsed from bytes of a known type is stored as `compact_uuid`
/// says, and resolves exactly when `uuid_resolvable` says.
proof fn lemma_parsed_uuid(uuid_type: u8, data: Seq<u8>, u: BleUuid)
    requires
        uuid_field_len(uuid_type) == Some(data.len()),
        match u {
            BleUuid::Uuid128(a) => uuid_type == 1 && data.len() >= 16 && a@ == data.subrange(0, 16),
            _ => Ok::<BleUuid, RegistryError>(u) == BleUuid::parse(uuid_type, data),
        },
    ensures
        u.compact() == compact_uuid(uuid_type, data),
        u is VendorSpecific <==> uuid_type == 2,
        u matches BleUuid::VendorSpecific { base_id, offset } ==> base_id == data[0],
{
}

/// What SERVICE_ADD does with payload `p`: its answer `r` and the registry
/// `after`, from the registry `before`.
pub open spec fn service_add_done(
    p: Seq<u8>,
    before: GattRegistry,
    after: GattRegistry,
    r: Result<TxPacket, CommandError>,
) -> bool {
    match parse_service_add(p) {
        None => replies(r, invalid_payload()) && same_registry(after, before),
        Some((t, d, st)) => if !uuid_resolvable(t, d, before.spec_uuid_bases().len()) {
            replies(r, invalid_payload()) && same_registry(after, before)
        } else if before.spec_services().len() < 8 {
            &&& replies(r, ack_outcome(be16(SERVICE_HANDLE)))
            &&& after.spec_services() == before.spec_services().push(
                added_service(t, d, st),
            )
            &&& after.spec_characteristics() == before.spec_characteristics()
            &&& after.spec_uuid_bases() == before.spec_uuid_bases()
        } else {
            replies(r, error_outcome(CommandError::StateError(StateError::ServicesExhausted)))
                && same_registry(after, before)
        },
    }
}

/// SERVICE_ADD: register a service with handle 0x0001 and answer with that
/// handle.  A malformed payload, or a vendor UUID whose base is not
/// registered, is answered with `InvalidPayload`; a full registry with
/// `StateError(ServicesExhausted)`.
pub fn handle_service_add(payload: &[u8], registry: &mut GattRegistry) -> (r: Result<TxPacket, CommandError>)
    ensures
        service_add_done(payload@, *old(registry), *final(registry), r),
{
    if payload.len() < 4 {
        return ResponseBuilder::build_error(CommandError::InvalidPayload);
    }
    let mut reader = PayloadReader::new(payload);
    let uuid_type = match reader.read_u8() {
        Ok(t) => t,
        Err(e) => return Err(CommandError::ProtocolError(e)),
    };
    let uuid_len: usize = match uuid_type {
        0 => {
            if reader.remaining() < 2 {
                return ResponseBuilder::build_error(CommandError::InvalidPayload);
            }
            2
        },
        1 => {
            if reader.remaining() < 16 {
                return ResponseBuilder::build_error(CommandError::InvalidPayload);
            }
            16
        },
        2 => {
            if reader.remaining() < 3 {
                return ResponseBuilder::build_error(CommandError::InvalidPayload);
            }
            3
        },
        _ => {
            return ResponseBuilder::build_error(CommandError::InvalidPayload);
        },
    };
    let uuid_data = vstd::slice::slice_subrange(payload, 1, 1 + uuid_len);
    let service_type_offset = 1 + uuid_len;
    if payload.len() <= service_type_offset {
        return ResponseBuilder::build_error(CommandError::InvalidPayload);
    }
    let service_type_byte = payload[service_type_offset];
    let service_type = match service_type_byte {
        1 => ServiceType::Primary,
        2 => ServiceType::Secondary,
        _ => {
            return ResponseBuilder::build_error(CommandError::InvalidPayload);
        },
    };
    let ble_uuid = match BleUuid::from_payload(uuid_type, uuid_data) {
        Ok(uuid) => uuid,
        Err(_) => {
            return ResponseBuilder::build_error(CommandError::InvalidPayload);
        },
    };
    proof {
        lemma_parsed_uuid(uuid_type, uuid_data@, ble_uuid);
    }
    if ble_uuid.to_softdevice_uuid(registry).is_none() {
        return ResponseBuilder::build_error(CommandError::InvalidPayload);
    }
    let service_handle = SERVICE_HANDLE;
    match registry.add_service(service_handle, ble_uuid, service_type) {
        Ok(()) => {},
        Err(_) => {
            return ResponseBuilder::build_error(
                CommandError::StateError(StateError::ServicesExhausted),
            );
        },
    }
    let mut response = ResponseBuilder::new();
    match response.add_u16(service_handle) {
        Ok(()) => {},
        Err(e) => return Err(e),
    }
    response.build(ResponseCode::Ack)
}

/// What CHARACTERISTIC_ADD does with payload `p`: its answer `r` and the
/// registry `after`, from the registry `before`.
pub open spec fn characteristic_add_done(
    p: Seq<u8>,
    before: GattRegistry,
    after: GattRegistry,
    r: Result<TxPacket, CommandError>,
) -> bool {
    &&& (p.len() < 8 || !service_registered(
            before,
            be16_value(p[0], p[1]),
        ) ==> replies(r, invalid_payload()) && same_registry(after, before))
    &&& (p.len() >= 8 && service_registered(
            before,
            be16_value(p[0], p[1]),
        ) ==> match parse_characteristic_add(p) {
            CharAddRequest::Invalid => replies(r, invalid_payload()) && same_registry(
                after,
                before,
            ),
            CharAddRequest::Truncated => r == Err::<TxPacket, CommandError>(
                CommandError::ProtocolError(ProtocolError::InvalidData),
            ) && same_registry(after, before),
            CharAddRequest::Parsed { uuid_type, uuid_data, properties, max_len, permissions } => {
                let handles = characteristic_handles(properties);
                if before.spec_characteristics().len() < 32 {
                    &&& replies(
                        r,
                        ack_outcome(be16(handles.0) + be16(handles.1) + be16(handles.2)),
                    )
                    &&& after.spec_characteristics() == before.spec_characteristics().push(
                        added_characteristic(
                            be16_value(p[0], p[1]),
                            uuid_type,
                            uuid_data,
                            properties,
                            max_len,
                            permissions,
                        ),
                    )
                    &&& after.spec_services() == before.spec_services()
                    &&& after.spec_uuid_bases() == before.spec_uuid_bases()
                } else {
                    replies(
                        r,
                        error_outcome(CommandError::StateError(StateError::CharacteristicsExhausted)),
                    ) && same_registry(after, before)
                }
            },
        })
}

/// CHARACTERISTIC_ADD: register a characteristic of a registered service
/// and answer with its value, CCCD and SCCD handles.  A malformed payload
/// or an unknown service is answered with `InvalidPayload`; a fixed field
/// past the end gives `ProtocolError(InvalidData)`; a full registry is
/// answered with `StateError(CharacteristicsExhausted)`.
pub fn handle_characteristic_add(payload: &[u8], registry: &mut GattRegistry) -> (r: Result<
    TxPacket,
    CommandError,
>)
    ensures
        characteristic_add_done(payload@, *old(registry), *final(registry), r),
{
    if payload.len() < 8 {
        return ResponseBuilder::build_error(CommandError::InvalidPayload);
    }
    let mut reader = PayloadReader::new(payload);
    let service_handle = match reader.read_u16() {
        Ok(h) => h,
        Err(e) => return Err(CommandError::ProtocolError(e)),
    };
    if registry.find_service(service_handle).is_none() {
        return ResponseBuilder::build_error(CommandError::InvalidPayload);
    }
    let uuid_type = match reader.read_u8() {
        Ok(t) => t,
        Err(e) => return Err(CommandError::ProtocolError(e)),
    };
    let uuid_len: usize = match uuid_type {
        0 => 2,
        1 => 16,
        2 => 3,
        _ => {
            return ResponseBuilder::build_error(CommandError::InvalidPayload);
        },
    };
    if reader.remaining() < uuid_len {
        return ResponseBuilder::build_error(CommandError::InvalidPayload);
    }
    let uuid_data = match reader.read_slice(uuid_len) {
        Ok(d) => d,
        Err(e) => return Err(CommandError::ProtocolError(e)),
    };
    let properties = match reader.read_u8() {
        Ok(p) => p,
        Err(e) => return Err(CommandError::ProtocolError(e)),
    };
    let max_length = match reader.read_u16() {
        Ok(m) => m,
        Err(e) => return Err(CommandError::ProtocolError(e)),
    };
    let initial_value_len = match reader.read_u8() {
        Ok(l) => l as usize,
        Err(e) => return Err(CommandError::ProtocolError(e)),
    };
    if reader.remaining() < initial_value_len {
        return ResponseBuilder::build_error(CommandError::InvalidPayload);
    }
    let _initial_value = match reader.read_slice(initial_value_len) {
        Ok(v) => v,
        Err(e) => return Err(CommandError::ProtocolError(e)),
    };
    let permissions = if reader.remaining() > 0 {
        match reader.read_u8() {
            Ok(p) => p,
            Err(e) => return Err(CommandError::ProtocolError(e)),
        }
    } else {
        0x00
    };
    let ble_uuid = match BleUuid::from_payload(uuid_type, uuid_data) {
        Ok(uuid) => uuid,
        Err(_) => {
            return ResponseBuilder::build_error(CommandError::InvalidPayload);
        },
    };
    proof {
        lemma_parsed_uuid(uuid_type, uuid_data@, ble_uuid);
    }
    let value_handle = VALUE_HANDLE;
    let cccd_handle: u16 = if properties & 0x10 != 0 || properties & 0x20 != 0 {
        CCCD_HANDLE
    } else {
        0x0000
    };
    proof {
        assert((properties & 0x10 != 0 || properties & 0x20 != 0) == (properties & 0x30 != 0))
            by (bit_vector);
    }
    let sccd_handle: u16 = 0x0000;
    match registry.add_characteristic(
        service_handle,
        value_handle,
        cccd_handle,
        sccd_handle,
        ble_uuid,
        properties,
        max_length,
        permissions,
    ) {
        Ok(()) => {},
        Err(_) => {
            return ResponseBuilder::build_error(
                CommandError::StateError(StateError::CharacteristicsExhausted),
            );
        },
    }
    let mut response = ResponseBuilder::new();
    match response.add_u16(value_handle) {
        Ok(()) => {},
        Err(e) => return Err(e),
    }
    match response.add_u16(cccd_handle) {
        Ok(()) => {},
        Err(e) => return Err(e),
    }
    match response.add_u16(sccd_handle) {
        Ok(()) => {},
        Err(e) => return Err(e),
    }
    proof {
        assert(response@ =~= be16(value_handle) + be16(cccd_handle) + be16(sccd_handle));
    }
    response.build(ResponseCode::Ack)
}

/// Whether an HVX payload `[conn (2)][handle (2)][type][length (2)][data]`
/// is well formed: the data fits and the type is notification (1) or
/// indication (2).
pub open spec fn hvx_valid(p: Seq<u8>) -> bool {
    &&& p.len() >= 7
    &&& p.len() - 7 >= be16_value(p[5], p[6])
    &&& (p[4] == 1 || p[4] == 2)
}

/// HVX: acknowledge a well-formed notification or indication request;
/// answer anything else with `InvalidPayload`.
pub fn handle_hvx(payload: &[u8]) -> (r: Result<TxPacket, CommandError>)
    ensures
        hvx_valid(payload@) ==> replies(r, ack_outcome(Seq::empty())),
        !hvx_valid(payload@) ==> replies(r, invalid_payload()),
{
    if payload.len() < 7 {
        return ResponseBuilder::build_error(CommandError::InvalidPayload);
    }
    let mut reader = PayloadReader::new(payload);
    let _conn_handle = match reader.read_u16() {
        Ok(v) => v,
        Err(e) => return Err(CommandError::ProtocolError(e)),
    };
    let _char_handle = match reader.read_u16() {
        Ok(v) => v,
        Err(e) => return Err(CommandError::ProtocolError(e)),
    };
    let hvx_type = match reader.read_u8() {
        Ok(v) => v,
        Err(e) => return Err(CommandError::ProtocolError(e)),
    };
    let data_length = match reader.read_u16() {
        Ok(v) => v as usize,
        Err(e) => return Err(CommandError::ProtocolError(e)),
    };
    if reader.remaining() < data_length {
        return ResponseBuilder::build_error(CommandError::InvalidPayload);
    }
    let _data = match reader.read_slice(data_length) {
        Ok(d) => d,
        Err(e) => return Err(CommandError::ProtocolError(e)),
    };
    match hvx_type {
        0x01 => {},
        0x02 => {},
        _ => {
            return ResponseBuilder::build_error(CommandError::InvalidPayload);
        },
    }
    ResponseBuilder::build_ack()
}

/// MTU_REPLY: acknowledge a `[conn (2)][MTU (2)]` payload; a shorter one is
/// answered with `InvalidPayload`.
pub fn handle_mtu_reply(payload: &[u8]) -> (r: Result<TxPacket, CommandError>)
    ensures
        payload@.len() >= 4 ==> replies(r, ack_outcome(Seq::empty())),
        payload@.len() < 4 ==> replies(r, invalid_payload()),
{
    if payload.len() < 4 {
        return ResponseBuilder::build_error(CommandError::InvalidPayload);
    }
    let mut reader = PayloadReader::new(payload);
    let _conn_handle = match reader.read_u16() {
        Ok(v) => v,
        Err(e) => return Err(CommandError::ProtocolError(e)),
    };
    let _mtu = match reader.read_u16() {
        Ok(v) => v,
        Err(e) => return Err(CommandError::ProtocolError(e)),
    };
    ResponseBuilder::build_ack()
}

/// Whether a SYS_ATTR_SET payload `[conn (2)][length (2)][data]` is well
/// formed: the data fits.
pub open spec fn sys_attr_valid(p: Seq<u8>) -> bool {
    p.len() >= 4 && p.len() - 4 >= be16_value(p[2], p[3])
}

/// SYS_ATTR_SET: acknowledge a well-formed payload; answer anything else
/// with `InvalidPayload`.
pub fn handle_sys_attr_set(payload: &[u8]) -> (r: Result<TxPacket, CommandError>)
    ensures
        sys_attr_valid(payload@) ==> replies(r, ack_outcome(Seq::empty())),
        !sys_attr_valid(payload@) ==> replies(r, invalid_payload()),
{
    if payload.len() < 4 {
        return ResponseBuilder::build_error(CommandError::InvalidPayload);
    }
    let mut reader = PayloadReader::new(payload);
    let _conn_handle = match reader.read_u16() {
        Ok(v) => v,
        Err(e) => return Err(CommandError::ProtocolError(e)),
    };
    let attr_length = match reader.read_u16() {
        Ok(v) => v as usize,
        Err(e) => return Err(CommandError::ProtocolError(e)),
    };
    if reader.remaining() < attr_length {
        return ResponseBuilder::build_error(CommandError::InvalidPayload);
    }
    let _sys_attr_data = match reader.read_slice(attr_length) {
        Ok(d) => d,
        Err(e) => return Err(CommandError::ProtocolError(e)),
    };
    ResponseBuilder::build_ack()
}

/// A characteristic that CHARACTERISTIC_ADD registers gets a client
/// configuration descriptor exactly when its properties allow notify
/// (0x10) or indicate (0x20): its stored CCCD handle is then non-zero, and
/// 0 otherwise.  The answer carries the stored handles big-endian after
/// the response header: the value handle (non-zero) at bytes 4..6 and the
/// CCCD handle at bytes 6..8.
pub proof fn lemma_characteristic_cccd(
    p: Seq<u8>,
    before: GattRegistry,
    after: GattRegistry,
    r: Result<TxPacket, CommandError>,
)
    requires
        characteristic_add_done(p, before, after, r),
        p.len() >= 8,
        service_registered(before, be16_value(p[0], p[1])),
        parse_characteristic_add(p) is Parsed,
        before.spec_characteristics().len() < 32,
    ensures
        ({
            let props = parse_characteristic_add(p)->properties;
            let wants_cccd = props & 0x10u8 != 0u8 || props & 0x20u8 != 0u8;
            let c = after.spec_characteristics().last();
            &&& after.spec_characteristics().len() == before.spec_characteristics().len() + 1
            &&& c.properties == props
            &&& (c.cccd_handle != 0) == wants_cccd
            &&& c.value_handle != 0
            &&& r matches Ok(pkt) && pkt@.len() == 12 && pkt@[4] * 256 + pkt@[5] == c.value_handle
                && pkt@[6] * 256 + pkt@[7] == c.cccd_handle
        }),
{
    let props = parse_characteristic_add(p)->properties;
    assert((props & 0x30u8 != 0u8) == (props & 0x10u8 != 0u8 || props & 0x20u8 != 0u8))
        by (bit_vector);
    let h = characteristic_handles(props);
    let payload = be16(h.0) + be16(h.1) + be16(h.2);
    assert(payload.len() == 6);
    let f = response_frame(ResponseCode::Ack.value(), payload);
    assert(f[4] == payload[0] && f[5] == payload[1] && f[6] == payload[2] && f[7] == payload[3]);
    assert(be16(0x0010u16) =~= seq![0u8, 0x10u8]);
    assert(be16(0x0011u16) =~= seq![0u8, 0x11u8]);
    assert(be16(0u16) =~= seq![0u8, 0u8]);
}

} // verus!
