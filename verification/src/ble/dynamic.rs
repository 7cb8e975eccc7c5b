//! The dynamic GATT server: what a client's write to a dynamically created
//! attribute means, and the event forwarded to the host for it.
use vstd::prelude::*;

use crate::ble::events::{create_cccd_write_event, create_gatts_write_event, BleModemEvent};
use crate::ble::registry::{CharacteristicInfo, GattRegistry};
use crate::collections::ATTR_BUF_CAPACITY;

verus! {

/// Dynamic GATT server events.
#[derive(Debug, Clone, Copy, PartialEq, Eq, Structural)]
pub enum DynamicGattEvent {
    /// A characteristic value was written by the client.
    CharacteristicWrite { conn_handle: u16, char_handle: u16, data_len: u8 },
    /// A CCCD was written (notifications or indications switched).
    CccdWrite { conn_handle: u16, char_handle: u16, notifications: bool, indications: bool },
    /// The MTU was exchanged.
    MtuExchange { conn_handle: u16, mtu: u16 },
}

/// `c` is the first characteristic whose CCCD handle is `handle`.
pub open spec fn first_by_cccd(chars: Seq<CharacteristicInfo>, handle: u16, c: CharacteristicInfo) -> bool {
    exists|i: int|
        0 <= i < chars.len() && chars[i] == c && c.cccd_handle == handle && forall|j: int|
            0 <= j < i ==> chars[j].cccd_handle != handle
}

/// Some characteristic has the CCCD handle `handle` (0 is no handle).
pub open spec fn has_cccd(chars: Seq<CharacteristicInfo>, handle: u16) -> bool {
    handle != 0 && exists|i: int| 0 <= i < chars.len() && chars[i].cccd_handle == handle
}

/// Some characteristic has the value handle `handle`.
pub open spec fn has_value(chars: Seq<CharacteristicInfo>, handle: u16) -> bool {
    exists|i: int| 0 <= i < chars.len() && chars[i].value_handle == handle
}

/// The connection handle of a connection, 0 when it has none.
pub open spec fn handle_or_zero(conn_handle: Option<u16>) -> u16 {
    match conn_handle {
        Some(h) => h,
        None => 0,
    }
}

/// What a write of `data` to attribute `handle` on a connection is: a CCCD
/// write when `handle` is a characteristic's CCCD and data was written (bit
/// 0 notifications, bit 1 indications); else a value write when `handle`
/// is a characteristic's value (its length capped at 255); else nothing.
pub open spec fn write_classified(
    chars: Seq<CharacteristicInfo>,
    conn_handle: u16,
    handle: u16,
    data: Seq<u8>,
    r: Option<DynamicGattEvent>,
) -> bool {
    let cccd = has_cccd(chars, handle) && data.len() > 0;
    match r {
        Some(DynamicGattEvent::CccdWrite { conn_handle: c, char_handle, notifications, indications }) => {
            &&& cccd
            &&& c == conn_handle
            &&& exists|ch: CharacteristicInfo| first_by_cccd(chars, handle, ch) && ch.value_handle == char_handle
            &&& notifications == (data[0] & 1 != 0)
            &&& indications == (data[0] & 2 != 0)
        },
        Some(DynamicGattEvent::CharacteristicWrite { conn_handle: c, char_handle, data_len }) => {
            &&& !cccd
            &&& has_value(chars, handle)
            &&& c == conn_handle
            &&& char_handle == handle
            &&& data_len == (if data.len() < 255 {
                data.len()
            } else {
                255
            })
        },
        Some(DynamicGattEvent::MtuExchange { .. }) => false,
        None => !cccd && !has_value(chars, handle),
    }
}

/// Dynamic GATT server: all services are created at run time.
pub struct DynamicGattServer {}

impl DynamicGattServer {
    /// A server with no static services.
    pub fn new() -> (r: Self) {
        Self {}
    }

    /// The numbers of registered services, characteristics and UUID bases.
    pub fn stats(&self, registry: &GattRegistry) -> (r: (u8, u8, u8))
        ensures
            r.0 == registry.spec_services().len(),
            r.1 == registry.spec_characteristics().len(),
            r.2 == registry.spec_uuid_bases().len(),
    {
        registry.stats()
    }

    /// What a client's write means (see [`write_classified`]).
    pub fn on_write(&self, registry: &GattRegistry, conn_handle: Option<u16>, handle: u16, data: &[u8]) -> (r:
        Option<DynamicGattEvent>)
        ensures
            write_classified(
                registry.spec_characteristics(),
                handle_or_zero(conn_handle),
                handle,
                data@,
                r,
            ),
    {
        let ch = match conn_handle {
            Some(h) => h,
            None => 0,
        };
        match registry.find_characteristic_by_cccd_handle(handle) {
            Some(char_info) => {
                if data.len() > 0 {
                    proof {
                        assert(first_by_cccd(registry.spec_characteristics(), handle, *char_info));
                    }
                    let notifications = (data[0] & 0x01) != 0;
                    let indications = (data[0] & 0x02) != 0;
                    return Some(
                        DynamicGattEvent::CccdWrite {
                            conn_handle: ch,
                            char_handle: char_info.value_handle,
                            notifications,
                            indications,
                        },
                    );
                }
            },
            None => {},
        }
        if registry.find_characteristic_by_value_handle(handle).is_some() {
            let data_len: u8 = if data.len() < 255 {
                data.len() as u8
            } else {
                255
            };
            return Some(DynamicGattEvent::CharacteristicWrite { conn_handle: ch, char_handle: handle, data_len });
        }
        None
    }

    /// What a client's write means, and the event to forward to the host
    /// for it: a CCCD write event, or a GATT write event carrying the data
    /// (none when the data is longer than 64 bytes).
    pub fn handle_write_event(
        &self,
        registry: &GattRegistry,
        conn_handle: Option<u16>,
        handle: u16,
        data: &[u8],
    ) -> (r: (Option<DynamicGattEvent>, Option<BleModemEvent>))
        ensures
            write_classified(
                registry.spec_characteristics(),
                handle_or_zero(conn_handle),
                handle,
                data@,
                r.0,
            ),
            match r.0 {
                Some(DynamicGattEvent::CccdWrite { conn_handle, char_handle, notifications, indications }) => r.1
                    == Some(
                    BleModemEvent::CccdWrite { conn_handle, char_handle, notifications, indications },
                ),
                Some(DynamicGattEvent::CharacteristicWrite { conn_handle, char_handle, .. }) => if data@.len()
                    <= ATTR_BUF_CAPACITY {
                    r.1 matches Some(BleModemEvent::GattsWrite { conn_handle: c, char_handle: h, data: d })
                        && c == conn_handle && h == char_handle && d@ == data@
                } else {
                    r.1 is None
                },
                _ => r.1 is None,
            },
    {
        let event = self.on_write(registry, conn_handle, handle, data);
        let forwarded = match event {
            Some(DynamicGattEvent::CccdWrite { conn_handle, char_handle, notifications, indications }) => {
                Some(create_cccd_write_event(conn_handle, char_handle, notifications, indications))
            },
            Some(DynamicGattEvent::CharacteristicWrite { conn_handle, char_handle, .. }) => {
                match create_gatts_write_event(conn_handle, char_handle, data) {
                    Ok(e) => Some(e),
                    Err(()) => None,
                }
            },
            _ => None,
        };
        (event, forwarded)
    }
}

/// The characteristic properties handed to a service builder, from the
/// property byte.
#[derive(Debug, Clone, Copy, PartialEq, Eq, Structural)]
pub struct BuilderProperties {
    pub read: bool,
    pub write: bool,
    pub write_without_response: bool,
    pub notify: bool,
    pub indicate: bool,
    pub broadcast: bool,
    pub signed_write: bool,
}

/// The builder properties for a property byte: read 0x02, write 0x08,
/// write without response 0x04, notify 0x10, indicate 0x20, broadcast 0x01,
/// authenticated signed writes 0x40.
pub fn builder_properties(properties: u8) -> (r: BuilderProperties)
    ensures
        r == (BuilderProperties {
            read: properties & 0x02 != 0,
            write: properties & 0x08 != 0,
            write_without_response: properties & 0x04 != 0,
            notify: properties & 0x10 != 0,
            indicate: properties & 0x20 != 0,
            broadcast: properties & 0x01 != 0,
            signed_write: properties & 0x40 != 0,
        }),
{
    BuilderProperties {
        read: properties & 0x02 != 0,
        write: properties & 0x08 != 0,
        write_without_response: properties & 0x04 != 0,
        notify: properties & 0x10 != 0,
        indicate: properties & 0x20 != 0,
        broadcast: properties & 0x01 != 0,
        signed_write: properties & 0x40 != 0,
    }
}

} // verus!
