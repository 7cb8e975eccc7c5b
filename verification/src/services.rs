//! The GATT server: the dynamic server plus the events it forwards.
use vstd::prelude::*;

use crate::ble::dynamic::{handle_or_zero, write_classified, DynamicGattEvent, DynamicGattServer};
use crate::ble::events::BleModemEvent;
use crate::ble::registry::GattRegistry;

verus! {

/// Server events: those of the dynamic server.
pub type ServerEvent = DynamicGattEvent;

/// Main GATT server: no static services, all created at run time.
pub struct Server {
    dynamic_server: DynamicGattServer,
}

impl Server {
    /// A server with no static services.
    pub fn new() -> (r: Self) {
        Self { dynamic_server: DynamicGattServer::new() }
    }

    /// The numbers of registered services, characteristics and UUID bases.
    pub fn stats(&self, registry: &GattRegistry) -> (r: (u8, u8, u8))
        ensures
            r.0 == registry.spec_services().len(),
            r.1 == registry.spec_characteristics().len(),
            r.2 == registry.spec_uuid_bases().len(),
    {
        self.dynamic_server.stats(registry)
    }

    /// The event to forward to the host for a server event: a CCCD write
    /// is forwarded; value writes (forwarded when they happen) and MTU
    /// exchanges are not.
    pub fn handle_gatt_event(&self, event: DynamicGattEvent) -> (r: Option<BleModemEvent>)
        ensures
            match event {
                DynamicGattEvent::CccdWrite { conn_handle, char_handle, notifications, indications } => r
                    == Some(
                    BleModemEvent::CccdWrite { conn_handle, char_handle, notifications, indications },
                ),
                _ => r is None,
            },
    {
        match event {
            DynamicGattEvent::CccdWrite { conn_handle, char_handle, notifications, indications } => {
                Some(
                    crate::ble::events::create_cccd_write_event(
                        conn_handle,
                        char_handle,
                        notifications,
                        indications,
                    ),
                )
            },
            _ => None,
        }
    }

    /// What a client's write means, as the dynamic server decides.
    pub fn on_write(&self, registry: &GattRegistry, conn_handle: Option<u16>, handle: u16, data: &[u8]) -> (r:
        Option<DynamicGattEvent>)
        ensures
            write_classified(
                registry.spec_characteristics(),
                handle_or_zero(conn_handle),
                handle,
                data@,
                r,
            ),
    {
        self.dynamic_server.on_write(registry, conn_handle, handle, data)
    }
}

} // verus!
