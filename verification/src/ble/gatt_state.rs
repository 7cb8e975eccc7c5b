//! Modem state: UUID bases, dynamic services and characteristics,
//! connection and advertising state, device configuration.
use vstd::prelude::*;
use vstd::string::StringSliceAdditionalSpecFns;

use crate::ble::registry::SdUuid;
use crate::collections::{
    characteristic_list_contents, handle_map_contents, name_string_contents, service_list_contents,
    uuid_base_list_contents, CharacteristicList, HandleMap, NameString, ServiceList, UuidBaseList,
};

verus! {

/// Maximum number of registered UUID bases.
pub const MAX_UUID_BASES: usize = 4;

/// Maximum number of services.
pub const MAX_SERVICES: usize = 16;

/// Maximum number of characteristics.
pub const MAX_CHARACTERISTICS: usize = 64;

/// The name a device starts with.
pub const DEFAULT_DEVICE_NAME: &'static str = "BLE-Modem";

/// UUID base entry.
#[derive(Debug, Clone, Copy)]
pub struct UuidBase {
    pub base: [u8; 16],
    pub handle: u8,
}

/// Service information.
#[derive(Debug, Clone, Copy)]
pub struct ServiceInfo {
    pub handle: u16,
    pub uuid: SdUuid,
    pub service_type: ServiceType,
}

/// Characteristic information.
#[derive(Debug, Clone, Copy)]
pub struct CharacteristicInfo {
    pub service_handle: u16,
    pub value_handle: u16,
    pub cccd_handle: u16,
    pub sccd_handle: u16,
    pub uuid: SdUuid,
    pub properties: u8,
}

/// Service type.
#[derive(Debug, Clone, Copy, PartialEq, Eq, Structural)]
pub enum ServiceType {
    Primary,
    Secondary,
}

impl ServiceType {
    /// The number the protocol uses for a service type.
    pub open spec fn value(self) -> u8 {
        match self {
            ServiceType::Primary => 1,
            ServiceType::Secondary => 2,
        }
    }
}

/// Connection parameters.
#[derive(Debug, Clone, Copy)]
pub struct ConnectionParams {
    pub min_conn_interval: u16,
    pub max_conn_interval: u16,
    pub slave_latency: u16,
    pub conn_sup_timeout: u16,
}

impl ConnectionParams {
    /// The default parameters: 30 ms to 50 ms interval, no latency, 4 s
    /// supervision timeout.
    pub open spec fn spec_default() -> ConnectionParams {
        ConnectionParams {
            min_conn_interval: 24,
            max_conn_interval: 40,
            slave_latency: 0,
            conn_sup_timeout: 400,
        }
    }
}

impl Default for ConnectionParams {
    fn default() -> (r: Self)
        ensures
            r == ConnectionParams::spec_default(),
    {
        Self { min_conn_interval: 24, max_conn_interval: 40, slave_latency: 0, conn_sup_timeout: 400 }
    }
}

/// Advertising state.
#[derive(Debug, Clone, Copy, PartialEq, Eq, Structural)]
pub enum AdvertisingState {
    Stopped,
    Starting,
    Active,
    Stopping,
}

/// Connection state.
#[derive(Debug, Clone, Copy)]
pub struct ConnectionState {
    pub connected: bool,
    pub conn_handle: u16,
    pub peer_addr: [u8; 6],
    pub peer_addr_type: u8,
    pub mtu: u16,
    pub rssi_reporting: bool,
}

/// Device configuration.
#[derive(Clone)]
pub struct DeviceConfig {
    pub device_name: NameString,
    pub device_addr: [u8; 6],
    pub addr_type: u8,
    pub tx_power: i8,
    pub preferred_conn_params: ConnectionParams,
}

impl DeviceConfig {
    /// The bytes of the device name.
    pub open spec fn name_bytes(self) -> Seq<u8> {
        name_string_contents(self.device_name)
    }

    /// Whether this is the default configuration: name "BLE-Modem", zero
    /// address of type 0, 0 dBm, default connection parameters.
    pub open spec fn is_default(self) -> bool {
        &&& self.name_bytes() == DEFAULT_DEVICE_NAME.spec_bytes()
        &&& self.device_addr@ == seq![0u8, 0u8, 0u8, 0u8, 0u8, 0u8]
        &&& self.addr_type == 0
        &&& self.tx_power == 0
        &&& self.preferred_conn_params == ConnectionParams::spec_default()
    }
}

impl Default for DeviceConfig {
    fn default() -> (r: Self)
        ensures
            r.is_default(),
    {
        proof {
            reveal_strlit("BLE-Modem");
            vstd::string::is_ascii_spec_bytes(DEFAULT_DEVICE_NAME);
        }
        assert(vstd::string::is_ascii(DEFAULT_DEVICE_NAME));
        let device_name = NameString::try_from_str(DEFAULT_DEVICE_NAME).unwrap();
        let r = Self {
            device_name,
            device_addr: [0; 6],
            addr_type: 0,
            tx_power: 0,
            preferred_conn_params: ConnectionParams::default(),
        };
        assert(r.device_addr@ =~= seq![0u8, 0u8, 0u8, 0u8, 0u8, 0u8]);
        r
    }
}

/// State management errors.
#[derive(Debug, Clone, Copy, PartialEq, Eq)]
pub enum StateError {
    UuidBasesExhausted,
    ServicesExhausted,
    CharacteristicsExhausted,
    NameTooLong,
    InvalidHandle,
}

/// Main modem state structure.
pub struct ModemState {
    uuid_bases: UuidBaseList,
    services: ServiceList,
    characteristics: CharacteristicList,
    connection: Option<ConnectionState>,
    advertising_state: AdvertisingState,
    device_config: DeviceConfig,
    char_to_service_map: HandleMap,
}

/// Index of the first service with the given handle, if any.
pub open spec fn first_service_with_handle(services: Seq<ServiceInfo>, handle: u16) -> Option<int> {
    if exists|i: int| 0 <= i < services.len() && services[i].handle == handle {
        Some(
            choose|i: int|
                0 <= i < services.len() && services[i].handle == handle && forall|j: int|
                    0 <= j < i ==> services[j].handle != handle,
        )
    } else {
        None
    }
}

impl ModemState {
    #[verifier::type_invariant]
    spec fn inv(self) -> bool {
        &&& handle_map_contents(self.char_to_service_map).dom().finite()
        &&& handle_map_contents(self.char_to_service_map).dom().len() <= characteristic_list_contents(
            self.characteristics,
        ).len()
        &&& forall|i: int|
            0 <= i < uuid_base_list_contents(self.uuid_bases).len() ==> #[trigger] uuid_base_list_contents(
                self.uuid_bases,
            )[i].handle == i
    }

    /// The registered UUID bases; a base's handle is its index.
    pub closed spec fn spec_uuid_bases(self) -> Seq<UuidBase> {
        uuid_base_list_contents(self.uuid_bases)
    }

    /// The dynamic services, in the order added.
    pub closed spec fn spec_services(self) -> Seq<ServiceInfo> {
        service_list_contents(self.services)
    }

    /// The dynamic characteristics, in the order added.
    pub closed spec fn spec_characteristics(self) -> Seq<CharacteristicInfo> {
        characteristic_list_contents(self.characteristics)
    }

    /// Characteristic value handle to service handle.
    pub closed spec fn spec_char_map(self) -> Map<u16, u16> {
        handle_map_contents(self.char_to_service_map)
    }

    /// The current connection, if any.
    pub closed spec fn spec_connection(self) -> Option<ConnectionState> {
        self.connection
    }

    /// The advertising state.
    pub closed spec fn spec_advertising_state(self) -> AdvertisingState {
        self.advertising_state
    }

    /// The device configuration.
    pub closed spec fn spec_config(self) -> DeviceConfig {
        self.device_config
    }

    /// Everything but the device configuration is as in `other`.
    pub open spec fn same_except_config(self, other: ModemState) -> bool {
        &&& self.spec_uuid_bases() == other.spec_uuid_bases()
        &&& self.spec_services() == other.spec_services()
        &&& self.spec_characteristics() == other.spec_characteristics()
        &&& self.spec_char_map() == other.spec_char_map()
        &&& self.spec_connection() == other.spec_connection()
        &&& self.spec_advertising_state() == other.spec_advertising_state()
    }

    /// Everything is as in `other`.
    pub open spec fn same_as(self, other: ModemState) -> bool {
        self.same_except_config(other) && self.spec_config() == other.spec_config()
    }

    /// A fresh state: nothing registered, no connection, advertising
    /// stopped, default configuration.
    pub fn new() -> (r: Self)
        ensures
            r.spec_uuid_bases() == Seq::<UuidBase>::empty(),
            r.spec_services() == Seq::<ServiceInfo>::empty(),
            r.spec_characteristics() == Seq::<CharacteristicInfo>::empty(),
            r.spec_char_map() == Map::<u16, u16>::empty(),
            r.spec_connection() is None,
            r.spec_advertising_state() == AdvertisingState::Stopped,
            r.spec_config().is_default(),
    {
        Self {
            uuid_bases: UuidBaseList::new(),
            services: ServiceList::new(),
            characteristics: CharacteristicList::new(),
            connection: None,
            advertising_state: AdvertisingState::Stopped,
            device_config: DeviceConfig::default(),
            char_to_service_map: HandleMap::new(),
        }
    }

    /// Register a UUID base; its handle is the number registered before it.
    /// `UuidBasesExhausted` (and no change) when [`MAX_UUID_BASES`] are held.
    pub fn register_uuid_base(&mut self, base: [u8; 16]) -> (r: Result<u8, StateError>)
        ensures
            r is Ok <==> old(self).spec_uuid_bases().len() < MAX_UUID_BASES,
            r matches Ok(h) ==> h == old(self).spec_uuid_bases().len() && final(self).spec_uuid_bases()
                == old(self).spec_uuid_bases().push(UuidBase { base, handle: h }),
            r matches Err(e) ==> e == StateError::UuidBasesExhausted && final(self).spec_uuid_bases()
                == old(self).spec_uuid_bases(),
            final(self).spec_services() == old(self).spec_services(),
            final(self).spec_characteristics() == old(self).spec_characteristics(),
            final(self).spec_char_map() == old(self).spec_char_map(),
            final(self).spec_connection() == old(self).spec_connection(),
            final(self).spec_advertising_state() == old(self).spec_advertising_state(),
            final(self).spec_config() == old(self).spec_config(),
    {
        proof {
            use_type_invariant(&*self);
        }
        let len = self.uuid_bases.len();
        if len >= MAX_UUID_BASES {
            return Err(StateError::UuidBasesExhausted);
        }
        let handle = len as u8;
        let uuid_base = UuidBase { base, handle };
        match self.uuid_bases.push(uuid_base) {
            Ok(()) => Ok(handle),
            Err(_) => Err(StateError::UuidBasesExhausted),
        }
    }

    /// The UUID base with the given handle, if registered.
    pub fn get_uuid_base(&self, handle: u8) -> (r: Option<&UuidBase>)
        ensures
            r is Some <==> handle < self.spec_uuid_bases().len(),
            r matches Some(b) ==> *b == self.spec_uuid_bases()[handle as int] && b.handle == handle,
    {
        proof {
            use_type_invariant(self);
        }
        self.uuid_bases.get(handle as usize)
    }

    /// Add a service.  `ServicesExhausted` when [`MAX_SERVICES`] are held,
    /// else `InvalidHandle` when a service already has the handle; on error
    /// nothing changes.
    pub fn add_service(&mut self, handle: u16, uuid: SdUuid, service_type: ServiceType) -> (r: Result<
        (),
        StateError,
    >)
        ensures
            old(self).spec_services().len() >= MAX_SERVICES ==> r == Err::<(), StateError>(
                StateError::ServicesExhausted,
            ),
            old(self).spec_services().len() < MAX_SERVICES && (exists|i: int|
                0 <= i < old(self).spec_services().len() && old(self).spec_services()[i].handle
                    == handle) ==> r == Err::<(), StateError>(StateError::InvalidHandle),
            old(self).spec_services().len() < MAX_SERVICES && (forall|i: int|
                0 <= i < old(self).spec_services().len() ==> old(self).spec_services()[i].handle
                    != handle) ==> r is Ok,
            r is Ok ==> final(self).spec_services() == old(self).spec_services().push(
                ServiceInfo { handle, uuid, service_type },
            ),
            r is Err ==> final(self).spec_services() == old(self).spec_services(),
            final(self).spec_uuid_bases() == old(self).spec_uuid_bases(),
            final(self).spec_characteristics() == old(self).spec_characteristics(),
            final(self).spec_char_map() == old(self).spec_char_map(),
            final(self).spec_connection() == old(self).spec_connection(),
            final(self).spec_advertising_state() == old(self).spec_advertising_state(),
            final(self).spec_config() == old(self).spec_config(),
    {
        proof {
            use_type_invariant(&*self);
        }
        if self.services.len() >= MAX_SERVICES {
            return Err(StateError::ServicesExhausted);
        }
        if self.get_service(handle).is_some() {
            return Err(StateError::InvalidHandle);
        }
        let service_info = ServiceInfo { handle, uuid, service_type };
        match self.services.push(service_info) {
            Ok(()) => Ok(()),
            Err(_) => Err(StateError::ServicesExhausted),
        }
    }

    /// The first service with the given handle.
    pub fn get_service(&self, handle: u16) -> (r: Option<&ServiceInfo>)
        ensures
            r matches Some(s) ==> exists|i: int|
                0 <= i < self.spec_services().len() && self.spec_services()[i] == *s && s.handle
                    == handle && forall|j: int| 0 <= j < i ==> self.spec_services()[j].handle != handle,
            r is None ==> forall|i: int|
                0 <= i < self.spec_services().len() ==> self.spec_services()[i].handle != handle,
    {
        let services = self.services.as_slice();
        let mut i: usize = 0;
        while i < services.len()
            invariant
                i <= services@.len(),
                services@ == self.spec_services(),
                forall|j: int| 0 <= j < i ==> services@[j].handle != handle,
            decreases services@.len() - i,
        {
            if services[i].handle == handle {
                return Some(&services[i]);
            }
            i = i + 1;
        }
        None
    }

    /// Add a characteristic and record its service for its value handle;
    /// `CharacteristicsExhausted` (and no change) when
    /// [`MAX_CHARACTERISTICS`] are held.
    pub fn add_characteristic(&mut self, char_info: CharacteristicInfo) -> (r: Result<(), StateError>)
        ensures
            r is Ok <==> old(self).spec_characteristics().len() < MAX_CHARACTERISTICS,
            r is Ok ==> final(self).spec_characteristics() == old(self).spec_characteristics().push(
                char_info,
            ) && final(self).spec_char_map() == old(self).spec_char_map().insert(
                char_info.value_handle,
                char_info.service_handle,
            ),
            r matches Err(e) ==> e == StateError::CharacteristicsExhausted
                && final(self).spec_characteristics() == old(self).spec_characteristics()
                && final(self).spec_char_map() == old(self).spec_char_map(),
            final(self).spec_uuid_bases() == old(self).spec_uuid_bases(),
            final(self).spec_services() == old(self).spec_services(),
            final(self).spec_connection() == old(self).spec_connection(),
            final(self).spec_advertising_state() == old(self).spec_advertising_state(),
            final(self).spec_config() == old(self).spec_config(),
    {
        proof {
            use_type_invariant(&*self);
        }
        if self.characteristics.len() >= MAX_CHARACTERISTICS {
            return Err(StateError::CharacteristicsExhausted);
        }
        proof {
            vstd::set::axiom_set_insert_len(
                handle_map_contents(self.char_to_service_map).dom(),
                char_info.value_handle,
            );
        }
        match self.characteristics.push(char_info) {
            Ok(()) => {},
            Err(_) => return Err(StateError::CharacteristicsExhausted),
        }
        match self.char_to_service_map.insert(char_info.value_handle, char_info.service_handle) {
            Ok(_) => Ok(()),
            Err(_) => Err(StateError::CharacteristicsExhausted),
        }
    }

    /// The first characteristic with the given value handle.
    pub fn get_characteristic_by_handle(&self, handle: u16) -> (r: Option<&CharacteristicInfo>)
        ensures
            r matches Some(c) ==> exists|i: int|
                0 <= i < self.spec_characteristics().len() && self.spec_characteristics()[i] == *c
                    && c.value_handle == handle && forall|j: int|
                    0 <= j < i ==> self.spec_characteristics()[j].value_handle != handle,
            r is None ==> forall|i: int|
                0 <= i < self.spec_characteristics().len() ==> self.spec_characteristics()[i].value_handle
                    != handle,
    {
        let chars = self.characteristics.as_slice();
        let mut i: usize = 0;
        while i < chars.len()
            invariant
                i <= chars@.len(),
                chars@ == self.spec_characteristics(),
                forall|j: int| 0 <= j < i ==> chars@[j].value_handle != handle,
            decreases chars@.len() - i,
        {
            if chars[i].value_handle == handle {
                return Some(&chars[i]);
            }
            i = i + 1;
        }
        None
    }

    /// The service handle recorded for a characteristic value handle.
    pub fn get_service_handle_for_char(&self, char_handle: u16) -> (r: Option<u16>)
        ensures
            r is Some <==> self.spec_char_map().dom().contains(char_handle),
            r matches Some(h) ==> h == self.spec_char_map()[char_handle],
    {
        self.char_to_service_map.get(char_handle)
    }

    /// Replace the connection state.
    pub fn set_connection(&mut self, conn_state: Option<ConnectionState>)
        ensures
            final(self).spec_connection() == conn_state,
            final(self).spec_uuid_bases() == old(self).spec_uuid_bases(),
            final(self).spec_services() == old(self).spec_services(),
            final(self).spec_characteristics() == old(self).spec_characteristics(),
            final(self).spec_char_map() == old(self).spec_char_map(),
            final(self).spec_advertising_state() == old(self).spec_advertising_state(),
            final(self).spec_config() == old(self).spec_config(),
    {
        proof {
            use_type_invariant(&*self);
        }
        self.connection = conn_state;
    }

    /// The connection state, if connected.
    pub fn get_connection(&self) -> (r: Option<&ConnectionState>)
        ensures
            r matches Some(c) ==> self.spec_connection() == Some(*c),
            r is None ==> self.spec_connection() is None,
    {
        match &self.connection {
            Some(c) => Some(c),
            None => None,
        }
    }

    /// Set the advertising state.
    pub fn set_advertising_state(&mut self, state: AdvertisingState)
        ensures
            final(self).spec_advertising_state() == state,
            final(self).spec_uuid_bases() == old(self).spec_uuid_bases(),
            final(self).spec_services() == old(self).spec_services(),
            final(self).spec_characteristics() == old(self).spec_characteristics(),
            final(self).spec_char_map() == old(self).spec_char_map(),
            final(self).spec_connection() == old(self).spec_connection(),
            final(self).spec_config() == old(self).spec_config(),
    {
        proof {
            use_type_invariant(&*self);
        }
        self.advertising_state = state;
    }

    /// The advertising state.
    pub fn get_advertising_state(&self) -> (r: AdvertisingState)
        ensures
            r == self.spec_advertising_state(),
    {
        self.advertising_state
    }

    /// Set the device name; `NameTooLong` (and no change) when its bytes
    /// exceed 32.
    pub fn set_device_name(&mut self, name: &str) -> (r: Result<(), StateError>)
        ensures
            r is Ok <==> name.spec_bytes().len() <= 32,
            r is Ok ==> final(self).spec_config().name_bytes() == name.spec_bytes(),
            r matches Err(e) ==> e == StateError::NameTooLong && final(self).spec_config()
                == old(self).spec_config(),
            final(self).spec_config().device_addr == old(self).spec_config().device_addr,
            final(self).spec_config().addr_type == old(self).spec_config().addr_type,
            final(self).spec_config().tx_power == old(self).spec_config().tx_power,
            final(self).spec_config().preferred_conn_params == old(
                self,
            ).spec_config().preferred_conn_params,
            final(self).same_except_config(*old(self)),
    {
        proof {
            use_type_invariant(&*self);
        }
        match NameString::try_from_str(name) {
            Some(device_name) => {
                self.device_config.device_name = device_name;
                Ok(())
            },
            None => Err(StateError::NameTooLong),
        }
    }

    /// The device name.
    pub fn get_device_name(&self) -> (r: &str)
        ensures
            r.spec_bytes() == self.spec_config().name_bytes(),
    {
        self.device_config.device_name.as_str()
    }

    /// Set the device address and its type.
    pub fn set_device_address(&mut self, addr: [u8; 6], addr_type: u8)
        ensures
            final(self).spec_config() == (DeviceConfig {
                device_addr: addr,
                addr_type,
                ..old(self).spec_config()
            }),
            final(self).same_except_config(*old(self)),
    {
        proof {
            use_type_invariant(&*self);
        }
        self.device_config.device_addr = addr;
        self.device_config.addr_type = addr_type;
    }

    /// The device address and its type.
    pub fn get_device_address(&self) -> (r: ([u8; 6], u8))
        ensures
            r == (self.spec_config().device_addr, self.spec_config().addr_type),
    {
        (self.device_config.device_addr, self.device_config.addr_type)
    }

    /// Set the TX power.
    pub fn set_tx_power(&mut self, power: i8)
        ensures
            final(self).spec_config() == (DeviceConfig { tx_power: power, ..old(self).spec_config() }),
            final(self).same_except_config(*old(self)),
    {
        proof {
            use_type_invariant(&*self);
        }
        self.device_config.tx_power = power;
    }

    /// The TX power.
    pub fn get_tx_power(&self) -> (r: i8)
        ensures
            r == self.spec_config().tx_power,
    {
        self.device_config.tx_power
    }

    /// Set the preferred connection parameters.
    pub fn set_preferred_conn_params(&mut self, params: ConnectionParams)
        ensures
            final(self).spec_config() == (DeviceConfig {
                preferred_conn_params: params,
                ..old(self).spec_config()
            }),
            final(self).same_except_config(*old(self)),
    {
        proof {
            use_type_invariant(&*self);
        }
        self.device_config.preferred_conn_params = params;
    }

    /// The preferred connection parameters.
    pub fn get_preferred_conn_params(&self) -> (r: &ConnectionParams)
        ensures
            *r == self.spec_config().preferred_conn_params,
    {
        &self.device_config.preferred_conn_params
    }

    /// Clear all dynamic GATT data: services, characteristics and the
    /// handle map.  UUID bases stay.
    pub fn clear_gatt_data(&mut self)
        ensures
            final(self).spec_services() == Seq::<ServiceInfo>::empty(),
            final(self).spec_characteristics() == Seq::<CharacteristicInfo>::empty(),
            final(self).spec_char_map() == Map::<u16, u16>::empty(),
            final(self).spec_uuid_bases() == old(self).spec_uuid_bases(),
            final(self).spec_connection() == old(self).spec_connection(),
            final(self).spec_advertising_state() == old(self).spec_advertising_state(),
            final(self).spec_config() == old(self).spec_config(),
    {
        proof {
            use_type_invariant(&*self);
        }
        self.char_to_service_map.clear();
        self.services.clear();
        self.characteristics.clear();
    }
}

impl Default for ModemState {
    fn default() -> (r: Self)
        ensures
            r.spec_uuid_bases() == Seq::<UuidBase>::empty(),
            r.spec_services() == Seq::<ServiceInfo>::empty(),
            r.spec_characteristics() == Seq::<CharacteristicInfo>::empty(),
            r.spec_char_map() == Map::<u16, u16>::empty(),
            r.spec_connection() is None,
            r.spec_advertising_state() == AdvertisingState::Stopped,
            r.spec_config().is_default(),
    {
        Self::new()
    }
}


/// A registered UUID base reads back under the handle it was given, and the
/// bases registered before it keep their handles.
pub proof fn lemma_registered_base_read_back(bases: Seq<UuidBase>, base: [u8; 16])
    ensures
        ({
            let after = bases.push(UuidBase { base, handle: bases.len() as u8 });
            &&& after[bases.len() as int].base == base
            &&& forall|i: int| 0 <= i < bases.len() ==> after[i] == bases[i]
        }),
{
}

} // verus!
