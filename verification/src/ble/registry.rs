//! GATT registry: fixed-size storage for dynamically created services,
//! characteristics and vendor UUID bases.
use vstd::prelude::*;

verus! {

/// Maximum number of services we can register.
pub const MAX_SERVICES: usize = 8;

/// Maximum number of characteristics we can register.
pub const MAX_CHARACTERISTICS: usize = 32;

/// Maximum number of UUID bases we can register.
pub const MAX_UUID_BASES: usize = 4;

/// Compact service representation.
#[derive(Debug, Clone, Copy, PartialEq, Eq)]
pub struct ServiceInfo {
    pub handle: u16,
    /// 0 = 16-bit, 1 = 128-bit, 2 = vendor specific
    pub uuid_type: u8,
    /// 16-bit UUID or vendor offset
    pub uuid_data: u16,
    /// Primary = 1, Secondary = 2
    pub service_type: u8,
    pub _reserved: u8,
}

/// Compact characteristic representation.
#[derive(Debug, Clone, Copy, PartialEq, Eq)]
pub struct CharacteristicInfo {
    pub service_handle: u16,
    pub value_handle: u16,
    /// 0 if not present
    pub cccd_handle: u16,
    /// 0 if not present
    pub sccd_handle: u16,
    pub uuid_data: u16,
    pub properties: u8,
    pub uuid_type: u8,
    pub max_len: u16,
    pub current_len: u16,
    pub permissions: u8,
    pub _reserved: u8,
}

/// Service type.
#[derive(Debug, Clone, Copy, PartialEq, Eq)]
pub enum ServiceType {
    Primary,
    Secondary,
}

impl ServiceType {
    /// The stored encoding of a service type.
    pub open spec fn value(self) -> u8 {
        match self {
            ServiceType::Primary => 1,
            ServiceType::Secondary => 2,
        }
    }

    /// The stored encoding of a service type.
    pub fn to_u8(self) -> (r: u8)
        ensures
            r == self.value(),
    {
        match self {
            ServiceType::Primary => 1,
            ServiceType::Secondary => 2,
        }
    }
}

/// UUID type.
#[derive(Debug, Clone, Copy, PartialEq, Eq)]
pub enum UuidType {
    Uuid16,
    Uuid128,
    VendorSpecific,
}

impl UuidType {
    /// The stored encoding of a UUID type.
    pub open spec fn value(self) -> u8 {
        match self {
            UuidType::Uuid16 => 0,
            UuidType::Uuid128 => 1,
            UuidType::VendorSpecific => 2,
        }
    }

    /// The stored encoding of a UUID type.
    pub fn to_u8(self) -> (r: u8)
        ensures
            r == self.value(),
    {
        match self {
            UuidType::Uuid16 => 0,
            UuidType::Uuid128 => 1,
            UuidType::VendorSpecific => 2,
        }
    }
}

/// Registry errors.
#[derive(Debug, Clone, Copy, PartialEq, Eq)]
pub enum RegistryError {
    ServicesFull,
    CharacteristicsFull,
    UuidBasesFull,
    ServiceNotFound,
    CharacteristicNotFound,
    InvalidUuidType,
    InvalidServiceType,
}

/// A BLE UUID as the host describes it.
#[derive(Debug, Clone, Copy, PartialEq, Eq)]
pub enum BleUuid {
    Uuid16(u16),
    Uuid128([u8; 16]),
    VendorSpecific { base_id: u8, offset: u16 },
}

/// A UUID in the form the SoftDevice takes: 16-bit or full 128-bit.
#[derive(Debug, Clone, Copy, PartialEq, Eq)]
pub enum SdUuid {
    Uuid16(u16),
    Uuid128([u8; 16]),
}

/// The little-endian 16-bit value `[lo, hi]`.
pub open spec fn le16_value(lo: u8, hi: u8) -> u16 {
    (lo + hi * 256) as u16
}

/// A 128-bit UUID base with a 16-bit offset written, little-endian, at
/// bytes 12 and 13.
pub open spec fn uuid_with_offset(base: Seq<u8>, offset: u16) -> Seq<u8> {
    base.update(12, (offset % 256) as u8).update(13, (offset / 256) as u8)
}

/// Write `offset`, little-endian, at bytes 12 and 13 of a copy of `base`.
pub fn insert_uuid_offset(base: &[u8; 16], offset: u16) -> (r: [u8; 16])
    ensures
        r@ == uuid_with_offset(base@, offset),
{
    let mut result = *base;
    result[12] = (offset % 256) as u8;
    result[13] = (offset / 256) as u8;
    result
}

impl BleUuid {
    /// What a UUID of the given type is parsed to from payload bytes, or
    /// `InvalidUuidType` for an unknown type or too few bytes.
    pub open spec fn parse(uuid_type: u8, data: Seq<u8>) -> Result<BleUuid, RegistryError> {
        if uuid_type == 0 {
            if data.len() < 2 {
                Err(RegistryError::InvalidUuidType)
            } else {
                Ok(BleUuid::Uuid16(le16_value(data[0], data[1])))
            }
        } else if uuid_type == 1 {
            if data.len() < 16 {
                Err(RegistryError::InvalidUuidType)
            } else {
                Ok(BleUuid::Uuid128(choose|a: [u8; 16]| a@ == data.subrange(0, 16)))
            }
        } else if uuid_type == 2 {
            if data.len() < 3 {
                Err(RegistryError::InvalidUuidType)
            } else {
                Ok(BleUuid::VendorSpecific { base_id: data[0], offset: le16_value(data[1], data[2]) })
            }
        } else {
            Err(RegistryError::InvalidUuidType)
        }
    }

    /// Parse a UUID from payload data: type 0 is a little-endian 16-bit
    /// UUID, type 1 a 128-bit UUID, type 2 a vendor base id and a
    /// little-endian offset.
    pub fn from_payload(uuid_type: u8, uuid_data: &[u8]) -> (r: Result<Self, RegistryError>)
        ensures
            r matches Ok(u) ==> match u {
                BleUuid::Uuid128(a) => uuid_type == 1 && uuid_data@.len() >= 16 && a@
                    == uuid_data@.subrange(0, 16),
                _ => r == BleUuid::parse(uuid_type, uuid_data@),
            },
            r is Err ==> r == BleUuid::parse(uuid_type, uuid_data@),
    {
        match uuid_type {
            0 => {
                if uuid_data.len() < 2 {
                    return Err(RegistryError::InvalidUuidType);
                }
                let uuid = (uuid_data[0] as u16) + (uuid_data[1] as u16) * 256;
                Ok(BleUuid::Uuid16(uuid))
            },
            1 => {
                if uuid_data.len() < 16 {
                    return Err(RegistryError::InvalidUuidType);
                }
                let mut uuid = [0u8; 16];
                let mut i: usize = 0;
                while i < 16
                    invariant
                        i <= 16,
                        uuid_data@.len() >= 16,
                        forall|j: int| 0 <= j < i ==> uuid@[j] == uuid_data@[j],
                    decreases 16 - i,
                {
                    uuid[i] = uuid_data[i];
                    i = i + 1;
                }
                assert(uuid@ =~= uuid_data@.subrange(0, 16));
                Ok(BleUuid::Uuid128(uuid))
            },
            2 => {
                if uuid_data.len() < 3 {
                    return Err(RegistryError::InvalidUuidType);
                }
                let base_id = uuid_data[0];
                let offset = (uuid_data[1] as u16) + (uuid_data[2] as u16) * 256;
                Ok(BleUuid::VendorSpecific { base_id, offset })
            },
            _ => Err(RegistryError::InvalidUuidType),
        }
    }

    /// The `(uuid_type, uuid_data)` pair stored for a UUID in the registry;
    /// a 128-bit UUID is stored as type 1 with data 0.
    pub open spec fn compact(self) -> (u8, u16) {
        match self {
            BleUuid::Uuid16(u) => (UuidType::Uuid16.value(), u),
            BleUuid::Uuid128(_) => (UuidType::Uuid128.value(), 0),
            BleUuid::VendorSpecific { base_id, offset } => (UuidType::VendorSpecific.value(), offset),
        }
    }

    /// The `(uuid_type, uuid_data)` pair stored for a UUID in the registry.
    pub fn to_compact(&self) -> (r: (u8, u16))
        ensures
            r == self.compact(),
    {
        match self {
            BleUuid::Uuid16(uuid) => (UuidType::Uuid16.to_u8(), *uuid),
            BleUuid::Uuid128(_) => (UuidType::Uuid128.to_u8(), 0),
            BleUuid::VendorSpecific { base_id: _, offset } => (UuidType::VendorSpecific.to_u8(), *offset),
        }
    }

    /// The SoftDevice form of a UUID: 16-bit and 128-bit UUIDs as they are;
    /// a vendor UUID is its registered base with the offset written in, or
    /// `None` when no base has that id.
    pub open spec fn resolve(self, bases: Seq<[u8; 16]>) -> Option<Seq<u8>> {
        match self {
            BleUuid::Uuid16(_) => None,
            BleUuid::Uuid128(a) => Some(a@),
            BleUuid::VendorSpecific { base_id, offset } => if base_id < bases.len() {
                Some(uuid_with_offset(bases[base_id as int]@, offset))
            } else {
                None
            },
        }
    }

    /// Convert to the SoftDevice form, using the registry's UUID bases.
    pub fn to_softdevice_uuid(&self, registry: &GattRegistry) -> (r: Option<SdUuid>)
        ensures
            match *self {
                BleUuid::Uuid16(u) => r == Some(SdUuid::Uuid16(u)),
                BleUuid::Uuid128(a) => r == Some(SdUuid::Uuid128(a)),
                BleUuid::VendorSpecific { base_id, offset } => match r {
                    Some(SdUuid::Uuid128(a)) => base_id < registry.spec_uuid_bases().len() && a@
                        == uuid_with_offset(registry.spec_uuid_bases()[base_id as int]@, offset),
                    Some(SdUuid::Uuid16(_)) => false,
                    None => base_id >= registry.spec_uuid_bases().len(),
                },
            },
    {
        match self {
            BleUuid::Uuid16(uuid) => Some(SdUuid::Uuid16(*uuid)),
            BleUuid::Uuid128(uuid) => Some(SdUuid::Uuid128(*uuid)),
            BleUuid::VendorSpecific { base_id, offset } => {
                match registry.get_uuid_base(*base_id) {
                    Some(base) => Some(SdUuid::Uuid128(insert_uuid_offset(base, *offset))),
                    None => None,
                }
            },
        }
    }
}

/// The entry stored for a service.
pub open spec fn service_entry(handle: u16, uuid: BleUuid, service_type: ServiceType) -> ServiceInfo {
    ServiceInfo {
        handle,
        uuid_type: uuid.compact().0,
        uuid_data: uuid.compact().1,
        service_type: service_type.value(),
        _reserved: 0,
    }
}

/// The entry stored for a characteristic.
pub open spec fn characteristic_entry(
    service_handle: u16,
    value_handle: u16,
    cccd_handle: u16,
    sccd_handle: u16,
    uuid: BleUuid,
    properties: u8,
    max_len: u16,
    permissions: u8,
) -> CharacteristicInfo {
    CharacteristicInfo {
        service_handle,
        value_handle,
        cccd_handle,
        sccd_handle,
        uuid_data: uuid.compact().1,
        properties,
        uuid_type: uuid.compact().0,
        max_len,
        current_len: 0,
        permissions,
        _reserved: 0,
    }
}

/// Memory-constrained GATT registry.
pub struct GattRegistry {
    services: [ServiceInfo; MAX_SERVICES],
    service_count: u8,
    characteristics: [CharacteristicInfo; MAX_CHARACTERISTICS],
    characteristic_count: u8,
    uuid_bases: [[u8; 16]; MAX_UUID_BASES],
    uuid_base_count: u8,
    next_service_id: u16,
    next_characteristic_id: u16,
}

/// An all-zero service entry.
pub open spec fn empty_service() -> ServiceInfo {
    ServiceInfo { handle: 0, uuid_type: 0, uuid_data: 0, service_type: 0, _reserved: 0 }
}

/// An all-zero characteristic entry.
pub open spec fn empty_characteristic() -> CharacteristicInfo {
    CharacteristicInfo {
        service_handle: 0,
        value_handle: 0,
        cccd_handle: 0,
        sccd_handle: 0,
        uuid_data: 0,
        properties: 0,
        uuid_type: 0,
        max_len: 0,
        current_len: 0,
        permissions: 0,
        _reserved: 0,
    }
}

impl GattRegistry {
    #[verifier::type_invariant]
    spec fn inv(self) -> bool {
        &&& self.service_count as usize <= MAX_SERVICES
        &&& self.characteristic_count as usize <= MAX_CHARACTERISTICS
        &&& self.uuid_base_count as usize <= MAX_UUID_BASES
        &&& self.next_service_id <= self.service_count + 1
        &&& self.next_characteristic_id <= self.characteristic_count + 1
    }

    /// The registered services, in registration order.
    pub closed spec fn spec_services(self) -> Seq<ServiceInfo> {
        self.services@.subrange(0, self.service_count as int)
    }

    /// The registered characteristics, in registration order.
    pub closed spec fn spec_characteristics(self) -> Seq<CharacteristicInfo> {
        self.characteristics@.subrange(0, self.characteristic_count as int)
    }

    /// The registered UUID bases; a base's handle is its index.
    pub closed spec fn spec_uuid_bases(self) -> Seq<[u8; 16]> {
        self.uuid_bases@.subrange(0, self.uuid_base_count as int)
    }

    /// An empty registry.
    pub fn new() -> (r: Self)
        ensures
            r.spec_services() == Seq::<ServiceInfo>::empty(),
            r.spec_characteristics() == Seq::<CharacteristicInfo>::empty(),
            r.spec_uuid_bases() == Seq::<[u8; 16]>::empty(),
    {
        let r = Self {
            services: [ServiceInfo { handle: 0, uuid_type: 0, uuid_data: 0, service_type: 0, _reserved: 0 }; MAX_SERVICES],
            service_count: 0,
            characteristics: [CharacteristicInfo {
                service_handle: 0,
                value_handle: 0,
                cccd_handle: 0,
                sccd_handle: 0,
                uuid_data: 0,
                properties: 0,
                uuid_type: 0,
                max_len: 0,
                current_len: 0,
                permissions: 0,
                _reserved: 0,
            }; MAX_CHARACTERISTICS],
            characteristic_count: 0,
            uuid_bases: [[0u8; 16]; MAX_UUID_BASES],
            uuid_base_count: 0,
            next_service_id: 1,
            next_characteristic_id: 1,
        };
        assert(r.spec_services() =~= Seq::<ServiceInfo>::empty());
        assert(r.spec_characteristics() =~= Seq::<CharacteristicInfo>::empty());
        assert(r.spec_uuid_bases() =~= Seq::<[u8; 16]>::empty());
        r
    }

    /// Register a UUID base; its handle is the number of bases registered
    /// before it.  `UuidBasesFull` (and no change) when [`MAX_UUID_BASES`]
    /// are registered.
    pub fn register_uuid_base(&mut self, uuid_base: [u8; 16]) -> (r: Result<u8, RegistryError>)
        ensures
            r is Ok <==> old(self).spec_uuid_bases().len() < MAX_UUID_BASES,
            r matches Ok(h) ==> h == old(self).spec_uuid_bases().len() && final(self).spec_uuid_bases()
                == old(self).spec_uuid_bases().push(uuid_base),
            r matches Err(e) ==> e == RegistryError::UuidBasesFull && final(self).spec_uuid_bases()
                == old(self).spec_uuid_bases(),
            final(self).spec_services() == old(self).spec_services(),
            final(self).spec_characteristics() == old(self).spec_characteristics(),
    {
        proof {
            use_type_invariant(&*self);
        }
        if self.uuid_base_count >= MAX_UUID_BASES as u8 {
            return Err(RegistryError::UuidBasesFull);
        }
        let handle = self.uuid_base_count;
        self.uuid_bases[handle as usize] = uuid_base;
        self.uuid_base_count = handle + 1;
        assert(self.spec_uuid_bases() =~= old(self).spec_uuid_bases().push(uuid_base));
        assert(self.spec_services() =~= old(self).spec_services());
        assert(self.spec_characteristics() =~= old(self).spec_characteristics());
        Ok(handle)
    }

    /// The UUID base with the given handle, if registered.
    pub fn get_uuid_base(&self, handle: u8) -> (r: Option<&[u8; 16]>)
        ensures
            r is Some <==> handle < self.spec_uuid_bases().len(),
            r matches Some(b) ==> *b == self.spec_uuid_bases()[handle as int],
    {
        proof {
            use_type_invariant(self);
        }
        if handle < self.uuid_base_count {
            Some(&self.uuid_bases[handle as usize])
        } else {
            None
        }
    }

    /// Add a service; `ServicesFull` (and no change) when [`MAX_SERVICES`]
    /// are registered.
    pub fn add_service(&mut self, handle: u16, uuid: BleUuid, service_type: ServiceType) -> (r:
        Result<(), RegistryError>)
        ensures
            r is Ok <==> old(self).spec_services().len() < MAX_SERVICES,
            r is Ok ==> final(self).spec_services() == old(self).spec_services().push(
                service_entry(handle, uuid, service_type),
            ),
            r matches Err(e) ==> e == RegistryError::ServicesFull && final(self).spec_services()
                == old(self).spec_services(),
            final(self).spec_characteristics() == old(self).spec_characteristics(),
            final(self).spec_uuid_bases() == old(self).spec_uuid_bases(),
    {
        proof {
            use_type_invariant(&*self);
        }
        if self.service_count >= MAX_SERVICES as u8 {
            return Err(RegistryError::ServicesFull);
        }
        let (uuid_type, uuid_data) = uuid.to_compact();
        let service_info = ServiceInfo {
            handle,
            uuid_type,
            uuid_data,
            service_type: service_type.to_u8(),
            _reserved: 0,
        };
        let count = self.service_count;
        self.services[count as usize] = service_info;
        self.service_count = count + 1;
        self.next_service_id = self.next_service_id + 1;
        assert(self.spec_services() =~= old(self).spec_services().push(
            service_entry(handle, uuid, service_type),
        ));
        assert(self.spec_characteristics() =~= old(self).spec_characteristics());
        assert(self.spec_uuid_bases() =~= old(self).spec_uuid_bases());
        Ok(())
    }

    /// Add a characteristic; `CharacteristicsFull` (and no change) when
    /// [`MAX_CHARACTERISTICS`] are registered.
    pub fn add_characteristic(
        &mut self,
        service_handle: u16,
        value_handle: u16,
        cccd_handle: u16,
        sccd_handle: u16,
        uuid: BleUuid,
        properties: u8,
        max_len: u16,
        permissions: u8,
    ) -> (r: Result<(), RegistryError>)
        ensures
            r is Ok <==> old(self).spec_characteristics().len() < MAX_CHARACTERISTICS,
            r is Ok ==> final(self).spec_characteristics() == old(self).spec_characteristics().push(
                characteristic_entry(
                    service_handle,
                    value_handle,
                    cccd_handle,
                    sccd_handle,
                    uuid,
                    properties,
                    max_len,
                    permissions,
                ),
            ),
            r matches Err(e) ==> e == RegistryError::CharacteristicsFull
                && final(self).spec_characteristics() == old(self).spec_characteristics(),
            final(self).spec_services() == old(self).spec_services(),
            final(self).spec_uuid_bases() == old(self).spec_uuid_bases(),
    {
        proof {
            use_type_invariant(&*self);
        }
        if self.characteristic_count >= MAX_CHARACTERISTICS as u8 {
            return Err(RegistryError::CharacteristicsFull);
        }
        let (uuid_type, uuid_data) = uuid.to_compact();
        let char_info = CharacteristicInfo {
            service_handle,
            value_handle,
            cccd_handle,
            sccd_handle,
            uuid_data,
            properties,
            uuid_type,
            max_len,
            current_len: 0,
            permissions,
            _reserved: 0,
        };
        let count = self.characteristic_count;
        self.characteristics[count as usize] = char_info;
        self.characteristic_count = count + 1;
        self.next_characteristic_id = self.next_characteristic_id + 1;
        assert(self.spec_characteristics() =~= old(self).spec_characteristics().push(
            characteristic_entry(
                service_handle,
                value_handle,
                cccd_handle,
                sccd_handle,
                uuid,
                properties,
                max_len,
                permissions,
            ),
        ));
        assert(self.spec_services() =~= old(self).spec_services());
        assert(self.spec_uuid_bases() =~= old(self).spec_uuid_bases());
        Ok(())
    }

    /// The first registered service with the given handle.
    pub fn find_service(&self, handle: u16) -> (r: Option<&ServiceInfo>)
        ensures
            r matches Some(s) ==> exists|i: int|
                0 <= i < self.spec_services().len() && self.spec_services()[i] == *s && s.handle
                    == handle && forall|j: int| 0 <= j < i ==> self.spec_services()[j].handle != handle,
            r is None ==> forall|i: int|
                0 <= i < self.spec_services().len() ==> self.spec_services()[i].handle != handle,
    {
        proof {
            use_type_invariant(self);
        }
        let mut i: usize = 0;
        while i < self.service_count as usize
            invariant
                i <= self.service_count,
                self.service_count as usize <= MAX_SERVICES,
                forall|j: int| 0 <= j < i ==> self.spec_services()[j].handle != handle,
            decreases self.service_count - i,
        {
            if self.services[i].handle == handle {
                assert(self.spec_services()[i as int] == self.services@[i as int]);
                return Some(&self.services[i]);
            }
            i = i + 1;
        }
        None
    }

    /// The first registered characteristic with the given value handle.
    pub fn find_characteristic_by_value_handle(&self, handle: u16) -> (r: Option<
        &CharacteristicInfo,
    >)
        ensures
            r matches Some(c) ==> exists|i: int|
                0 <= i < self.spec_characteristics().len() && self.spec_characteristics()[i] == *c
                    && c.value_handle == handle && forall|j: int|
                    0 <= j < i ==> self.spec_characteristics()[j].value_handle != handle,
            r is None ==> forall|i: int|
                0 <= i < self.spec_characteristics().len()
                    ==> self.spec_characteristics()[i].value_handle != handle,
    {
        proof {
            use_type_invariant(self);
        }
        let mut i: usize = 0;
        while i < self.characteristic_count as usize
            invariant
                i <= self.characteristic_count,
                self.characteristic_count as usize <= MAX_CHARACTERISTICS,
                forall|j: int| 0 <= j < i ==> self.spec_characteristics()[j].value_handle != handle,
            decreases self.characteristic_count - i,
        {
            if self.characteristics[i].value_handle == handle {
                assert(self.spec_characteristics()[i as int] == self.characteristics@[i as int]);
                return Some(&self.characteristics[i]);
            }
            i = i + 1;
        }
        None
    }

    /// The first registered characteristic with the given, non-zero, CCCD
    /// handle.
    pub fn find_characteristic_by_cccd_handle(&self, handle: u16) -> (r: Option<
        &CharacteristicInfo,
    >)
        ensures
            r matches Some(c) ==> exists|i: int|
                0 <= i < self.spec_characteristics().len() && self.spec_characteristics()[i] == *c
                    && c.cccd_handle == handle && handle != 0 && forall|j: int|
                    0 <= j < i ==> self.spec_characteristics()[j].cccd_handle != handle,
            r is None ==> handle == 0 || forall|i: int|
                0 <= i < self.spec_characteristics().len()
                    ==> self.spec_characteristics()[i].cccd_handle != handle,
    {
        proof {
            use_type_invariant(self);
        }
        let mut i: usize = 0;
        while i < self.characteristic_count as usize
            invariant
                i <= self.characteristic_count,
                self.characteristic_count as usize <= MAX_CHARACTERISTICS,
                handle != 0 ==> forall|j: int|
                    0 <= j < i ==> self.spec_characteristics()[j].cccd_handle != handle,
            decreases self.characteristic_count - i,
        {
            let c = &self.characteristics[i];
            if c.cccd_handle == handle && c.cccd_handle != 0 {
                assert(self.spec_characteristics()[i as int] == self.characteristics@[i as int]);
                return Some(c);
            }
            i = i + 1;
        }
        None
    }

    /// All registered services.
    pub fn services(&self) -> (r: &[ServiceInfo])
        ensures
            r@ == self.spec_services(),
    {
        proof {
            use_type_invariant(self);
        }
        vstd::slice::slice_subrange(self.services.as_slice(), 0, self.service_count as usize)
    }

    /// All registered characteristics.
    pub fn characteristics(&self) -> (r: &[CharacteristicInfo])
        ensures
            r@ == self.spec_characteristics(),
    {
        proof {
            use_type_invariant(self);
        }
        vstd::slice::slice_subrange(
            self.characteristics.as_slice(),
            0,
            self.characteristic_count as usize,
        )
    }

    /// The numbers of registered services, characteristics and UUID bases.
    pub fn stats(&self) -> (r: (u8, u8, u8))
        ensures
            r.0 == self.spec_services().len(),
            r.1 == self.spec_characteristics().len(),
            r.2 == self.spec_uuid_bases().len(),
    {
        proof {
            use_type_invariant(self);
        }
        (self.service_count, self.characteristic_count, self.uuid_base_count)
    }

    /// Remove every entry.
    pub fn clear(&mut self)
        ensures
            final(self).spec_services() == Seq::<ServiceInfo>::empty(),
            final(self).spec_characteristics() == Seq::<CharacteristicInfo>::empty(),
            final(self).spec_uuid_bases() == Seq::<[u8; 16]>::empty(),
    {
        proof {
            use_type_invariant(&*self);
        }
        self.next_service_id = 1;
        self.next_characteristic_id = 1;
        self.service_count = 0;
        self.characteristic_count = 0;
        self.uuid_base_count = 0;
        assert(self.spec_services() =~= Seq::<ServiceInfo>::empty());
        assert(self.spec_characteristics() =~= Seq::<CharacteristicInfo>::empty());
        assert(self.spec_uuid_bases() =~= Seq::<[u8; 16]>::empty());
    }
}

/// Registering a UUID base makes vendor UUIDs on its handle resolve to the
/// base with the offset written, little-endian, at bytes 12 and 13 (every
/// other byte is the base's), and leaves the resolution of vendor UUIDs on
/// the bases registered before it unchanged.
pub proof fn lemma_registered_base_resolves(bases: Seq<[u8; 16]>, base: [u8; 16], offset: u16)
    requires
        bases.len() < MAX_UUID_BASES,
    ensures
        ({
            let after = bases.push(base);
            let resolved = BleUuid::VendorSpecific { base_id: bases.len() as u8, offset }.resolve(after);
            &&& resolved == Some(uuid_with_offset(base@, offset))
            &&& resolved.unwrap().len() == 16
            &&& resolved.unwrap()[12] == (offset % 256) as u8
            &&& resolved.unwrap()[13] == (offset / 256) as u8
            &&& forall|i: int| 0 <= i < 16 && i != 12 && i != 13 ==> resolved.unwrap()[i] == base[i]
            &&& forall|id: u8, o: u16|
                id < bases.len() ==> BleUuid::VendorSpecific { base_id: id, offset: o }.resolve(after)
                    == BleUuid::VendorSpecific { base_id: id, offset: o }.resolve(bases)
        }),
{
    let after = bases.push(base);
    assert(after[bases.len() as int] == base);
    assert forall|id: u8, o: u16| id < bases.len() implies BleUuid::VendorSpecific {
        base_id: id,
        offset: o,
    }.resolve(after) == BleUuid::VendorSpecific { base_id: id, offset: o }.resolve(bases) by {
        assert(after[id as int] == bases[id as int]);
    }
}

} // verus!

pub mod char_properties;
