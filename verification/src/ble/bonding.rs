//! Bonding: bonded devices and their system attributes (CCCD states and
//! other client data).
use vstd::prelude::*;

use crate::collections::{bond_map_contents, AttrBuf, BondMap};

verus! {

/// Maximum number of bonded devices.
pub const MAX_BONDED_DEVICES: usize = 2;

/// Maximum system attributes data size.
pub const MAX_SYS_ATTR_SIZE: usize = 64;

/// Bonded device information.
#[derive(Debug)]
pub struct BondedDevice {
    /// Connection handle (may change between connections).
    pub conn_handle: u16,
    /// Device address.
    pub peer_addr: [u8; 6],
    /// Address type (public/random).
    pub addr_type: u8,
    /// System attributes data (CCCD states, etc.).
    pub sys_attr_data: AttrBuf,
}

impl BondedDevice {
    /// The device's fields, with its system attributes as bytes.
    pub open spec fn fields(self) -> (u16, [u8; 6], u8, Seq<u8>) {
        (self.conn_handle, self.peer_addr, self.addr_type, self.sys_attr_data@)
    }
}

impl Clone for BondedDevice {
    fn clone(&self) -> (r: Self)
        ensures
            r.fields() == self.fields(),
    {
        BondedDevice {
            conn_handle: self.conn_handle,
            peer_addr: self.peer_addr,
            addr_type: self.addr_type,
            sys_attr_data: self.sys_attr_data.clone(),
        }
    }
}

/// Bonding service errors.
#[derive(Debug, Clone, Copy, PartialEq, Eq, Structural)]
pub enum BondingError {
    BondingTableFull,
    DeviceNotFound,
    InvalidData,
}

/// Bonding storage: bonded devices by connection handle.
pub struct BondingStorage {
    bonded_devices: BondMap,
    next_bond_id: u16,
}

/// The map `after` is `before` with the entry for `handle` replaced by one
/// whose fields are `fields`.
pub open spec fn replaced(
    before: Map<u16, BondedDevice>,
    after: Map<u16, BondedDevice>,
    handle: u16,
    fields: (u16, [u8; 6], u8, Seq<u8>),
) -> bool {
    &&& after.dom() == before.dom().insert(handle)
    &&& forall|k: u16| #[trigger] after.dom().contains(k) && k != handle ==> after[k] == before[k]
    &&& after[handle].fields() == fields
}

impl BondingStorage {
    #[verifier::type_invariant]
    spec fn inv(self) -> bool {
        let m = bond_map_contents(self.bonded_devices);
        &&& m.dom().finite()
        &&& m.dom().len() <= MAX_BONDED_DEVICES
        &&& forall|h: u16| #[trigger] m.dom().contains(h) ==> m[h].conn_handle == h
    }

    /// The bonded devices by connection handle.
    pub closed spec fn spec_devices(self) -> Map<u16, BondedDevice> {
        bond_map_contents(self.bonded_devices)
    }

    /// What every storage keeps: at most [`MAX_BONDED_DEVICES`] devices,
    /// each stored under its own connection handle.
    pub open spec fn valid(self) -> bool {
        let m = self.spec_devices();
        &&& m.dom().finite()
        &&& m.dom().len() <= MAX_BONDED_DEVICES
        &&& forall|h: u16| #[trigger] m.dom().contains(h) ==> m[h].conn_handle == h
    }

    /// Empty storage.
    pub fn new() -> (r: Self)
        ensures
            r.valid(),
            r.spec_devices() == Map::<u16, BondedDevice>::empty(),
    {
        Self { bonded_devices: BondMap::new(), next_bond_id: 1 }
    }

    /// Bond a device, with no system attributes; a device already bonded
    /// under the handle is replaced.  `BondingTableFull` (and no change)
    /// when the handle is new and [`MAX_BONDED_DEVICES`] are bonded.
    pub fn add_bonded_device(&mut self, conn_handle: u16, peer_addr: [u8; 6], addr_type: u8) -> (r:
        Result<(), BondingError>)
        ensures
            final(self).valid(),
            r is Err <==> !old(self).spec_devices().dom().contains(conn_handle) && old(
                self,
            ).spec_devices().dom().len() >= MAX_BONDED_DEVICES,
            r matches Err(e) ==> e == BondingError::BondingTableFull && final(self).spec_devices()
                == old(self).spec_devices(),
            r is Ok ==> replaced(
                old(self).spec_devices(),
                final(self).spec_devices(),
                conn_handle,
                (conn_handle, peer_addr, addr_type, Seq::empty()),
            ),
    {
        proof {
            use_type_invariant(&*self);
            vstd::set::axiom_set_insert_len(bond_map_contents(self.bonded_devices).dom(), conn_handle);
        }
        let device = BondedDevice { conn_handle, peer_addr, addr_type, sys_attr_data: AttrBuf::new() };
        match self.bonded_devices.insert(conn_handle, device) {
            Ok(_) => Ok(()),
            Err(_) => Err(BondingError::BondingTableFull),
        }
    }

    /// Replace the system attributes of a bonded device.  An unknown handle
    /// gives `DeviceNotFound`; more than [`MAX_SYS_ATTR_SIZE`] bytes give
    /// `InvalidData`; on error nothing changes.
    pub fn set_system_attributes(&mut self, conn_handle: u16, sys_attr_data: &[u8]) -> (r: Result<
        (),
        BondingError,
    >)
        ensures
            final(self).valid(),
            !old(self).spec_devices().dom().contains(conn_handle) ==> r == Err::<(), BondingError>(
                BondingError::DeviceNotFound,
            ),
            old(self).spec_devices().dom().contains(conn_handle) && sys_attr_data@.len()
                > MAX_SYS_ATTR_SIZE ==> r == Err::<(), BondingError>(BondingError::InvalidData),
            old(self).spec_devices().dom().contains(conn_handle) && sys_attr_data@.len()
                <= MAX_SYS_ATTR_SIZE ==> r is Ok,
            r is Err ==> final(self).spec_devices() == old(self).spec_devices(),
            r is Ok ==> replaced(
                old(self).spec_devices(),
                final(self).spec_devices(),
                conn_handle,
                (
                    old(self).spec_devices()[conn_handle].conn_handle,
                    old(self).spec_devices()[conn_handle].peer_addr,
                    old(self).spec_devices()[conn_handle].addr_type,
                    sys_attr_data@,
                ),
            ),
    {
        proof {
            use_type_invariant(&*self);
        }
        let (peer_addr, addr_type) = match self.bonded_devices.get(conn_handle) {
            Some(device) => (device.peer_addr, device.addr_type),
            None => return Err(BondingError::DeviceNotFound),
        };
        if sys_attr_data.len() > MAX_SYS_ATTR_SIZE {
            return Err(BondingError::InvalidData);
        }
        let mut data = AttrBuf::new();
        let _ = data.extend_from_slice(sys_attr_data);
        let device = BondedDevice { conn_handle, peer_addr, addr_type, sys_attr_data: data };
        match self.bonded_devices.insert(conn_handle, device) {
            Ok(_) => {},
            Err(_) => return Err(BondingError::DeviceNotFound),
        }
        proof {
            assert(bond_map_contents(self.bonded_devices).dom() =~= bond_map_contents(
                old(self).bonded_devices,
            ).dom().insert(conn_handle));
        }
        Ok(())
    }

    /// The system attributes of a bonded device.
    pub fn get_system_attributes(&self, conn_handle: u16) -> (r: Option<&[u8]>)
        ensures
            r is Some <==> self.spec_devices().dom().contains(conn_handle),
            r matches Some(s) ==> s@ == self.spec_devices()[conn_handle].sys_attr_data@,
    {
        match self.bonded_devices.get(conn_handle) {
            Some(device) => Some(device.sys_attr_data.as_slice()),
            None => None,
        }
    }

    /// Unbond a device; an unknown handle gives `DeviceNotFound` and no
    /// change.
    pub fn remove_bonded_device(&mut self, conn_handle: u16) -> (r: Result<(), BondingError>)
        ensures
            final(self).valid(),
            r is Ok <==> old(self).spec_devices().dom().contains(conn_handle),
            r matches Err(e) ==> e == BondingError::DeviceNotFound,
            final(self).spec_devices() == old(self).spec_devices().remove(conn_handle),
    {
        proof {
            use_type_invariant(&*self);
            vstd::set::axiom_set_remove_len(bond_map_contents(self.bonded_devices).dom(), conn_handle);
        }
        match self.bonded_devices.remove(conn_handle) {
            Some(_) => Ok(()),
            None => {
                proof {
                    assert(bond_map_contents(self.bonded_devices) =~= bond_map_contents(
                        self.bonded_devices,
                    ).remove(conn_handle));
                }
                Err(BondingError::DeviceNotFound)
            },
        }
    }

    /// The number of bonded devices.
    pub fn device_count(&self) -> (r: usize)
        ensures
            r == self.spec_devices().dom().len(),
            r <= MAX_BONDED_DEVICES,
    {
        self.bonded_devices.len()
    }

    /// Whether a device is bonded under the handle.
    pub fn is_device_bonded(&self, conn_handle: u16) -> (r: bool)
        ensures
            r == self.spec_devices().dom().contains(conn_handle),
    {
        self.bonded_devices.contains_key(conn_handle)
    }

    /// The handles of all bonded devices, each once.
    pub fn get_all_bonded_handles(&self) -> (r: Vec<u16>)
        ensures
            r@.to_set() == self.spec_devices().dom(),
            r@.no_duplicates(),
    {
        self.bonded_devices.keys()
    }

    /// A copy of a bonded device's information.
    pub fn get_bonded_device_info(&self, conn_handle: u16) -> (r: Option<BondedDevice>)
        ensures
            r is Some <==> self.spec_devices().dom().contains(conn_handle),
            r matches Some(d) ==> d.fields() == self.spec_devices()[conn_handle].fields(),
    {
        match self.bonded_devices.get(conn_handle) {
            Some(device) => Some(device.clone()),
            None => None,
        }
    }
}


/// What is set is what is read back: after the system attributes of a
/// device are replaced, the device is bonded and reads back the new
/// attributes and its other fields as given.
pub proof fn lemma_attributes_read_back(
    before: Map<u16, BondedDevice>,
    after: Map<u16, BondedDevice>,
    handle: u16,
    fields: (u16, [u8; 6], u8, Seq<u8>),
)
    requires
        replaced(before, after, handle, fields),
    ensures
        after.dom().contains(handle),
        after[handle].sys_attr_data@ == fields.3,
        after[handle].peer_addr == fields.1,
        forall|k: u16| k != handle ==> (after.dom().contains(k) <==> before.dom().contains(k)),
{
}

/// Bonding a new device and unbonding it again leaves the other bonds as
/// they were.
pub proof fn lemma_bond_then_unbond(
    before: Map<u16, BondedDevice>,
    after: Map<u16, BondedDevice>,
    handle: u16,
    fields: (u16, [u8; 6], u8, Seq<u8>),
)
    requires
        !before.dom().contains(handle),
        replaced(before, after, handle, fields),
    ensures
        after.remove(handle) == before,
{
    assert(after.remove(handle) =~= before);
}

} // verus!
