//! Fixed-capacity storage backed by `heapless`.
//!
//! Each type here holds one `heapless` collection in a private field.  The
//! methods are thin wrappers around the `heapless` methods of the same name;
//! their contracts restate what the `heapless` source does, over the
//! contents that a free spec function names.
use vstd::prelude::*;

use crate::ble::bonding::BondedDevice;
use crate::ble::connection::ConnectionInfo;
use crate::ble::gatt_state::{CharacteristicInfo, ServiceInfo, UuidBase};
use crate::modem_core::memory::TxPacket;
use vstd::string::StringSliceAdditionalSpecFns;

verus! {

/// Capacity of a [`FrameBuf`]: one full protocol frame.
pub const FRAME_BUF_CAPACITY: usize = 249;

/// Capacity of an [`AttrBuf`].
pub const ATTR_BUF_CAPACITY: usize = 64;

/// A `heapless::Vec<u8, 249>`: the bytes of one protocol frame or payload.
#[derive(Debug)]
#[verifier::external_body]
pub struct FrameBuf {
    inner: heapless::Vec<u8, 249>,
}

/// The bytes that a [`FrameBuf`] holds, in order.
pub uninterp spec fn frame_buf_contents(b: FrameBuf) -> Seq<u8>;

impl View for FrameBuf {
    type V = Seq<u8>;

    open spec fn view(&self) -> Seq<u8> {
        frame_buf_contents(*self)
    }
}

impl FrameBuf {
    /// `heapless::Vec::new`: an empty vector.
    #[verifier::external_body]
    pub(crate) fn new() -> (r: FrameBuf)
        ensures
            frame_buf_contents(r) == Seq::<u8>::empty(),
    {
        FrameBuf { inner: heapless::Vec::new() }
    }

    /// `heapless::Vec::len`: the number of bytes held, never above the capacity.
    #[verifier::external_body]
    pub fn len(&self) -> (r: usize)
        ensures
            r == frame_buf_contents(*self).len(),
            r <= FRAME_BUF_CAPACITY,
    {
        self.inner.len()
    }

    /// `heapless::Vec::as_slice`: the bytes held.
    #[verifier::external_body]
    pub fn as_slice(&self) -> (r: &[u8])
        ensures
            r@ == frame_buf_contents(*self),
    {
        self.inner.as_slice()
    }

    /// `heapless::Vec::push`: appends `x` when there is room, else gives it
    /// back and changes nothing.
    #[verifier::external_body]
    pub(crate) fn push(&mut self, x: u8) -> (r: Result<(), u8>)
        ensures
            r is Ok <==> frame_buf_contents(*old(self)).len() < FRAME_BUF_CAPACITY,
            r is Ok ==> frame_buf_contents(*final(self)) == frame_buf_contents(*old(self)).push(x),
            r matches Err(y) ==> y == x && frame_buf_contents(*final(self)) == frame_buf_contents(*old(self)),
    {
        self.inner.push(x)
    }

    /// `heapless::Vec::extend_from_slice`: appends all of `other` when it fits
    /// (`true`), else changes nothing (`false`).
    #[verifier::external_body]
    pub(crate) fn extend_from_slice(&mut self, other: &[u8]) -> (ok: bool)
        ensures
            ok == (frame_buf_contents(*old(self)).len() + other@.len() <= FRAME_BUF_CAPACITY),
            ok ==> frame_buf_contents(*final(self)) == frame_buf_contents(*old(self)) + other@,
            !ok ==> frame_buf_contents(*final(self)) == frame_buf_contents(*old(self)),
    {
        self.inner.extend_from_slice(other).is_ok()
    }
}

impl Clone for FrameBuf {
    /// A vector holding the same bytes.
    fn clone(&self) -> (r: Self)
        ensures
            frame_buf_contents(r) == frame_buf_contents(*self),
    {
        let _n = self.len();
        let mut r = FrameBuf::new();
        let ok = r.extend_from_slice(self.as_slice());
        assert(ok);
        assert(frame_buf_contents(r) =~= frame_buf_contents(*self));
        r
    }
}

/// A `heapless::Vec<u8, 64>`: a short byte string (attribute values, write data).
#[derive(Debug)]
#[verifier::external_body]
pub struct AttrBuf {
    inner: heapless::Vec<u8, 64>,
}

/// The bytes that an [`AttrBuf`] holds, in order.
pub uninterp spec fn attr_buf_contents(b: AttrBuf) -> Seq<u8>;

impl View for AttrBuf {
    type V = Seq<u8>;

    open spec fn view(&self) -> Seq<u8> {
        attr_buf_contents(*self)
    }
}

impl AttrBuf {
    /// `heapless::Vec::new`: an empty vector.
    #[verifier::external_body]
    pub fn new() -> (r: AttrBuf)
        ensures
            attr_buf_contents(r) == Seq::<u8>::empty(),
    {
        AttrBuf { inner: heapless::Vec::new() }
    }

    /// `heapless::Vec::len`: the number of bytes held, never above the capacity.
    #[verifier::external_body]
    pub fn len(&self) -> (r: usize)
        ensures
            r == attr_buf_contents(*self).len(),
            r <= ATTR_BUF_CAPACITY,
    {
        self.inner.len()
    }

    /// `heapless::Vec::as_slice`: the bytes held.
    #[verifier::external_body]
    pub fn as_slice(&self) -> (r: &[u8])
        ensures
            r@ == attr_buf_contents(*self),
    {
        self.inner.as_slice()
    }

    /// `heapless::Vec::extend_from_slice`: appends all of `other` when it fits
    /// (`true`), else changes nothing (`false`).
    #[verifier::external_body]
    pub fn extend_from_slice(&mut self, other: &[u8]) -> (ok: bool)
        ensures
            ok == (attr_buf_contents(*old(self)).len() + other@.len() <= ATTR_BUF_CAPACITY),
            ok ==> attr_buf_contents(*final(self)) == attr_buf_contents(*old(self)) + other@,
            !ok ==> attr_buf_contents(*final(self)) == attr_buf_contents(*old(self)),
    {
        self.inner.extend_from_slice(other).is_ok()
    }
}

impl Clone for AttrBuf {
    /// A vector holding the same bytes.
    fn clone(&self) -> (r: Self)
        ensures
            attr_buf_contents(r) == attr_buf_contents(*self),
    {
        let _n = self.len();
        let mut r = AttrBuf::new();
        let ok = r.extend_from_slice(self.as_slice());
        assert(ok);
        assert(attr_buf_contents(r) =~= attr_buf_contents(*self));
        r
    }
}

/// Capacity of a [`TxDeque`].
pub const TX_DEQUE_CAPACITY: usize = 8;

/// A `heapless::Deque<TxPacket, 8>`: packets waiting to be sent.
#[verifier::external_body]
pub struct TxDeque {
    inner: heapless::Deque<TxPacket, 8>,
}

/// The packets that a [`TxDeque`] holds, front first.
pub uninterp spec fn tx_deque_contents(q: TxDeque) -> Seq<TxPacket>;

impl View for TxDeque {
    type V = Seq<TxPacket>;

    open spec fn view(&self) -> Seq<TxPacket> {
        tx_deque_contents(*self)
    }
}

impl TxDeque {
    /// `heapless::Deque::new`: an empty deque.
    #[verifier::external_body]
    pub(crate) fn new() -> (r: TxDeque)
        ensures
            tx_deque_contents(r) == Seq::<TxPacket>::empty(),
    {
        TxDeque { inner: heapless::Deque::new() }
    }

    /// `heapless::Deque::push_back`: appends at the back when not full, else
    /// gives the packet back and changes nothing.
    #[verifier::external_body]
    pub(crate) fn push_back(&mut self, x: TxPacket) -> (r: Result<(), TxPacket>)
        ensures
            r is Ok <==> tx_deque_contents(*old(self)).len() < TX_DEQUE_CAPACITY,
            r is Ok ==> tx_deque_contents(*final(self)) == tx_deque_contents(*old(self)).push(x),
            r matches Err(y) ==> y == x && tx_deque_contents(*final(self)) == tx_deque_contents(*old(self)),
    {
        self.inner.push_back(x)
    }

    /// `heapless::Deque::pop_front`: removes and returns the front packet, if any.
    #[verifier::external_body]
    pub(crate) fn pop_front(&mut self) -> (r: Option<TxPacket>)
        ensures
            tx_deque_contents(*old(self)).len() == 0 ==> r is None && tx_deque_contents(*final(self))
                == tx_deque_contents(*old(self)),
            tx_deque_contents(*old(self)).len() > 0 ==> r == Some(tx_deque_contents(*old(self))[0])
                && tx_deque_contents(*final(self)) == tx_deque_contents(*old(self)).drop_first(),
    {
        self.inner.pop_front()
    }

    /// `heapless::Deque::is_empty`.
    #[verifier::external_body]
    pub(crate) fn is_empty(&self) -> (r: bool)
        ensures
            r == (tx_deque_contents(*self).len() == 0),
    {
        self.inner.is_empty()
    }

    /// `heapless::Deque::is_full`: whether it holds its capacity.
    #[verifier::external_body]
    pub(crate) fn is_full(&self) -> (r: bool)
        ensures
            r == (tx_deque_contents(*self).len() == TX_DEQUE_CAPACITY),
    {
        self.inner.is_full()
    }

    /// `heapless::Deque::len`: never above the capacity.
    #[verifier::external_body]
    pub(crate) fn len(&self) -> (r: usize)
        ensures
            r == tx_deque_contents(*self).len(),
            r <= TX_DEQUE_CAPACITY,
    {
        self.inner.len()
    }
}

/// Capacity of a [`UuidBaseList`].
pub const UUID_BASE_LIST_CAPACITY: usize = 4;

/// A `heapless::Vec<UuidBase, 4>`: registered UUID bases.
#[verifier::external_body]
pub struct UuidBaseList {
    inner: heapless::Vec<UuidBase, 4>,
}

/// The UUID bases that a [`UuidBaseList`] holds, in order.
pub uninterp spec fn uuid_base_list_contents(v: UuidBaseList) -> Seq<UuidBase>;

impl UuidBaseList {
    /// `heapless::Vec::new`: an empty vector.
    #[verifier::external_body]
    pub(crate) fn new() -> (r: UuidBaseList)
        ensures
            uuid_base_list_contents(r) == Seq::<UuidBase>::empty(),
    {
        UuidBaseList { inner: heapless::Vec::new() }
    }

    /// `heapless::Vec::len`: never above the capacity.
    #[verifier::external_body]
    pub(crate) fn len(&self) -> (r: usize)
        ensures
            r == uuid_base_list_contents(*self).len(),
            r <= UUID_BASE_LIST_CAPACITY,
    {
        self.inner.len()
    }

    /// `heapless::Vec::push`: appends when there is room, else gives the
    /// item back and changes nothing.
    #[verifier::external_body]
    pub(crate) fn push(&mut self, x: UuidBase) -> (r: Result<(), UuidBase>)
        ensures
            r is Ok <==> uuid_base_list_contents(*old(self)).len() < UUID_BASE_LIST_CAPACITY,
            r is Ok ==> uuid_base_list_contents(*final(self)) == uuid_base_list_contents(*old(self)).push(x),
            r matches Err(y) ==> y == x && uuid_base_list_contents(*final(self)) == uuid_base_list_contents(*old(self)),
        no_unwind
    {
        self.inner.push(x)
    }

    /// `heapless::Vec::get` (through `Deref` to a slice): the item at `i`, if any.
    #[verifier::external_body]
    pub(crate) fn get(&self, i: usize) -> (r: Option<&UuidBase>)
        ensures
            r is Some <==> i < uuid_base_list_contents(*self).len(),
            r matches Some(b) ==> *b == uuid_base_list_contents(*self)[i as int],
    {
        self.inner.get(i)
    }
}

/// Capacity of a [`ServiceList`].
pub const SERVICE_LIST_CAPACITY: usize = 16;

/// A `heapless::Vec<ServiceInfo, 16>`: dynamic services.
#[verifier::external_body]
pub struct ServiceList {
    inner: heapless::Vec<ServiceInfo, 16>,
}

/// The services that a [`ServiceList`] holds, in order.
pub uninterp spec fn service_list_contents(v: ServiceList) -> Seq<ServiceInfo>;

impl ServiceList {
    /// `heapless::Vec::new`: an empty vector.
    #[verifier::external_body]
    pub(crate) fn new() -> (r: ServiceList)
        ensures
            service_list_contents(r) == Seq::<ServiceInfo>::empty(),
    {
        ServiceList { inner: heapless::Vec::new() }
    }

    /// `heapless::Vec::len`: never above the capacity.
    #[verifier::external_body]
    pub(crate) fn len(&self) -> (r: usize)
        ensures
            r == service_list_contents(*self).len(),
            r <= SERVICE_LIST_CAPACITY,
    {
        self.inner.len()
    }

    /// `heapless::Vec::push`: appends when there is room, else gives the
    /// item back and changes nothing.
    #[verifier::external_body]
    pub(crate) fn push(&mut self, x: ServiceInfo) -> (r: Result<(), ServiceInfo>)
        ensures
            r is Ok <==> service_list_contents(*old(self)).len() < SERVICE_LIST_CAPACITY,
            r is Ok ==> service_list_contents(*final(self)) == service_list_contents(*old(self)).push(x),
            r matches Err(y) ==> y == x && service_list_contents(*final(self)) == service_list_contents(*old(self)),
        no_unwind
    {
        self.inner.push(x)
    }

    /// `heapless::Vec::as_slice`: the items held, in order.
    #[verifier::external_body]
    pub(crate) fn as_slice(&self) -> (r: &[ServiceInfo])
        ensures
            r@ == service_list_contents(*self),
    {
        self.inner.as_slice()
    }

    /// `heapless::Vec::clear`: removes every item.
    #[verifier::external_body]
    pub(crate) fn clear(&mut self)
        ensures
            service_list_contents(*final(self)) == Seq::<ServiceInfo>::empty(),
        no_unwind
    {
        self.inner.clear()
    }
}

/// Capacity of a [`CharacteristicList`].
pub const CHARACTERISTIC_LIST_CAPACITY: usize = 64;

/// A `heapless::Vec<CharacteristicInfo, 64>`: dynamic characteristics.
#[verifier::external_body]
pub struct CharacteristicList {
    inner: heapless::Vec<CharacteristicInfo, 64>,
}

/// The characteristics that a [`CharacteristicList`] holds, in order.
pub uninterp spec fn characteristic_list_contents(v: CharacteristicList) -> Seq<CharacteristicInfo>;

impl CharacteristicList {
    /// `heapless::Vec::new`: an empty vector.
    #[verifier::external_body]
    pub(crate) fn new() -> (r: CharacteristicList)
        ensures
            characteristic_list_contents(r) == Seq::<CharacteristicInfo>::empty(),
    {
        CharacteristicList { inner: heapless::Vec::new() }
    }

    /// `heapless::Vec::len`: never above the capacity.
    #[verifier::external_body]
    pub(crate) fn len(&self) -> (r: usize)
        ensures
            r == characteristic_list_contents(*self).len(),
            r <= CHARACTERISTIC_LIST_CAPACITY,
    {
        self.inner.len()
    }

    /// `heapless::Vec::push`: appends when there is room, else gives the
    /// item back and changes nothing.
    #[verifier::external_body]
    pub(crate) fn push(&mut self, x: CharacteristicInfo) -> (r: Result<(), CharacteristicInfo>)
        ensures
            r is Ok <==> characteristic_list_contents(*old(self)).len() < CHARACTERISTIC_LIST_CAPACITY,
            r is Ok ==> characteristic_list_contents(*final(self)) == characteristic_list_contents(*old(self)).push(x),
            r matches Err(y) ==> y == x && characteristic_list_contents(*final(self))
                == characteristic_list_contents(*old(self)),
        no_unwind
    {
        self.inner.push(x)
    }

    /// `heapless::Vec::as_slice`: the items held, in order.
    #[verifier::external_body]
    pub(crate) fn as_slice(&self) -> (r: &[CharacteristicInfo])
        ensures
            r@ == characteristic_list_contents(*self),
    {
        self.inner.as_slice()
    }

    /// `heapless::Vec::clear`: removes every item.
    #[verifier::external_body]
    pub(crate) fn clear(&mut self)
        ensures
            characteristic_list_contents(*final(self)) == Seq::<CharacteristicInfo>::empty(),
        no_unwind
    {
        self.inner.clear()
    }
}

/// Capacity of a [`HandleMap`].
pub const HANDLE_MAP_CAPACITY: usize = 64;

/// A `heapless::index_map::FnvIndexMap<u16, u16, 64>`: characteristic value handle to
/// service handle.
#[verifier::external_body]
pub struct HandleMap {
    inner: heapless::index_map::FnvIndexMap<u16, u16, 64>,
}

/// The key-value pairs that a [`HandleMap`] holds.
pub uninterp spec fn handle_map_contents(m: HandleMap) -> Map<u16, u16>;

impl HandleMap {
    /// `heapless::IndexMap::new`: an empty map.
    #[verifier::external_body]
    pub(crate) fn new() -> (r: HandleMap)
        ensures
            handle_map_contents(r) =~= Map::empty(),
    {
        HandleMap { inner: heapless::index_map::FnvIndexMap::new() }
    }

    /// `heapless::IndexMap::insert`: a present key keeps its place and gets
    /// the new value, the old one returned; an absent key is added when
    /// fewer than the capacity are held; else the pair is handed back and
    /// nothing changes.
    #[verifier::external_body]
    pub(crate) fn insert(&mut self, key: u16, value: u16) -> (r: Result<Option<u16>, (u16, u16)>)
        ensures
            handle_map_contents(*old(self)).dom().contains(key) ==> (r matches Ok(Some(v)) && v
                == handle_map_contents(*old(self))[key]),
            !handle_map_contents(*old(self)).dom().contains(key) && handle_map_contents(
                *old(self),
            ).dom().len() < HANDLE_MAP_CAPACITY ==> (r matches Ok(None)),
            !handle_map_contents(*old(self)).dom().contains(key) && handle_map_contents(
                *old(self),
            ).dom().len() >= HANDLE_MAP_CAPACITY ==> (r matches Err(p) && p.0 == key && p.1 == value),
            r is Ok ==> handle_map_contents(*final(self)) == handle_map_contents(*old(self)).insert(key, value),
            r is Err ==> handle_map_contents(*final(self)) == handle_map_contents(*old(self)),
            handle_map_contents(*final(self)).dom().finite(),
            handle_map_contents(*final(self)).dom().len() <= HANDLE_MAP_CAPACITY,
        no_unwind
    {
        self.inner.insert(key, value)
    }

    /// `heapless::IndexMap::get`: the value stored for `key`, if any.
    #[verifier::external_body]
    pub(crate) fn get(&self, key: u16) -> (r: Option<u16>)
        ensures
            r is Some <==> handle_map_contents(*self).dom().contains(key),
            r matches Some(v) ==> v == handle_map_contents(*self)[key],
    {
        self.inner.get(&key).copied()
    }

    /// `heapless::IndexMap::clear`: removes every pair.
    #[verifier::external_body]
    pub(crate) fn clear(&mut self)
        ensures
            handle_map_contents(*final(self)) =~= Map::empty(),
        no_unwind
    {
        self.inner.clear()
    }
}

/// Capacity of a [`NameString`], in bytes.
pub const NAME_STRING_CAPACITY: usize = 32;

/// A `heapless::String<32>`: a device name.
#[verifier::external_body]
pub struct NameString {
    inner: heapless::String<32>,
}

/// The UTF-8 bytes that a [`NameString`] holds.
pub uninterp spec fn name_string_contents(s: NameString) -> Seq<u8>;

impl NameString {
    /// `heapless::String::try_from(&str)`: a copy of `s` when its bytes fit
    /// in the capacity, else `None`.
    #[verifier::external_body]
    pub(crate) fn try_from_str(s: &str) -> (r: Option<NameString>)
        ensures
            r is Some <==> s.spec_bytes().len() <= NAME_STRING_CAPACITY,
            r matches Some(n) ==> name_string_contents(n) == s.spec_bytes(),
    {
        match heapless::String::<32>::try_from(s) {
            Ok(inner) => Some(NameString { inner }),
            Err(_) => None,
        }
    }

    /// `heapless::String::as_str`: the string held, never longer than the
    /// capacity.
    #[verifier::external_body]
    pub(crate) fn as_str(&self) -> (r: &str)
        ensures
            r.spec_bytes() == name_string_contents(*self),
            r.spec_bytes().len() <= NAME_STRING_CAPACITY,
    {
        self.inner.as_str()
    }
}

impl Clone for NameString {
    /// A string holding the same bytes.
    fn clone(&self) -> (r: Self)
        ensures
            name_string_contents(r) == name_string_contents(*self),
    {
        NameString::try_from_str(self.as_str()).unwrap()
    }
}

/// Capacity of a [`ConnectionMap`].
pub const CONNECTION_MAP_CAPACITY: usize = 2;

/// A `heapless::FnvIndexMap<u16, ConnectionInfo, 2>`: active connections by handle.
#[verifier::external_body]
pub struct ConnectionMap {
    inner: heapless::index_map::FnvIndexMap<u16, ConnectionInfo, 2>,
}

/// The key-value pairs that a [`ConnectionMap`] holds.
pub uninterp spec fn connection_map_contents(m: ConnectionMap) -> Map<u16, ConnectionInfo>;

impl ConnectionMap {
    /// `heapless::IndexMap::new`: an empty map.
    #[verifier::external_body]
    pub(crate) fn new() -> (r: ConnectionMap)
        ensures
            connection_map_contents(r) =~= Map::empty(),
    {
        ConnectionMap { inner: heapless::index_map::FnvIndexMap::new() }
    }

    /// `heapless::IndexMap::insert`: a present key keeps its place and gets
    /// the new value; an absent key is added when fewer than the capacity
    /// are held; else the pair is handed back and nothing changes.
    #[verifier::external_body]
    pub(crate) fn insert(&mut self, key: u16, value: ConnectionInfo) -> (r: Result<Option<ConnectionInfo>, (u16, ConnectionInfo)>)
        ensures
            connection_map_contents(*old(self)).dom().contains(key) ==> (r matches Ok(Some(v)) && v
                == connection_map_contents(*old(self))[key]),
            !connection_map_contents(*old(self)).dom().contains(key) && connection_map_contents(*old(self)).dom().len() < CONNECTION_MAP_CAPACITY ==> (r matches Ok(
                None,
            )),
            !connection_map_contents(*old(self)).dom().contains(key) && connection_map_contents(*old(self)).dom().len() >= CONNECTION_MAP_CAPACITY ==> (r matches Err(
                p,
            ) && p.0 == key && p.1 == value),
            r is Ok ==> connection_map_contents(*final(self)) == connection_map_contents(*old(self)).insert(key, value),
            r is Err ==> connection_map_contents(*final(self)) == connection_map_contents(*old(self)),
            connection_map_contents(*final(self)).dom().finite(),
            connection_map_contents(*final(self)).dom().len() <= CONNECTION_MAP_CAPACITY,
        no_unwind
    {
        self.inner.insert(key, value)
    }

    /// `heapless::IndexMap::remove`: takes out the pair for `key`, if any.
    #[verifier::external_body]
    pub(crate) fn remove(&mut self, key: u16) -> (r: Option<ConnectionInfo>)
        ensures
            connection_map_contents(*old(self)).dom().contains(key) ==> (r matches Some(v) && v == connection_map_contents(*old(self))[key]),
            !connection_map_contents(*old(self)).dom().contains(key) ==> r is None,
            connection_map_contents(*final(self)) == connection_map_contents(*old(self)).remove(key),
            connection_map_contents(*final(self)).dom().finite(),
        no_unwind
    {
        self.inner.remove(&key)
    }

    /// `heapless::IndexMap::get`: the value stored for `key`, if any.
    #[verifier::external_body]
    pub(crate) fn get(&self, key: u16) -> (r: Option<&ConnectionInfo>)
        ensures
            r is Some <==> connection_map_contents(*self).dom().contains(key),
            r matches Some(v) ==> *v == connection_map_contents(*self)[key],
    {
        self.inner.get(&key)
    }

    /// `heapless::IndexMap::contains_key`.
    #[verifier::external_body]
    pub(crate) fn contains_key(&self, key: u16) -> (r: bool)
        ensures
            r == connection_map_contents(*self).dom().contains(key),
    {
        self.inner.contains_key(&key)
    }

    /// `heapless::IndexMap::len`: the number of pairs, never above the
    /// capacity.
    #[verifier::external_body]
    pub(crate) fn len(&self) -> (r: usize)
        ensures
            r == connection_map_contents(*self).dom().len(),
            r <= CONNECTION_MAP_CAPACITY,
    {
        self.inner.len()
    }

    /// `heapless::IndexMap::keys`, collected: each key once.
    #[verifier::external_body]
    pub(crate) fn keys(&self) -> (r: Vec<u16>)
        ensures
            r@.to_set() == connection_map_contents(*self).dom(),
            r@.no_duplicates(),
    {
        self.inner.keys().copied().collect()
    }
}

/// Capacity of a [`BondMap`].
pub const BOND_MAP_CAPACITY: usize = 2;

/// A `heapless::FnvIndexMap<u16, BondedDevice, 2>`: bonded devices by connection handle.
#[verifier::external_body]
pub struct BondMap {
    inner: heapless::index_map::FnvIndexMap<u16, BondedDevice, 2>,
}

/// The key-value pairs that a [`BondMap`] holds.
pub uninterp spec fn bond_map_contents(m: BondMap) -> Map<u16, BondedDevice>;

impl BondMap {
    /// `heapless::IndexMap::new`: an empty map.
    #[verifier::external_body]
    pub(crate) fn new() -> (r: BondMap)
        ensures
            bond_map_contents(r) =~= Map::empty(),
    {
        BondMap { inner: heapless::index_map::FnvIndexMap::new() }
    }

    /// `heapless::IndexMap::insert`: a present key keeps its place and gets
    /// the new value; an absent key is added when fewer than the capacity
    /// are held; else the pair is handed back and nothing changes.
    #[verifier::external_body]
    pub(crate) fn insert(&mut self, key: u16, value: BondedDevice) -> (r: Result<Option<BondedDevice>, (u16, BondedDevice)>)
        ensures
            bond_map_contents(*old(self)).dom().contains(key) ==> (r matches Ok(Some(v)) && v
                == bond_map_contents(*old(self))[key]),
            !bond_map_contents(*old(self)).dom().contains(key) && bond_map_contents(*old(self)).dom().len() < BOND_MAP_CAPACITY ==> (r matches Ok(
                None,
            )),
            !bond_map_contents(*old(self)).dom().contains(key) && bond_map_contents(*old(self)).dom().len() >= BOND_MAP_CAPACITY ==> (r matches Err(
                p,
            ) && p.0 == key && p.1 == value),
            r is Ok ==> bond_map_contents(*final(self)) == bond_map_contents(*old(self)).insert(key, value),
            r is Err ==> bond_map_contents(*final(self)) == bond_map_contents(*old(self)),
            bond_map_contents(*final(self)).dom().finite(),
            bond_map_contents(*final(self)).dom().len() <= BOND_MAP_CAPACITY,
        no_unwind
    {
        self.inner.insert(key, value)
    }

    /// `heapless::IndexMap::remove`: takes out the pair for `key`, if any.
    #[verifier::external_body]
    pub(crate) fn remove(&mut self, key: u16) -> (r: Option<BondedDevice>)
        ensures
            bond_map_contents(*old(self)).dom().contains(key) ==> (r matches Some(v) && v == bond_map_contents(*old(self))[key]),
            !bond_map_contents(*old(self)).dom().contains(key) ==> r is None,
            bond_map_contents(*final(self)) == bond_map_contents(*old(self)).remove(key),
            bond_map_contents(*final(self)).dom().finite(),
        no_unwind
    {
        self.inner.remove(&key)
    }

    /// `heapless::IndexMap::get`: the value stored for `key`, if any.
    #[verifier::external_body]
    pub(crate) fn get(&self, key: u16) -> (r: Option<&BondedDevice>)
        ensures
            r is Some <==> bond_map_contents(*self).dom().contains(key),
            r matches Some(v) ==> *v == bond_map_contents(*self)[key],
    {
        self.inner.get(&key)
    }

    /// `heapless::IndexMap::contains_key`.
    #[verifier::external_body]
    pub(crate) fn contains_key(&self, key: u16) -> (r: bool)
        ensures
            r == bond_map_contents(*self).dom().contains(key),
    {
        self.inner.contains_key(&key)
    }

    /// `heapless::IndexMap::len`: the number of pairs, never above the
    /// capacity.
    #[verifier::external_body]
    pub(crate) fn len(&self) -> (r: usize)
        ensures
            r == bond_map_contents(*self).dom().len(),
            r <= BOND_MAP_CAPACITY,
    {
        self.inner.len()
    }

    /// `heapless::IndexMap::keys`, collected: each key once.
    #[verifier::external_body]
    pub(crate) fn keys(&self) -> (r: Vec<u16>)
        ensures
            r@.to_set() == bond_map_contents(*self).dom(),
            r@.no_duplicates(),
    {
        self.inner.keys().copied().collect()
    }
}

/// Capacity of an [`AdvDataBuf`]: advertising data and scan response.
pub const ADV_DATA_BUF_CAPACITY: usize = 62;

/// A `heapless::Vec<u8, 62>`: advertising data followed by scan response
/// data.
#[verifier::external_body]
pub struct AdvDataBuf {
    inner: heapless::Vec<u8, 62>,
}

/// The bytes that an [`AdvDataBuf`] holds, in order.
pub uninterp spec fn adv_data_buf_contents(b: AdvDataBuf) -> Seq<u8>;

impl AdvDataBuf {
    /// `heapless::Vec::new`: an empty vector.
    #[verifier::external_body]
    pub(crate) fn new() -> (r: AdvDataBuf)
        ensures
            adv_data_buf_contents(r) == Seq::<u8>::empty(),
    {
        AdvDataBuf { inner: heapless::Vec::new() }
    }

    /// `heapless::Vec::as_slice`: the bytes held.
    #[verifier::external_body]
    pub(crate) fn as_slice(&self) -> (r: &[u8])
        ensures
            r@ == adv_data_buf_contents(*self),
    {
        self.inner.as_slice()
    }

    /// `heapless::Vec::extend_from_slice`: appends all of `other` when it fits
    /// (`true`), else changes nothing (`false`).
    #[verifier::external_body]
    pub(crate) fn extend_from_slice(&mut self, other: &[u8]) -> (ok: bool)
        ensures
            ok == (adv_data_buf_contents(*old(self)).len() + other@.len() <= ADV_DATA_BUF_CAPACITY),
            ok ==> adv_data_buf_contents(*final(self)) == adv_data_buf_contents(*old(self)) + other@,
            !ok ==> adv_data_buf_contents(*final(self)) == adv_data_buf_contents(*old(self)),
        no_unwind
    {
        self.inner.extend_from_slice(other).is_ok()
    }

    /// `heapless::Vec::clear`: removes every byte.
    #[verifier::external_body]
    pub(crate) fn clear(&mut self)
        ensures
            adv_data_buf_contents(*final(self)) == Seq::<u8>::empty(),
        no_unwind
    {
        self.inner.clear()
    }
}

} // verus!
