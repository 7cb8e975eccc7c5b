//! GAP state: device identity, advertising configuration and connection
//! state, in fixed-size storage.
use vstd::prelude::*;

verus! {

/// Maximum device name length (GAP specification limit).
pub const MAX_DEVICE_NAME_LEN: usize = 32;

/// Maximum advertising data length (BLE specification).
pub const MAX_ADV_DATA_LEN: usize = 31;

/// Status flag: connected.
pub const FLAG_CONNECTED: u8 = 0x01;

/// Status flag: RSSI reporting.
pub const FLAG_RSSI_REPORTING: u8 = 0x02;

/// Status flag: bonded.
pub const FLAG_BONDED: u8 = 0x04;

/// Status flag: encrypted.
pub const FLAG_ENCRYPTED: u8 = 0x08;

/// The connection handle that means "not connected".
pub const CONN_HANDLE_INVALID: u16 = 0xFFFF;

/// Advertising state.
#[derive(Debug, Clone, Copy, PartialEq, Eq, Structural)]
pub enum AdvState {
    Stopped,
    Starting,
    Active,
    Stopping,
}

impl AdvState {
    /// The stored encoding of a state.
    pub open spec fn value(self) -> u8 {
        match self {
            AdvState::Stopped => 0,
            AdvState::Starting => 1,
            AdvState::Active => 2,
            AdvState::Stopping => 3,
        }
    }

    /// The stored encoding of a state.
    pub fn to_u8(self) -> (r: u8)
        ensures
            r == self.value(),
    {
        match self {
            AdvState::Stopped => 0,
            AdvState::Starting => 1,
            AdvState::Active => 2,
            AdvState::Stopping => 3,
        }
    }

    /// The state a stored byte encodes; an unknown byte reads as `Stopped`.
    pub open spec fn decode(b: u8) -> AdvState {
        if b == 1 {
            AdvState::Starting
        } else if b == 2 {
            AdvState::Active
        } else if b == 3 {
            AdvState::Stopping
        } else {
            AdvState::Stopped
        }
    }
}

/// Connection parameters (the SoftDevice's `ble_gap_conn_params_t`).
#[derive(Debug, Clone, Copy, PartialEq, Eq)]
pub struct ConnectionParams {
    /// Connection interval minimum (1.25 ms units)
    pub min_conn_interval: u16,
    /// Connection interval maximum (1.25 ms units)
    pub max_conn_interval: u16,
    /// Slave latency
    pub slave_latency: u16,
    /// Connection supervisory timeout (10 ms units)
    pub conn_sup_timeout: u16,
}

impl ConnectionParams {
    /// The default parameters: 30-50 ms interval, no latency, 4 s timeout.
    pub open spec fn spec_default() -> ConnectionParams {
        ConnectionParams {
            min_conn_interval: 24,
            max_conn_interval: 40,
            slave_latency: 0,
            conn_sup_timeout: 400,
        }
    }
}

impl Default for ConnectionParams {
    fn default() -> (r: Self)
        ensures
            r == ConnectionParams::spec_default(),
    {
        Self { min_conn_interval: 24, max_conn_interval: 40, slave_latency: 0, conn_sup_timeout: 400 }
    }
}

/// GAP state.
pub struct GapState {
    pub device_name: [u8; MAX_DEVICE_NAME_LEN],
    pub device_name_len: u8,
    pub device_addr: [u8; 6],
    pub addr_type: u8,
    pub adv_data: [u8; MAX_ADV_DATA_LEN],
    pub scan_rsp_data: [u8; MAX_ADV_DATA_LEN],
    pub adv_data_len: u8,
    pub scan_rsp_len: u8,
    pub adv_handle: u8,
    pub adv_state: u8,
    pub adv_interval_min: u16,
    pub adv_interval_max: u16,
    pub adv_timeout: u16,
    pub preferred_conn_params: ConnectionParams,
    pub conn_handle: u16,
    pub peer_addr: [u8; 6],
    pub peer_addr_type: u8,
    pub current_mtu: u16,
    pub tx_power: i8,
    pub status_flags: u8,
}

/// `data` cut to at most `max` bytes and padded with zeros to exactly `max`.
pub open spec fn padded(data: Seq<u8>, max: nat) -> Seq<u8> {
    let len = if data.len() < max { data.len() } else { max };
    data.subrange(0, len as int) + Seq::new((max - len) as nat, |i: int| 0u8)
}

/// The length `data` is cut to when stored in `max` bytes.
pub open spec fn stored_len(data: Seq<u8>, max: nat) -> nat {
    if data.len() < max {
        data.len()
    } else {
        max
    }
}

/// Copy the first `len` bytes of `src` to `dst` and zero the rest.
fn store_padded<const N: usize>(dst: &mut [u8; N], src: &[u8], len: usize)
    requires
        len <= N,
        len <= src@.len(),
    ensures
        final(dst)@ == src@.subrange(0, len as int) + Seq::new((N - len) as nat, |i: int| 0u8),
{
    let mut i: usize = 0;
    while i < N
        invariant
            i <= N,
            len <= N,
            len <= src@.len(),
            dst@.len() == N,
            forall|j: int| 0 <= j < i && j < len ==> dst@[j] == src@[j],
            forall|j: int| 0 <= j < i && j >= len ==> dst@[j] == 0u8,
        decreases N - i,
    {
        if i < len {
            dst[i] = src[i];
        } else {
            dst[i] = 0;
        }
        i = i + 1;
    }
    assert(dst@ =~= src@.subrange(0, len as int) + Seq::new((N - len) as nat, |i: int| 0u8));
}

impl GapState {
    /// A zeroed state: empty name, advertising stopped, default intervals
    /// and connection parameters, disconnected, MTU 23.
    pub fn new() -> (r: Self)
        ensures
            r.device_name@ == Seq::new(MAX_DEVICE_NAME_LEN as nat, |i: int| 0u8),
            r.device_name_len == 0,
            r.device_addr@ == seq![0u8, 0u8, 0u8, 0u8, 0u8, 0u8],
            r.addr_type == 0,
            r.adv_data@ == Seq::new(MAX_ADV_DATA_LEN as nat, |i: int| 0u8),
            r.scan_rsp_data@ == Seq::new(MAX_ADV_DATA_LEN as nat, |i: int| 0u8),
            r.adv_data_len == 0,
            r.scan_rsp_len == 0,
            r.adv_handle == 0,
            r.adv_state == AdvState::Stopped.value(),
            r.adv_interval_min == 160,
            r.adv_interval_max == 320,
            r.adv_timeout == 0,
            r.preferred_conn_params == ConnectionParams::spec_default(),
            r.conn_handle == CONN_HANDLE_INVALID,
            r.peer_addr@ == seq![0u8, 0u8, 0u8, 0u8, 0u8, 0u8],
            r.peer_addr_type == 0,
            r.current_mtu == 23,
            r.tx_power == 0,
            r.status_flags == 0,
    {
        let r = Self {
            device_name: [0u8; MAX_DEVICE_NAME_LEN],
            device_name_len: 0,
            device_addr: [0u8; 6],
            addr_type: 0,
            adv_data: [0u8; MAX_ADV_DATA_LEN],
            scan_rsp_data: [0u8; MAX_ADV_DATA_LEN],
            adv_data_len: 0,
            scan_rsp_len: 0,
            adv_handle: 0,
            adv_state: AdvState::Stopped.to_u8(),
            adv_interval_min: 160,
            adv_interval_max: 320,
            adv_timeout: 0,
            preferred_conn_params: ConnectionParams::default(),
            conn_handle: CONN_HANDLE_INVALID,
            peer_addr: [0u8; 6],
            peer_addr_type: 0,
            current_mtu: 23,
            tx_power: 0,
            status_flags: 0,
        };
        assert(r.device_name@ =~= Seq::new(MAX_DEVICE_NAME_LEN as nat, |i: int| 0u8));
        assert(r.device_addr@ =~= seq![0u8, 0u8, 0u8, 0u8, 0u8, 0u8]);
        assert(r.peer_addr@ =~= seq![0u8, 0u8, 0u8, 0u8, 0u8, 0u8]);
        assert(r.adv_data@ =~= Seq::new(MAX_ADV_DATA_LEN as nat, |i: int| 0u8));
        assert(r.scan_rsp_data@ =~= Seq::new(MAX_ADV_DATA_LEN as nat, |i: int| 0u8));
        r
    }

    /// The current advertising state; an unknown stored value reads as
    /// `Stopped`.
    pub fn adv_state(&self) -> (r: AdvState)
        ensures
            r == AdvState::decode(self.adv_state),
    {
        match self.adv_state {
            0 => AdvState::Stopped,
            1 => AdvState::Starting,
            2 => AdvState::Active,
            3 => AdvState::Stopping,
            _ => AdvState::Stopped,
        }
    }

    /// Set the advertising state.
    pub fn set_adv_state(&mut self, state: AdvState)
        ensures
            *final(self) == (GapState { adv_state: state.value(), ..*old(self) }),
    {
        self.adv_state = state.to_u8();
    }

    /// Whether the connected flag is set.
    pub open spec fn spec_is_connected(self) -> bool {
        self.status_flags & FLAG_CONNECTED != 0
    }

    /// Whether the connected flag is set.
    pub fn is_connected(&self) -> (r: bool)
        ensures
            r == self.spec_is_connected(),
    {
        (self.status_flags & FLAG_CONNECTED) != 0
    }

    /// Set or clear the connected flag; clearing it also forgets the
    /// connection handle.  The other flags are kept.
    pub fn set_connected(&mut self, connected: bool)
        ensures
            final(self).spec_is_connected() == connected,
            final(self).status_flags & !FLAG_CONNECTED == old(self).status_flags & !FLAG_CONNECTED,
            connected ==> *final(self) == (GapState {
                status_flags: final(self).status_flags,
                ..*old(self)
            }),
            !connected ==> *final(self) == (GapState {
                status_flags: final(self).status_flags,
                conn_handle: CONN_HANDLE_INVALID,
                ..*old(self)
            }),
    {
        let old_flags = self.status_flags;
        if connected {
            self.status_flags = old_flags | FLAG_CONNECTED;
            assert((old_flags | 1u8) & 1u8 != 0u8 && (old_flags | 1u8) & !1u8 == old_flags & !1u8)
                by (bit_vector);
        } else {
            self.status_flags = old_flags & !FLAG_CONNECTED;
            self.conn_handle = CONN_HANDLE_INVALID;
            assert((old_flags & !1u8) & 1u8 == 0u8 && (old_flags & !1u8) & !1u8 == old_flags & !1u8)
                by (bit_vector);
        }
    }

    /// Set the device name, cut to [`MAX_DEVICE_NAME_LEN`] bytes; the unused
    /// bytes are zeroed.
    pub fn set_device_name(&mut self, name: &[u8])
        ensures
            final(self).device_name_len == stored_len(name@, MAX_DEVICE_NAME_LEN as nat),
            final(self).device_name@ == padded(name@, MAX_DEVICE_NAME_LEN as nat),
            *final(self) == (GapState {
                device_name: final(self).device_name,
                device_name_len: final(self).device_name_len,
                ..*old(self)
            }),
    {
        let len = if name.len() < MAX_DEVICE_NAME_LEN {
            name.len()
        } else {
            MAX_DEVICE_NAME_LEN
        };
        store_padded(&mut self.device_name, name, len);
        self.device_name_len = len as u8;
    }

    /// The device name.
    pub fn device_name(&self) -> (r: &[u8])
        requires
            self.device_name_len <= MAX_DEVICE_NAME_LEN,
        ensures
            r@ == self.device_name@.subrange(0, self.device_name_len as int),
    {
        vstd::slice::slice_subrange(self.device_name.as_slice(), 0, self.device_name_len as usize)
    }

    /// Set the advertising data, cut to [`MAX_ADV_DATA_LEN`] bytes; the
    /// unused bytes are zeroed.
    pub fn set_adv_data(&mut self, data: &[u8])
        ensures
            final(self).adv_data_len == stored_len(data@, MAX_ADV_DATA_LEN as nat),
            final(self).adv_data@ == padded(data@, MAX_ADV_DATA_LEN as nat),
            *final(self) == (GapState {
                adv_data: final(self).adv_data,
                adv_data_len: final(self).adv_data_len,
                ..*old(self)
            }),
    {
        let len = if data.len() < MAX_ADV_DATA_LEN {
            data.len()
        } else {
            MAX_ADV_DATA_LEN
        };
        store_padded(&mut self.adv_data, data, len);
        self.adv_data_len = len as u8;
    }

    /// The advertising data.
    pub fn adv_data(&self) -> (r: &[u8])
        requires
            self.adv_data_len <= MAX_ADV_DATA_LEN,
        ensures
            r@ == self.adv_data@.subrange(0, self.adv_data_len as int),
    {
        vstd::slice::slice_subrange(self.adv_data.as_slice(), 0, self.adv_data_len as usize)
    }

    /// Set the scan response data, cut to [`MAX_ADV_DATA_LEN`] bytes; the
    /// unused bytes are zeroed.
    pub fn set_scan_response(&mut self, data: &[u8])
        ensures
            final(self).scan_rsp_len == stored_len(data@, MAX_ADV_DATA_LEN as nat),
            final(self).scan_rsp_data@ == padded(data@, MAX_ADV_DATA_LEN as nat),
            *final(self) == (GapState {
                scan_rsp_data: final(self).scan_rsp_data,
                scan_rsp_len: final(self).scan_rsp_len,
                ..*old(self)
            }),
    {
        let len = if data.len() < MAX_ADV_DATA_LEN {
            data.len()
        } else {
            MAX_ADV_DATA_LEN
        };
        store_padded(&mut self.scan_rsp_data, data, len);
        self.scan_rsp_len = len as u8;
    }

    /// The scan response data.
    pub fn scan_response(&self) -> (r: &[u8])
        requires
            self.scan_rsp_len <= MAX_ADV_DATA_LEN,
        ensures
            r@ == self.scan_rsp_data@.subrange(0, self.scan_rsp_len as int),
    {
        vstd::slice::slice_subrange(self.scan_rsp_data.as_slice(), 0, self.scan_rsp_len as usize)
    }
}

impl Default for GapState {
    /// The power-on state: as [`GapState::new`], named "BLE_Modem".
    fn default() -> (r: Self)
        ensures
            r.device_name_len == 9,
            r.device_name@ == padded(
                seq![0x42u8, 0x4Cu8, 0x45u8, 0x5Fu8, 0x4Du8, 0x6Fu8, 0x64u8, 0x65u8, 0x6Du8],
                MAX_DEVICE_NAME_LEN as nat,
            ),
            r.device_addr@ == seq![0u8, 0u8, 0u8, 0u8, 0u8, 0u8],
            r.addr_type == 0,
            r.adv_data@ == Seq::new(MAX_ADV_DATA_LEN as nat, |i: int| 0u8),
            r.scan_rsp_data@ == Seq::new(MAX_ADV_DATA_LEN as nat, |i: int| 0u8),
            r.adv_data_len == 0,
            r.scan_rsp_len == 0,
            r.adv_handle == 0,
            r.adv_state == AdvState::Stopped.value(),
            r.adv_interval_min == 160,
            r.adv_interval_max == 320,
            r.adv_timeout == 0,
            r.preferred_conn_params == ConnectionParams::spec_default(),
            r.conn_handle == CONN_HANDLE_INVALID,
            r.peer_addr@ == seq![0u8, 0u8, 0u8, 0u8, 0u8, 0u8],
            r.peer_addr_type == 0,
            r.current_mtu == 23,
            r.tx_power == 0,
            r.status_flags == 0,
    {
        let mut state = Self::new();
        let default_name: [u8; 9] = [0x42, 0x4C, 0x45, 0x5F, 0x4D, 0x6F, 0x64, 0x65, 0x6D];
        assert(default_name@ =~= seq![0x42u8, 0x4Cu8, 0x45u8, 0x5Fu8, 0x4Du8, 0x6Fu8, 0x64u8, 0x65u8, 0x6Du8]);
        state.set_device_name(default_name.as_slice());
        state
    }
}

/// Storing bytes with a setter and reading them back with the matching
/// getter (device name, advertising data, scan response) gives the bytes,
/// cut to the storage size.
pub proof fn lemma_store_read_back(data: Seq<u8>, max: nat)
    ensures
        padded(data, max).subrange(0, stored_len(data, max) as int) == data.subrange(
            0,
            stored_len(data, max) as int,
        ),
        stored_len(data, max) <= max,
        stored_len(data, max) <= data.len(),
{
    let len = stored_len(data, max);
    assert(padded(data, max).subrange(0, len as int) =~= data.subrange(0, len as int));
}

} // verus!
