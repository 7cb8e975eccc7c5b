//! The advertising controller: what the host asked for (start, stop,
//! configure) and the advertising data it configured, and the decisions of
//! the task that runs advertising on the SoftDevice.
//!
//! The task itself waits on the SoftDevice; each of its steps here takes
//! the controller and GAP state and says what to do next: apply a queued
//! command, advertise (with which data) or idle, and record a connection,
//! its end or a failed attempt.
use vstd::prelude::*;

use crate::ble::connection::{new_connection, ConnectionEvent, ConnectionManager, ConnectionParams};
use crate::ble::events::{create_connected_event, create_disconnected_event, BleModemEvent};
use crate::ble::gap_state::{AdvState, GapState, CONN_HANDLE_INVALID, FLAG_CONNECTED, MAX_ADV_DATA_LEN};
use crate::collections::{adv_data_buf_contents, AdvDataBuf, ADV_DATA_BUF_CAPACITY};

verus! {

/// Room for advertising data and scan response data together.
pub const MAX_COMBINED_ADV_DATA: usize = 62;

/// Advertising command types.
#[derive(Debug, Clone, Copy, PartialEq, Eq, Structural)]
pub enum AdvCommand {
    Start { handle: u8, conn_cfg_tag: u8 },
    Stop { handle: u8 },
    Configure { handle: u8, data_present: bool },
}

/// Radio PHY.
#[derive(Debug, Clone, Copy, PartialEq, Eq, Structural)]
pub enum Phy {
    M1,
    M2,
    Coded,
}

/// Which requests the advertiser filters by its accept list.
#[derive(Debug, Clone, Copy, PartialEq, Eq, Structural)]
pub enum FilterPolicy {
    Any,
    ScanRequests,
    ConnectionRequests,
    Both,
}

/// Advertising configuration.
#[derive(Debug, Clone, Copy, PartialEq, Eq, Structural)]
pub struct AdvConfig {
    pub primary_phy: Phy,
    pub secondary_phy: Phy,
    /// TX power in dBm.
    pub tx_power: i8,
    /// Timeout, in 10 ms units.
    pub timeout: Option<u16>,
    pub max_events: Option<u8>,
    /// Advertising interval, in 0.625 ms units.
    pub interval: u32,
    pub filter_policy: FilterPolicy,
}

/// The configuration a controller starts with: 1M PHYs, 0 dBm, no timeout
/// or event limit, 250 ms interval, no filtering.
pub open spec fn default_config() -> AdvConfig {
    AdvConfig {
        primary_phy: Phy::M1,
        secondary_phy: Phy::M1,
        tx_power: 0,
        timeout: None,
        max_events: None,
        interval: 400,
        filter_policy: FilterPolicy::Any,
    }
}

/// Advertising controller state.
pub struct AdvController {
    config: AdvConfig,
    combined_data: AdvDataBuf,
    adv_data_len: usize,
    advertising_requested: bool,
    handle: u8,
}

impl AdvController {
    #[verifier::type_invariant]
    spec fn inv(self) -> bool {
        self.adv_data_len <= adv_data_buf_contents(self.combined_data).len()
    }

    /// The advertising data.
    pub closed spec fn spec_adv_data(self) -> Seq<u8> {
        adv_data_buf_contents(self.combined_data).subrange(0, self.adv_data_len as int)
    }

    /// The scan response data.
    pub closed spec fn spec_scan_data(self) -> Seq<u8> {
        adv_data_buf_contents(self.combined_data).subrange(
            self.adv_data_len as int,
            adv_data_buf_contents(self.combined_data).len() as int,
        )
    }

    /// Whether advertising is requested.
    pub closed spec fn spec_requested(self) -> bool {
        self.advertising_requested
    }

    /// The current advertising handle.
    pub closed spec fn spec_handle(self) -> u8 {
        self.handle
    }

    /// The current configuration.
    pub closed spec fn spec_config(self) -> AdvConfig {
        self.config
    }

    /// A controller with no data, not advertising, handle 0, default
    /// configuration.
    pub fn new() -> (r: Self)
        ensures
            r.spec_adv_data() == Seq::<u8>::empty(),
            r.spec_scan_data() == Seq::<u8>::empty(),
            !r.spec_requested(),
            r.spec_handle() == 0,
            r.spec_config() == default_config(),
    {
        let r = Self {
            config: AdvConfig {
                primary_phy: Phy::M1,
                secondary_phy: Phy::M1,
                tx_power: 0,
                timeout: None,
                max_events: None,
                interval: 400,
                filter_policy: FilterPolicy::Any,
            },
            combined_data: AdvDataBuf::new(),
            adv_data_len: 0,
            advertising_requested: false,
            handle: 0,
        };
        assert(r.spec_adv_data() =~= Seq::<u8>::empty());
        assert(r.spec_scan_data() =~= Seq::<u8>::empty());
        r
    }

    /// Store advertising data and scan response data.  When both do not
    /// fit in [`MAX_COMBINED_ADV_DATA`] bytes the result is `Err` and the
    /// scan response is empty; the advertising data is kept when it fits
    /// alone, else it is empty too.
    pub fn configure_data(&mut self, adv_data: &[u8], scan_data: &[u8]) -> (r: Result<(), ()>)
        ensures
            r is Ok <==> adv_data@.len() + scan_data@.len() <= MAX_COMBINED_ADV_DATA,
            adv_data@.len() <= MAX_COMBINED_ADV_DATA ==> final(self).spec_adv_data() == adv_data@,
            adv_data@.len() > MAX_COMBINED_ADV_DATA ==> final(self).spec_adv_data() == Seq::<
                u8,
            >::empty(),
            r is Ok ==> final(self).spec_scan_data() == scan_data@,
            r is Err ==> final(self).spec_scan_data() == Seq::<u8>::empty(),
            final(self).spec_requested() == old(self).spec_requested(),
            final(self).spec_handle() == old(self).spec_handle(),
            final(self).spec_config() == old(self).spec_config(),
    {
        proof {
            use_type_invariant(&*self);
        }
        self.adv_data_len = 0;
        self.combined_data.clear();
        if !self.combined_data.extend_from_slice(adv_data) {
            proof {
                assert(self.spec_adv_data() =~= Seq::<u8>::empty());
                assert(self.spec_scan_data() =~= Seq::<u8>::empty());
            }
            return Err(());
        }
        self.adv_data_len = adv_data.len();
        if !self.combined_data.extend_from_slice(scan_data) {
            proof {
                assert(self.spec_scan_data() =~= Seq::<u8>::empty());
                assert(self.spec_adv_data() =~= adv_data@);
            }
            return Err(());
        }
        proof {
            assert(self.spec_scan_data() =~= scan_data@);
            assert(self.spec_adv_data() =~= adv_data@);
        }
        Ok(())
    }

    /// The advertising data.
    pub fn adv_data(&self) -> (r: &[u8])
        ensures
            r@ == self.spec_adv_data(),
    {
        proof {
            use_type_invariant(self);
        }
        vstd::slice::slice_subrange(self.combined_data.as_slice(), 0, self.adv_data_len)
    }

    /// The scan response data.
    pub fn scan_data(&self) -> (r: &[u8])
        ensures
            r@ == self.spec_scan_data(),
    {
        proof {
            use_type_invariant(self);
        }
        let all = self.combined_data.as_slice();
        vstd::slice::slice_subrange(all, self.adv_data_len, all.len())
    }

    /// Request advertising on a handle.
    pub fn start_advertising(&mut self, handle: u8, _conn_cfg_tag: u8)
        ensures
            final(self).spec_requested(),
            final(self).spec_handle() == handle,
            final(self).spec_adv_data() == old(self).spec_adv_data(),
            final(self).spec_scan_data() == old(self).spec_scan_data(),
            final(self).spec_config() == old(self).spec_config(),
    {
        proof {
            use_type_invariant(&*self);
        }
        self.advertising_requested = true;
        self.handle = handle;
    }

    /// Stop advertising, when `handle` is the one advertising.
    pub fn stop_advertising(&mut self, handle: u8)
        ensures
            final(self).spec_requested() == (old(self).spec_requested() && old(self).spec_handle()
                != handle),
            final(self).spec_handle() == old(self).spec_handle(),
            final(self).spec_adv_data() == old(self).spec_adv_data(),
            final(self).spec_scan_data() == old(self).spec_scan_data(),
            final(self).spec_config() == old(self).spec_config(),
    {
        proof {
            use_type_invariant(&*self);
        }
        if self.handle == handle {
            self.advertising_requested = false;
        }
    }

    /// Whether advertising is requested.
    pub fn is_advertising_requested(&self) -> (r: bool)
        ensures
            r == self.spec_requested(),
    {
        self.advertising_requested
    }

    /// The current configuration.
    pub fn config(&self) -> (r: &AdvConfig)
        ensures
            *r == self.spec_config(),
    {
        &self.config
    }

    /// Replace the configuration.
    pub fn update_config(&mut self, config: AdvConfig)
        ensures
            final(self).spec_config() == config,
            final(self).spec_requested() == old(self).spec_requested(),
            final(self).spec_handle() == old(self).spec_handle(),
            final(self).spec_adv_data() == old(self).spec_adv_data(),
            final(self).spec_scan_data() == old(self).spec_scan_data(),
    {
        proof {
            use_type_invariant(&*self);
        }
        self.config = config;
    }

    /// Stop requesting advertising.
    fn clear_request(&mut self)
        ensures
            !final(self).spec_requested(),
            final(self).spec_handle() == old(self).spec_handle(),
            final(self).spec_adv_data() == old(self).spec_adv_data(),
            final(self).spec_scan_data() == old(self).spec_scan_data(),
            final(self).spec_config() == old(self).spec_config(),
    {
        proof {
            use_type_invariant(&*self);
        }
        self.advertising_requested = false;
    }

    /// Set the advertising handle.
    fn set_handle(&mut self, handle: u8)
        ensures
            final(self).spec_handle() == handle,
            final(self).spec_requested() == old(self).spec_requested(),
            final(self).spec_adv_data() == old(self).spec_adv_data(),
            final(self).spec_scan_data() == old(self).spec_scan_data(),
            final(self).spec_config() == old(self).spec_config(),
    {
        proof {
            use_type_invariant(&*self);
        }
        self.handle = handle;
    }
}

/// The advertising data used when none is configured: flags (general
/// discoverable, LE only) and the complete local name "BLE_Modem".
pub open spec fn default_adv_data() -> Seq<u8> {
    seq![
        0x02u8,
        0x01u8,
        0x06u8,
        0x0Au8,
        0x09u8,
        0x42u8,
        0x4Cu8,
        0x45u8,
        0x5Fu8,
        0x4Du8,
        0x6Fu8,
        0x64u8,
        0x65u8,
        0x6Du8,
    ]
}

/// The GAP state's stored lengths are within their buffers.
pub open spec fn gap_data_in_bounds(gap: GapState) -> bool {
    gap.adv_data_len <= MAX_ADV_DATA_LEN && gap.scan_rsp_len <= MAX_ADV_DATA_LEN
}

/// Apply a command taken from the queue: Start requests advertising on its
/// handle and marks the GAP state Starting; Stop stops advertising on its
/// handle and marks the GAP state Stopping; Configure takes the advertising
/// and scan response data from the GAP state when data is present, and
/// the handle.
pub fn apply_command(controller: &mut AdvController, gap: &mut GapState, cmd: AdvCommand)
    requires
        gap_data_in_bounds(*old(gap)),
    ensures
        match cmd {
            AdvCommand::Start { handle, .. } => {
                &&& final(controller).spec_requested()
                &&& final(controller).spec_handle() == handle
                &&& final(controller).spec_adv_data() == old(controller).spec_adv_data()
                &&& final(controller).spec_scan_data() == old(controller).spec_scan_data()
                &&& *final(gap) == (GapState {
                    adv_state: AdvState::Starting.value(),
                    adv_handle: handle,
                    ..*old(gap)
                })
            },
            AdvCommand::Stop { handle } => {
                &&& final(controller).spec_requested() == (old(controller).spec_requested() && old(controller).spec_handle() != handle)
                &&& final(controller).spec_handle() == old(controller).spec_handle()
                &&& final(controller).spec_adv_data() == old(controller).spec_adv_data()
                &&& final(controller).spec_scan_data() == old(controller).spec_scan_data()
                &&& *final(gap) == (GapState { adv_state: AdvState::Stopping.value(), ..*old(gap) })
            },
            AdvCommand::Configure { handle, data_present } => {
                &&& final(controller).spec_requested() == old(controller).spec_requested()
                &&& final(controller).spec_handle() == handle
                &&& data_present ==> final(controller).spec_adv_data() == old(gap).adv_data@.subrange(
                    0,
                    old(gap).adv_data_len as int,
                ) && final(controller).spec_scan_data() == old(gap).scan_rsp_data@.subrange(
                    0,
                    old(gap).scan_rsp_len as int,
                )
                &&& !data_present ==> final(controller).spec_adv_data() == old(controller).spec_adv_data() && final(controller).spec_scan_data() == old(controller).spec_scan_data()
                &&& *final(gap) == *old(gap)
            },
        },
        final(controller).spec_config() == old(controller).spec_config(),
{
    match cmd {
        AdvCommand::Start { handle, conn_cfg_tag } => {
            controller.start_advertising(handle, conn_cfg_tag);
            gap.set_adv_state(AdvState::Starting);
            gap.adv_handle = handle;
        },
        AdvCommand::Stop { handle } => {
            controller.stop_advertising(handle);
            gap.set_adv_state(AdvState::Stopping);
        },
        AdvCommand::Configure { handle, data_present } => {
            if data_present {
                let adv_data = gap.adv_data();
                let scan_data = gap.scan_response();
                let _ = controller.configure_data(adv_data, scan_data);
            }
            controller.set_handle(handle);
        },
    }
}

/// What to advertise: advertising data, scan response data and
/// configuration.
#[derive(Debug)]
pub struct AdvertisingPlan {
    pub adv_data: Vec<u8>,
    pub scan_data: Vec<u8>,
    pub config: AdvConfig,
}

/// The data advertised for configured bytes: the bytes when present and
/// at most 31 long, nothing when longer, `default` when none.
pub open spec fn advertised(configured: Seq<u8>, default: Seq<u8>) -> Seq<u8> {
    if configured.len() == 0 {
        default
    } else if configured.len() <= MAX_ADV_DATA_LEN {
        configured
    } else {
        Seq::empty()
    }
}

/// A copy of a slice as a vector.
fn slice_to_vec(data: &[u8]) -> (r: Vec<u8>)
    ensures
        r@ == data@,
{
    let mut out: Vec<u8> = Vec::new();
    let mut i: usize = 0;
    while i < data.len()
        invariant
            i <= data@.len(),
            out@ == data@.subrange(0, i as int),
        decreases data@.len() - i,
    {
        out.push(data[i]);
        i = i + 1;
        assert(out@ =~= data@.subrange(0, i as int));
    }
    assert(out@ =~= data@);
    out
}

/// The data to advertise for configured bytes (see [`advertised`]).
fn advertised_copy(configured: &[u8], default: &[u8]) -> (r: Vec<u8>)
    ensures
        r@ == advertised(configured@, default@),
{
    if configured.len() == 0 {
        slice_to_vec(default)
    } else if configured.len() <= MAX_ADV_DATA_LEN {
        slice_to_vec(configured)
    } else {
        Vec::new()
    }
}

/// The advertising task's decision on each round: when advertising is
/// requested, the GAP state turns Active and the plan says what to
/// advertise (configured data, or the defaults); otherwise the GAP state
/// turns Stopped and the task idles.
pub fn prepare_advertising(controller: &AdvController, gap: &mut GapState) -> (r: Option<AdvertisingPlan>)
    ensures
        controller.spec_requested() ==> (r matches Some(plan) && plan.adv_data@ == advertised(
            controller.spec_adv_data(),
            default_adv_data(),
        ) && plan.scan_data@ == advertised(controller.spec_scan_data(), Seq::empty())
            && plan.config == controller.spec_config()) && *final(gap) == (GapState {
            adv_state: AdvState::Active.value(),
            ..*old(gap)
        }),
        !controller.spec_requested() ==> r is None && (AdvState::decode(old(gap).adv_state)
            == AdvState::Stopped ==> *final(gap) == *old(gap)) && (AdvState::decode(old(gap).adv_state)
            != AdvState::Stopped ==> *final(gap) == (GapState {
            adv_state: AdvState::Stopped.value(),
            ..*old(gap)
        })),
{
    if controller.is_advertising_requested() {
        let default_adv: [u8; 14] = [
            0x02,
            0x01,
            0x06,
            0x0A,
            0x09,
            0x42,
            0x4C,
            0x45,
            0x5F,
            0x4D,
            0x6F,
            0x64,
            0x65,
            0x6D,
        ];
        assert(default_adv@ =~= default_adv_data());
        let no_data: [u8; 0] = [];
        assert(no_data@ =~= Seq::<u8>::empty());
        let adv_data = advertised_copy(controller.adv_data(), default_adv.as_slice());
        let scan_data = advertised_copy(controller.scan_data(), no_data.as_slice());
        let config = *controller.config();
        gap.set_adv_state(AdvState::Active);
        Some(AdvertisingPlan { adv_data, scan_data, config })
    } else {
        if gap.adv_state() != AdvState::Stopped {
            gap.set_adv_state(AdvState::Stopped);
        }
        None
    }
}

/// The ATT MTU a new connection starts with.
pub const DEFAULT_ATT_MTU: u16 = 23;

/// The HCI reason recorded when a connection ends: remote user terminated.
pub const REMOTE_USER_TERMINATED: u8 = 0x13;

/// Record a new connection: register it (MTU 23) with the connection
/// manager, mark the GAP state connected on its handle, stop requesting
/// advertising; the result is the Connected event to forward.
pub fn on_connected(
    controller: &mut AdvController,
    gap: &mut GapState,
    connections: &mut ConnectionManager,
    conn_handle: Option<u16>,
) -> (r: BleModemEvent)
    ensures
        ({
            let h = match conn_handle {
                Some(h) => h,
                None => 0,
            };
            &&& r matches BleModemEvent::Connected { conn_handle: c, peer_addr: a, addr_type: t } && c
                == h && a@ == seq![0u8, 0u8, 0u8, 0u8, 0u8, 0u8] && t == 0
            &&& final(gap).spec_is_connected()
            &&& final(gap).status_flags & !FLAG_CONNECTED == old(gap).status_flags & !FLAG_CONNECTED
            &&& *final(gap) == (GapState {
                status_flags: final(gap).status_flags,
                conn_handle: h,
                ..*old(gap)
            })
            &&& !final(controller).spec_requested()
            &&& (h != 0 && !old(connections).spec_connections().dom().contains(h) && old(connections).spec_connections().dom().len() < 2 ==> final(connections).spec_connections() == old(connections).spec_connections().insert(h, new_connection(h, DEFAULT_ATT_MTU)))
            &&& (h == 0 || old(connections).spec_connections().dom().contains(h) || old(connections).spec_connections().dom().len() >= 2 ==> final(connections).spec_connections() == old(connections).spec_connections() && final(connections).spec_offered() == old(connections).spec_offered())
            &&& (h != 0 && !old(connections).spec_connections().dom().contains(h) && old(connections).spec_connections().dom().len() < 2 ==> final(connections).spec_offered() == old(connections).offered_with(ConnectionEvent::Connected { handle: h, params: ConnectionParams::spec_default() }))
        }),
        final(connections).spec_forwards_events() == old(connections).spec_forwards_events(),
        final(controller).spec_adv_data() == old(controller).spec_adv_data(),
        final(controller).spec_scan_data() == old(controller).spec_scan_data(),
{
    let handle = match conn_handle {
        Some(h) => h,
        None => 0,
    };
    let _ = connections.add_connection(handle, DEFAULT_ATT_MTU);
    gap.set_connected(true);
    gap.conn_handle = handle;
    controller.clear_request();
    create_connected_event(conn_handle)
}

/// Record the end of a connection: unregister it, mark the GAP state
/// disconnected; the result is the Disconnected event (reason 0x13) to
/// forward.
pub fn on_disconnected(gap: &mut GapState, connections: &mut ConnectionManager, conn_handle: u16) -> (r:
    BleModemEvent)
    ensures
        r == (BleModemEvent::Disconnected { conn_handle, reason: REMOTE_USER_TERMINATED }),
        !final(gap).spec_is_connected(),
        final(gap).status_flags & !FLAG_CONNECTED == old(gap).status_flags & !FLAG_CONNECTED,
        *final(gap) == (GapState {
            status_flags: final(gap).status_flags,
            conn_handle: CONN_HANDLE_INVALID,
            ..*old(gap)
        }),
        final(connections).spec_connections() == old(connections).spec_connections().remove(
            conn_handle,
        ),
        final(connections).spec_forwards_events() == old(connections).spec_forwards_events(),
        old(connections).spec_connections().dom().contains(conn_handle) ==> final(connections).spec_offered() == old(connections).offered_with(
            ConnectionEvent::Disconnected { handle: conn_handle, reason: REMOTE_USER_TERMINATED },
        ),
        !old(connections).spec_connections().dom().contains(conn_handle) ==> final(connections).spec_offered() == old(connections).spec_offered(),
{
    let _ = connections.remove_connection(conn_handle, REMOTE_USER_TERMINATED);
    let event = create_disconnected_event(conn_handle, REMOTE_USER_TERMINATED);
    gap.set_connected(false);
    event
}

/// Record a failed advertising attempt: the GAP state turns Stopped and
/// advertising is no longer requested.
pub fn on_advertising_failed(controller: &mut AdvController, gap: &mut GapState)
    ensures
        *final(gap) == (GapState { adv_state: AdvState::Stopped.value(), ..*old(gap) }),
        !final(controller).spec_requested(),
        final(controller).spec_handle() == old(controller).spec_handle(),
        final(controller).spec_adv_data() == old(controller).spec_adv_data(),
        final(controller).spec_scan_data() == old(controller).spec_scan_data(),
{
    gap.set_adv_state(AdvState::Stopped);
    controller.clear_request();
}

} // verus!
