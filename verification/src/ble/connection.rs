//! Connection management: the active connections by handle, and the
//! events forwarded to the host when they change.
use vstd::prelude::*;

use crate::collections::{connection_map_contents, ConnectionMap};

verus! {

/// Maximum number of simultaneous connections.
pub const MAX_CONNECTIONS: usize = 2;

/// Connection parameters.
#[derive(Debug, Clone, Copy, PartialEq, Eq, Structural)]
pub struct ConnectionParams {
    /// Minimum connection interval (units of 1.25 ms).
    pub min_conn_interval: u16,
    /// Maximum connection interval (units of 1.25 ms).
    pub max_conn_interval: u16,
    /// Slave latency.
    pub slave_latency: u16,
    /// Supervision timeout (units of 10 ms).
    pub supervision_timeout: u16,
}

impl ConnectionParams {
    /// The default parameters: 30 ms to 50 ms interval, no latency, 4 s
    /// supervision timeout.
    pub open spec fn spec_default() -> ConnectionParams {
        ConnectionParams {
            min_conn_interval: 24,
            max_conn_interval: 40,
            slave_latency: 0,
            supervision_timeout: 400,
        }
    }
}

impl Default for ConnectionParams {
    fn default() -> (r: Self)
        ensures
            r == ConnectionParams::spec_default(),
    {
        Self { min_conn_interval: 24, max_conn_interval: 40, slave_latency: 0, supervision_timeout: 400 }
    }
}

/// Connection information.
#[derive(Debug, Clone, Copy, PartialEq, Eq, Structural)]
pub struct ConnectionInfo {
    /// Connection handle.
    pub handle: u16,
    /// Current MTU size.
    pub mtu: u16,
    /// Connection parameters.
    pub conn_params: ConnectionParams,
}

/// Connection events forwarded to the host.
#[derive(Debug, Clone, Copy, PartialEq, Eq, Structural)]
pub enum ConnectionEvent {
    Connected { handle: u16, params: ConnectionParams },
    Disconnected { handle: u16, reason: u8 },
    ParamsUpdated { handle: u16, params: ConnectionParams },
    MtuChanged { handle: u16, mtu: u16 },
}

/// Connection management errors.
#[derive(Debug, Clone, Copy, PartialEq, Eq, Structural)]
pub enum ConnectionError {
    ConnectionNotFound,
    ConnectionMapFull,
    InvalidHandle,
    DuplicateHandle,
}

/// The sending end of the `embassy_sync` channel that connection events
/// go to.  A channel is a bounded queue; this handle is opaque here.
#[verifier::external_body]
pub struct ConnectionEventSender(
    pub embassy_sync::channel::Sender<
        'static,
        embassy_sync::blocking_mutex::raw::CriticalSectionRawMutex,
        ConnectionEvent,
        8,
    >,
);

/// `embassy_sync::channel::Sender::try_send`: offers an event to the
/// channel without waiting.  Whether there was room depends on the task
/// draining the channel, so nothing is claimed of the outcome; a full
/// channel drops the event, as the caller ignores the result.
#[verifier::external_body]
fn try_send_event(sender: &ConnectionEventSender, event: ConnectionEvent) -> (sent: bool) {
    sender.0.try_send(event).is_ok()
}

/// Connection manager state.
pub struct ConnectionManager {
    connections: ConnectionMap,
    event_sender: Option<ConnectionEventSender>,
    /// The events offered to the host channel so far, oldest first.
    offered: Ghost<Seq<ConnectionEvent>>,
}

/// The connection recorded for a new connection.
pub open spec fn new_connection(handle: u16, mtu: u16) -> ConnectionInfo {
    ConnectionInfo { handle, mtu, conn_params: ConnectionParams::spec_default() }
}

impl ConnectionManager {
    #[verifier::type_invariant]
    spec fn inv(self) -> bool {
        let m = connection_map_contents(self.connections);
        &&& m.dom().finite()
        &&& m.dom().len() <= MAX_CONNECTIONS
        &&& !m.dom().contains(0)
        &&& forall|h: u16| #[trigger] m.dom().contains(h) ==> m[h].handle == h
    }

    /// The active connections by handle.
    pub closed spec fn spec_connections(self) -> Map<u16, ConnectionInfo> {
        connection_map_contents(self.connections)
    }

    /// Whether events are forwarded.
    pub closed spec fn spec_forwards_events(self) -> bool {
        self.event_sender is Some
    }

    /// The events offered to the host channel so far, oldest first.  An
    /// offer does not wait: whether the channel had room for it depends on
    /// the task draining the channel and is not known here.
    pub closed spec fn spec_offered(self) -> Seq<ConnectionEvent> {
        self.offered@
    }

    /// The offered events after `event` is forwarded: appended when events
    /// are forwarded, else unchanged.
    pub open spec fn offered_with(self, event: ConnectionEvent) -> Seq<ConnectionEvent> {
        if self.spec_forwards_events() {
            self.spec_offered().push(event)
        } else {
            self.spec_offered()
        }
    }

    /// What every manager keeps: at most [`MAX_CONNECTIONS`] connections,
    /// none with handle 0, each stored under its own handle.
    pub open spec fn valid(self) -> bool {
        let m = self.spec_connections();
        &&& m.dom().finite()
        &&& m.dom().len() <= MAX_CONNECTIONS
        &&& !m.dom().contains(0)
        &&& forall|h: u16| #[trigger] m.dom().contains(h) ==> m[h].handle == h
    }

    /// A manager with no connections that forwards no events.
    pub fn new() -> (r: Self)
        ensures
            r.valid(),
            r.spec_connections() == Map::<u16, ConnectionInfo>::empty(),
            !r.spec_forwards_events(),
            r.spec_offered() == Seq::<ConnectionEvent>::empty(),
    {
        Self { connections: ConnectionMap::new(), event_sender: None, offered: Ghost(Seq::empty()) }
    }

    /// Forward events to `sender` from now on.
    pub fn set_event_sender(&mut self, sender: ConnectionEventSender)
        ensures
            final(self).valid(),
            final(self).spec_connections() == old(self).spec_connections(),
            final(self).spec_forwards_events(),
            final(self).spec_offered() == old(self).spec_offered(),
    {
        proof {
            use_type_invariant(&*self);
        }
        self.event_sender = Some(sender);
    }

    /// Offer an event to the host, when events are forwarded.
    fn forward(&mut self, event: ConnectionEvent)
        ensures
            final(self).spec_connections() == old(self).spec_connections(),
            final(self).spec_forwards_events() == old(self).spec_forwards_events(),
            final(self).spec_offered() == old(self).offered_with(event),
    {
        proof {
            use_type_invariant(&*self);
        }
        match &self.event_sender {
            Some(sender) => {
                let _ = try_send_event(sender, event);
                proof {
                    self.offered@ = self.offered@.push(event);
                }
            },
            None => {},
        }
    }

    /// Add a connection with default parameters and forward a `Connected`
    /// event.  Handle 0 gives `InvalidHandle`, a known handle
    /// `DuplicateHandle`, a full table `ConnectionMapFull`; on error
    /// nothing changes.
    pub fn add_connection(&mut self, handle: u16, mtu: u16) -> (r: Result<(), ConnectionError>)
        ensures
            final(self).valid(),
            handle == 0 ==> r == Err::<(), ConnectionError>(ConnectionError::InvalidHandle),
            handle != 0 && old(self).spec_connections().dom().contains(handle) ==> r == Err::<
                (),
                ConnectionError,
            >(ConnectionError::DuplicateHandle),
            handle != 0 && !old(self).spec_connections().dom().contains(handle) && old(
                self,
            ).spec_connections().dom().len() >= MAX_CONNECTIONS ==> r == Err::<(), ConnectionError>(
                ConnectionError::ConnectionMapFull,
            ),
            handle != 0 && !old(self).spec_connections().dom().contains(handle) && old(
                self,
            ).spec_connections().dom().len() < MAX_CONNECTIONS ==> r is Ok,
            r is Ok ==> final(self).spec_connections() == old(self).spec_connections().insert(
                handle,
                new_connection(handle, mtu),
            ),
            r is Err ==> final(self).spec_connections() == old(self).spec_connections(),
            final(self).spec_forwards_events() == old(self).spec_forwards_events(),
            r is Ok ==> final(self).spec_offered() == old(self).offered_with(
                ConnectionEvent::Connected { handle, params: ConnectionParams::spec_default() },
            ),
            r is Err ==> final(self).spec_offered() == old(self).spec_offered(),
    {
        proof {
            use_type_invariant(&*self);
        }
        if handle == 0 {
            return Err(ConnectionError::InvalidHandle);
        }
        if self.connections.contains_key(handle) {
            return Err(ConnectionError::DuplicateHandle);
        }
        let conn_info = ConnectionInfo { handle, mtu, conn_params: ConnectionParams::default() };
        proof {
            vstd::set::axiom_set_insert_len(connection_map_contents(self.connections).dom(), handle);
        }
        match self.connections.insert(handle, conn_info) {
            Ok(_) => {},
            Err(_) => return Err(ConnectionError::ConnectionMapFull),
        }
        self.forward(ConnectionEvent::Connected { handle, params: conn_info.conn_params });
        Ok(())
    }

    /// Remove a connection and forward a `Disconnected` event with the
    /// reason; an unknown handle gives `ConnectionNotFound` and no change.
    pub fn remove_connection(&mut self, handle: u16, reason: u8) -> (r: Result<(), ConnectionError>)
        ensures
            final(self).valid(),
            r is Ok <==> old(self).spec_connections().dom().contains(handle),
            r matches Err(e) ==> e == ConnectionError::ConnectionNotFound,
            final(self).spec_connections() == old(self).spec_connections().remove(handle),
            final(self).spec_forwards_events() == old(self).spec_forwards_events(),
            r is Ok ==> final(self).spec_offered() == old(self).offered_with(
                ConnectionEvent::Disconnected { handle, reason },
            ),
            r is Err ==> final(self).spec_offered() == old(self).spec_offered(),
    {
        proof {
            use_type_invariant(&*self);
            vstd::set::axiom_set_remove_len(connection_map_contents(self.connections).dom(), handle);
        }
        match self.connections.remove(handle) {
            Some(_) => {},
            None => {
                proof {
                    assert(connection_map_contents(self.connections) =~= connection_map_contents(
                        self.connections,
                    ).remove(handle));
                }
                return Err(ConnectionError::ConnectionNotFound);
            },
        }
        self.forward(ConnectionEvent::Disconnected { handle, reason });
        Ok(())
    }

    /// The connection with the given handle, if active.
    pub fn get_connection(&self, handle: u16) -> (r: Option<&ConnectionInfo>)
        ensures
            r is Some <==> self.spec_connections().dom().contains(handle),
            r matches Some(c) ==> *c == self.spec_connections()[handle] && c.handle == handle,
    {
        proof {
            use_type_invariant(self);
        }
        self.connections.get(handle)
    }

    /// Whether a connection with the given handle is active.
    pub fn is_connected(&self, handle: u16) -> (r: bool)
        ensures
            r == self.spec_connections().dom().contains(handle),
    {
        self.connections.contains_key(handle)
    }

    /// The number of active connections.
    pub fn connection_count(&self) -> (r: usize)
        ensures
            r == self.spec_connections().dom().len(),
            r <= MAX_CONNECTIONS,
    {
        self.connections.len()
    }

    /// Record a new MTU for a connection and forward an `MtuChanged` event;
    /// an unknown handle gives `ConnectionNotFound` and no change.
    pub fn update_mtu(&mut self, handle: u16, mtu: u16) -> (r: Result<(), ConnectionError>)
        ensures
            final(self).valid(),
            r is Ok <==> old(self).spec_connections().dom().contains(handle),
            r matches Err(e) ==> e == ConnectionError::ConnectionNotFound,
            r is Ok ==> final(self).spec_connections() == old(self).spec_connections().insert(
                handle,
                ConnectionInfo { mtu, ..old(self).spec_connections()[handle] },
            ),
            r is Err ==> final(self).spec_connections() == old(self).spec_connections(),
            final(self).spec_forwards_events() == old(self).spec_forwards_events(),
            r is Ok ==> final(self).spec_offered() == old(self).offered_with(
                ConnectionEvent::MtuChanged { handle, mtu },
            ),
            r is Err ==> final(self).spec_offered() == old(self).spec_offered(),
    {
        proof {
            use_type_invariant(&*self);
        }
        let current = match self.connections.get(handle) {
            Some(c) => *c,
            None => return Err(ConnectionError::ConnectionNotFound),
        };
        let updated = ConnectionInfo { mtu, ..current };
        match self.connections.insert(handle, updated) {
            Ok(_) => {},
            Err(_) => return Err(ConnectionError::ConnectionNotFound),
        }
        proof {
            assert(connection_map_contents(self.connections).dom() =~= connection_map_contents(
                old(self).connections,
            ).dom());
        }
        self.forward(ConnectionEvent::MtuChanged { handle, mtu });
        Ok(())
    }

    /// Record new parameters for a connection and forward a
    /// `ParamsUpdated` event; an unknown handle gives `ConnectionNotFound`
    /// and no change.
    pub fn update_params(&mut self, handle: u16, params: ConnectionParams) -> (r: Result<
        (),
        ConnectionError,
    >)
        ensures
            final(self).valid(),
            r is Ok <==> old(self).spec_connections().dom().contains(handle),
            r matches Err(e) ==> e == ConnectionError::ConnectionNotFound,
            r is Ok ==> final(self).spec_connections() == old(self).spec_connections().insert(
                handle,
                ConnectionInfo { conn_params: params, ..old(self).spec_connections()[handle] },
            ),
            r is Err ==> final(self).spec_connections() == old(self).spec_connections(),
            final(self).spec_forwards_events() == old(self).spec_forwards_events(),
            r is Ok ==> final(self).spec_offered() == old(self).offered_with(
                ConnectionEvent::ParamsUpdated { handle, params },
            ),
            r is Err ==> final(self).spec_offered() == old(self).spec_offered(),
    {
        proof {
            use_type_invariant(&*self);
        }
        let current = match self.connections.get(handle) {
            Some(c) => *c,
            None => return Err(ConnectionError::ConnectionNotFound),
        };
        let updated = ConnectionInfo { conn_params: params, ..current };
        match self.connections.insert(handle, updated) {
            Ok(_) => {},
            Err(_) => return Err(ConnectionError::ConnectionNotFound),
        }
        proof {
            assert(connection_map_contents(self.connections).dom() =~= connection_map_contents(
                old(self).connections,
            ).dom());
        }
        self.forward(ConnectionEvent::ParamsUpdated { handle, params });
        Ok(())
    }

    /// The handles of the active connections, each once.
    pub fn active_handles(&self) -> (r: Vec<u16>)
        ensures
            r@.to_set() == self.spec_connections().dom(),
            r@.no_duplicates(),
    {
        self.connections.keys()
    }
}

/// A connection that is added is then active, with the given MTU and
/// default parameters; removing it again leaves the other connections as
/// they were.
pub proof fn lemma_add_then_remove(before: Map<u16, ConnectionInfo>, handle: u16, mtu: u16)
    requires
        !before.dom().contains(handle),
    ensures
        before.insert(handle, new_connection(handle, mtu)).dom().contains(handle),
        before.insert(handle, new_connection(handle, mtu))[handle].mtu == mtu,
        before.insert(handle, new_connection(handle, mtu)).remove(handle) == before,
{
    assert(before.insert(handle, new_connection(handle, mtu)).remove(handle) =~= before);
}

} // verus!
