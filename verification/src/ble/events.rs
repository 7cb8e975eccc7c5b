//! BLE events forwarded to the host: connections, disconnections and GATT
//! server events, and their wire format.
use vstd::prelude::*;

use crate::collections::{AttrBuf, FrameBuf, ATTR_BUF_CAPACITY};
use crate::modem_core::memory::TxPacket;
use crate::modem_core::protocol::{response_frame, Packet, ResponseCode};

verus! {

/// BLE event types forwarded to the host.
#[derive(Debug)]
pub enum BleModemEvent {
    Connected { conn_handle: u16, peer_addr: [u8; 6], addr_type: u8 },
    Disconnected { conn_handle: u16, reason: u8 },
    GattsWrite { conn_handle: u16, char_handle: u16, data: AttrBuf },
    GattsRead { conn_handle: u16, char_handle: u16 },
    MtuExchange { conn_handle: u16, client_mtu: u16, server_mtu: u16 },
    CccdWrite { conn_handle: u16, char_handle: u16, notifications: bool, indications: bool },
}

/// The little-endian bytes of a u16.
pub open spec fn le16(x: u16) -> Seq<u8> {
    seq![(x % 256) as u8, (x / 256) as u8]
}

/// The CCCD value for the notification and indication bits.
pub open spec fn cccd_value(notifications: bool, indications: bool) -> u8 {
    ((if notifications {
        1u8
    } else {
        0u8
    }) + (if indications {
        2u8
    } else {
        0u8
    })) as u8
}

impl BleModemEvent {
    /// The wire format of an event: a two-byte event type (0x11 connected,
    /// 0x12 disconnected, 0x50 write, 0x51 read, 0x52 MTU exchange, 0x53
    /// CCCD write, then 0x00), then its fields with handles little-endian;
    /// write data is preceded by its length.
    pub open spec fn wire(self) -> Seq<u8> {
        match self {
            BleModemEvent::Connected { conn_handle, peer_addr, addr_type } => seq![0x11u8, 0x00u8]
                + le16(conn_handle) + seq![addr_type] + peer_addr@,
            BleModemEvent::Disconnected { conn_handle, reason } => seq![0x12u8, 0x00u8] + le16(
                conn_handle,
            ) + seq![reason],
            BleModemEvent::GattsWrite { conn_handle, char_handle, data } => seq![0x50u8, 0x00u8]
                + le16(conn_handle) + le16(char_handle) + seq![data@.len() as u8] + data@,
            BleModemEvent::GattsRead { conn_handle, char_handle } => seq![0x51u8, 0x00u8] + le16(
                conn_handle,
            ) + le16(char_handle),
            BleModemEvent::MtuExchange { conn_handle, client_mtu, server_mtu } => seq![
                0x52u8,
                0x00u8,
            ] + le16(conn_handle) + le16(client_mtu) + le16(server_mtu),
            BleModemEvent::CccdWrite { conn_handle, char_handle, notifications, indications } =>
                seq![0x53u8, 0x00u8] + le16(conn_handle) + le16(char_handle) + seq![
                cccd_value(notifications, indications),
            ],
        }
    }

    /// Serialize an event to its wire format; it always fits.
    pub fn serialize(&self) -> (r: Result<FrameBuf, ()>)
        ensures
            r matches Ok(b) && b@ == self.wire() && b@.len() <= 71,
    {
        let mut buffer = FrameBuf::new();
        match self {
            BleModemEvent::Connected { conn_handle, peer_addr, addr_type } => {
                let _ = buffer.extend_from_slice(&[0x11, 0x00]);
                let _ = buffer.extend_from_slice(&le_bytes(*conn_handle));
                let _ = buffer.push(*addr_type);
                let _ = buffer.extend_from_slice(peer_addr);
            },
            BleModemEvent::Disconnected { conn_handle, reason } => {
                let _ = buffer.extend_from_slice(&[0x12, 0x00]);
                let _ = buffer.extend_from_slice(&le_bytes(*conn_handle));
                let _ = buffer.push(*reason);
            },
            BleModemEvent::GattsWrite { conn_handle, char_handle, data } => {
                let _ = buffer.extend_from_slice(&[0x50, 0x00]);
                let _ = buffer.extend_from_slice(&le_bytes(*conn_handle));
                let _ = buffer.extend_from_slice(&le_bytes(*char_handle));
                let _ = buffer.push(data.len() as u8);
                let _ = buffer.extend_from_slice(data.as_slice());
            },
            BleModemEvent::GattsRead { conn_handle, char_handle } => {
                let _ = buffer.extend_from_slice(&[0x51, 0x00]);
                let _ = buffer.extend_from_slice(&le_bytes(*conn_handle));
                let _ = buffer.extend_from_slice(&le_bytes(*char_handle));
            },
            BleModemEvent::MtuExchange { conn_handle, client_mtu, server_mtu } => {
                let _ = buffer.extend_from_slice(&[0x52, 0x00]);
                let _ = buffer.extend_from_slice(&le_bytes(*conn_handle));
                let _ = buffer.extend_from_slice(&le_bytes(*client_mtu));
                let _ = buffer.extend_from_slice(&le_bytes(*server_mtu));
            },
            BleModemEvent::CccdWrite { conn_handle, char_handle, notifications, indications } => {
                let _ = buffer.extend_from_slice(&[0x53, 0x00]);
                let _ = buffer.extend_from_slice(&le_bytes(*conn_handle));
                let _ = buffer.extend_from_slice(&le_bytes(*char_handle));
                let n: u8 = if *notifications {
                    1
                } else {
                    0
                };
                let i: u8 = if *indications {
                    2
                } else {
                    0
                };
                let _ = buffer.push(n + i);
            },
        }
        proof {
            assert(buffer@ =~= self.wire());
        }
        Ok(buffer)
    }
}

/// The little-endian bytes of a u16.
fn le_bytes(x: u16) -> (r: [u8; 2])
    ensures
        r@ == le16(x),
{
    let r = [(x % 256) as u8, (x / 256) as u8];
    assert(r@ =~= le16(x));
    r
}

/// The packet that carries an event to the host: a BLE event response
/// whose payload is the event's wire format.
pub fn event_packet(event: &BleModemEvent) -> (r: Result<TxPacket, ()>)
    ensures
        r matches Ok(p) && p@ == response_frame(ResponseCode::BleEvent.value(), event.wire()),
{
    let event_data = match event.serialize() {
        Ok(d) => d,
        Err(()) => return Err(()),
    };
    let packet = match Packet::new_response(ResponseCode::BleEvent, event_data.as_slice()) {
        Ok(p) => p,
        Err(_) => return Err(()),
    };
    let serialized = match packet.serialize() {
        Ok(s) => s,
        Err(_) => return Err(()),
    };
    match TxPacket::new(serialized.as_slice()) {
        Ok(tx) => Ok(tx),
        Err(_) => Err(()),
    }
}

/// A Connected event for a connection with the given handle (0 when the
/// connection has none); the peer address is not known here and is sent
/// as zeros of type 0.
pub fn create_connected_event(conn_handle: Option<u16>) -> (r: BleModemEvent)
    ensures
        r matches BleModemEvent::Connected { conn_handle: c, peer_addr: a, addr_type: t } && c == (
        match conn_handle {
            Some(h) => h,
            None => 0,
        }) && a@ == seq![0u8, 0u8, 0u8, 0u8, 0u8, 0u8] && t == 0,
{
    let handle = match conn_handle {
        Some(h) => h,
        None => 0,
    };
    let peer_addr: [u8; 6] = [0; 6];
    assert(peer_addr@ =~= seq![0u8, 0u8, 0u8, 0u8, 0u8, 0u8]);
    BleModemEvent::Connected { conn_handle: handle, peer_addr, addr_type: 0 }
}

/// A Disconnected event.
pub fn create_disconnected_event(conn_handle: u16, reason: u8) -> (r: BleModemEvent)
    ensures
        r == (BleModemEvent::Disconnected { conn_handle, reason }),
{
    BleModemEvent::Disconnected { conn_handle, reason }
}

/// A GATT write event carrying `data`; `Err` when the data is longer than
/// 64 bytes.
pub fn create_gatts_write_event(conn_handle: u16, char_handle: u16, data: &[u8]) -> (r: Result<
    BleModemEvent,
    (),
>)
    ensures
        r is Ok <==> data@.len() <= ATTR_BUF_CAPACITY,
        r matches Ok(e) ==> (e matches BleModemEvent::GattsWrite { conn_handle: c, char_handle: h, data: d }
            && c == conn_handle && h == char_handle && d@ == data@),
{
    let mut event_data = AttrBuf::new();
    if !event_data.extend_from_slice(data) {
        return Err(());
    }
    Ok(BleModemEvent::GattsWrite { conn_handle, char_handle, data: event_data })
}

/// A CCCD write event.
pub fn create_cccd_write_event(
    conn_handle: u16,
    char_handle: u16,
    notifications: bool,
    indications: bool,
) -> (r: BleModemEvent)
    ensures
        r == (BleModemEvent::CccdWrite { conn_handle, char_handle, notifications, indications }),
{
    BleModemEvent::CccdWrite { conn_handle, char_handle, notifications, indications }
}

/// A CCCD-write event goes out as seven bytes: type 0x53, 0x00, the
/// connection and characteristic handles (little-endian), then the
/// client's configuration byte, whose bit 0 is set exactly when
/// notifications are enabled and bit 1 exactly when indications are; no
/// other bit is set.
pub proof fn lemma_cccd_write_byte(
    conn_handle: u16,
    char_handle: u16,
    notifications: bool,
    indications: bool,
)
    ensures
        ({
            let w = (BleModemEvent::CccdWrite {
                conn_handle,
                char_handle,
                notifications,
                indications,
            }).wire();
            &&& w.len() == 7
            &&& w[0] == 0x53 && w[1] == 0
            &&& w[2] + w[3] * 256 == conn_handle
            &&& w[4] + w[5] * 256 == char_handle
            &&& (w[6] & 1u8 == 1u8) == notifications
            &&& (w[6] & 2u8 == 2u8) == indications
            &&& w[6] & 0xFCu8 == 0u8
        }),
{
    let w = (BleModemEvent::CccdWrite { conn_handle, char_handle, notifications, indications }).wire();
    let b = cccd_value(notifications, indications);
    assert(w.len() == 7);
    assert(w[6] == b);
    assert(w[2] == (conn_handle % 256) as u8 && w[3] == (conn_handle / 256) as u8);
    assert(w[4] == (char_handle % 256) as u8 && w[5] == (char_handle / 256) as u8);
    assert(0u8 & 1u8 == 0u8 && 0u8 & 2u8 == 0u8 && 0u8 & 0xFCu8 == 0u8) by (bit_vector);
    assert(1u8 & 1u8 == 1u8 && 1u8 & 2u8 == 0u8 && 1u8 & 0xFCu8 == 0u8) by (bit_vector);
    assert(2u8 & 1u8 == 0u8 && 2u8 & 2u8 == 2u8 && 2u8 & 0xFCu8 == 0u8) by (bit_vector);
    assert(3u8 & 1u8 == 1u8 && 3u8 & 2u8 == 2u8 && 3u8 & 0xFCu8 == 0u8) by (bit_vector);
}

/// The other events on the wire: Connected (0x11) carries the handle, the
/// address type and the six address bytes; Disconnected (0x12) the handle
/// and the reason; a GATT write (0x50) the handle, the characteristic
/// handle, the data length (one byte) and the data; a GATT read (0x51) the two
/// handles; an MTU exchange (0x52) the handle, the client MTU and the
/// server MTU; all handles and MTUs little-endian.
pub proof fn lemma_event_fields(event: BleModemEvent)
    ensures
        ({
            let w = event.wire();
            match event {
                BleModemEvent::Connected { conn_handle, peer_addr, addr_type } => w.len() == 11 && w[0]
                    == 0x11 && w[2] + w[3] * 256 == conn_handle && w[4] == addr_type && w.subrange(5, 11)
                    == peer_addr@,
                BleModemEvent::Disconnected { conn_handle, reason } => w.len() == 5 && w[0] == 0x12
                    && w[2] + w[3] * 256 == conn_handle && w[4] == reason,
                BleModemEvent::GattsWrite { conn_handle, char_handle, data } => w.len() == 7 + data@.len()
                    && w[0] == 0x50 && w[2] + w[3] * 256 == conn_handle && w[4] + w[5] * 256
                    == char_handle && w[6] == data@.len() as u8 && w.subrange(7, w.len() as int) == data@,
                BleModemEvent::GattsRead { conn_handle, char_handle } => w.len() == 6 && w[0] == 0x51
                    && w[2] + w[3] * 256 == conn_handle && w[4] + w[5] * 256 == char_handle,
                BleModemEvent::MtuExchange { conn_handle, client_mtu, server_mtu } => w.len() == 8
                    && w[0] == 0x52 && w[2] + w[3] * 256 == conn_handle && w[4] + w[5] * 256
                    == client_mtu && w[6] + w[7] * 256 == server_mtu,
                BleModemEvent::CccdWrite { .. } => w.len() == 7 && w[0] == 0x53,
            }
        }),
{
    let w = event.wire();
    match event {
        BleModemEvent::Connected { conn_handle, peer_addr, addr_type } => {
            assert(w.subrange(5, 11) =~= peer_addr@);
        },
        BleModemEvent::GattsWrite { conn_handle, char_handle, data } => {
            assert(w.subrange(7, w.len() as int) =~= data@);
        },
        _ => {},
    }
}

/// Every event's wire format starts with its type byte and 0x00, then the
/// connection handle, little-endian.
pub proof fn lemma_wire_header(event: BleModemEvent)
    ensures
        event.wire().len() >= 4,
        event.wire()[1] == 0,
        event.wire().subrange(2, 4) == le16(
            match event {
                BleModemEvent::Connected { conn_handle, .. } => conn_handle,
                BleModemEvent::Disconnected { conn_handle, .. } => conn_handle,
                BleModemEvent::GattsWrite { conn_handle, .. } => conn_handle,
                BleModemEvent::GattsRead { conn_handle, .. } => conn_handle,
                BleModemEvent::MtuExchange { conn_handle, .. } => conn_handle,
                BleModemEvent::CccdWrite { conn_handle, .. } => conn_handle,
            },
        ),
{
    let w = event.wire();
    match event {
        BleModemEvent::Connected { conn_handle, .. } => {
            assert(w.subrange(2, 4) =~= le16(conn_handle));
        },
        BleModemEvent::Disconnected { conn_handle, .. } => {
            assert(w.subrange(2, 4) =~= le16(conn_handle));
        },
        BleModemEvent::GattsWrite { conn_handle, .. } => {
            assert(w.subrange(2, 4) =~= le16(conn_handle));
        },
        BleModemEvent::GattsRead { conn_handle, .. } => {
            assert(w.subrange(2, 4) =~= le16(conn_handle));
        },
        BleModemEvent::MtuExchange { conn_handle, .. } => {
            assert(w.subrange(2, 4) =~= le16(conn_handle));
        },
        BleModemEvent::CccdWrite { conn_handle, .. } => {
            assert(w.subrange(2, 4) =~= le16(conn_handle));
        },
    }
}

} // verus!
