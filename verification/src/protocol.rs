//! The unframed host protocol, without length or CRC:
//! - request:  `[Payload:N][RequestCode:2]`
//! - response: `[ResponseCode:2][Payload:N]`
//!
//! Codes are big-endian.
use vstd::prelude::*;
use vstd::slice::slice_subrange;

use crate::collections::FrameBuf;
use crate::modem_core::protocol::{be16, u16_from_be};

pub use crate::modem_core::protocol::serialization;

verus! {

/// Maximum payload size (BLE_EVT_LEN_MAX + 2 bytes).
pub const MAX_PAYLOAD_SIZE: usize = 247 + 2;

/// Request codes sent by host to device.
#[derive(Debug, Clone, Copy, PartialEq, Eq)]
pub enum RequestCode {
    // System Commands
    GetInfo,
    Shutdown,
    Reboot,
    // UUID Management
    RegisterUuidGroup,
    // GAP Operations - Address Management
    GapGetAddr,
    GapSetAddr,
    // GAP Operations - Advertising Control
    GapAdvStart,
    GapAdvStop,
    GapAdvSetConfigure,
    // GAP Operations - Device Configuration
    GapGetName,
    GapSetName,
    GapConnParamsGet,
    GapConnParamsSet,
    // GAP Operations - Connection Management
    GapConnParamUpdate,
    GapDataLengthUpdate,
    GapPhyUpdate,
    GapConnect,
    GapConnectCancel,
    GapDisconnect,
    // GAP Operations - Power & RSSI
    GapSetTxPower,
    GapStartRssiReporting,
    GapStopRssiReporting,
    // GAP Operations - Scanning (Central mode only)
    GapScanStart,
    GapScanStop,
    // GATT Server Operations
    GattsServiceAdd,
    GattsCharacteristicAdd,
    GattsMtuReply,
    GattsHvx,
    GattsSysAttrGet,
    GattsSysAttrSet,
    // GATT Client Operations (Central mode only)
    GattcMtuRequest,
    GattcServiceDiscover,
    GattcCharacteristicsDiscover,
    GattcDescriptorsDiscover,
    GattcRead,
    GattcWrite,
}

impl RequestCode {
    /// The wire value of a request code.
    pub open spec fn value(self) -> u16 {
        match self {
            RequestCode::GetInfo => 0x0001,
            RequestCode::Shutdown => 0x0002,
            RequestCode::Reboot => 0x00F0,
            RequestCode::RegisterUuidGroup => 0x0010,
            RequestCode::GapGetAddr => 0x0011,
            RequestCode::GapSetAddr => 0x0012,
            RequestCode::GapAdvStart => 0x0020,
            RequestCode::GapAdvStop => 0x0021,
            RequestCode::GapAdvSetConfigure => 0x0022,
            RequestCode::GapGetName => 0x0023,
            RequestCode::GapSetName => 0x0024,
            RequestCode::GapConnParamsGet => 0x0025,
            RequestCode::GapConnParamsSet => 0x0026,
            RequestCode::GapConnParamUpdate => 0x0027,
            RequestCode::GapDataLengthUpdate => 0x0028,
            RequestCode::GapPhyUpdate => 0x0029,
            RequestCode::GapConnect => 0x002A,
            RequestCode::GapConnectCancel => 0x002B,
            RequestCode::GapDisconnect => 0x002C,
            RequestCode::GapSetTxPower => 0x002D,
            RequestCode::GapStartRssiReporting => 0x002E,
            RequestCode::GapStopRssiReporting => 0x002F,
            RequestCode::GapScanStart => 0x0030,
            RequestCode::GapScanStop => 0x0031,
            RequestCode::GattsServiceAdd => 0x0080,
            RequestCode::GattsCharacteristicAdd => 0x0081,
            RequestCode::GattsMtuReply => 0x0082,
            RequestCode::GattsHvx => 0x0083,
            RequestCode::GattsSysAttrGet => 0x0084,
            RequestCode::GattsSysAttrSet => 0x0085,
            RequestCode::GattcMtuRequest => 0x00A0,
            RequestCode::GattcServiceDiscover => 0x00A1,
            RequestCode::GattcCharacteristicsDiscover => 0x00A2,
            RequestCode::GattcDescriptorsDiscover => 0x00A3,
            RequestCode::GattcRead => 0x00A4,
            RequestCode::GattcWrite => 0x00A5,
        }
    }

    /// Convert to the raw u16 value.
    pub fn to_u16(self) -> (r: u16)
        ensures
            r == self.value(),
    {
        match self {
            RequestCode::GetInfo => 0x0001,
            RequestCode::Shutdown => 0x0002,
            RequestCode::Reboot => 0x00F0,
            RequestCode::RegisterUuidGroup => 0x0010,
            RequestCode::GapGetAddr => 0x0011,
            RequestCode::GapSetAddr => 0x0012,
            RequestCode::GapAdvStart => 0x0020,
            RequestCode::GapAdvStop => 0x0021,
            RequestCode::GapAdvSetConfigure => 0x0022,
            RequestCode::GapGetName => 0x0023,
            RequestCode::GapSetName => 0x0024,
            RequestCode::GapConnParamsGet => 0x0025,
            RequestCode::GapConnParamsSet => 0x0026,
            RequestCode::GapConnParamUpdate => 0x0027,
            RequestCode::GapDataLengthUpdate => 0x0028,
            RequestCode::GapPhyUpdate => 0x0029,
            RequestCode::GapConnect => 0x002A,
            RequestCode::GapConnectCancel => 0x002B,
            RequestCode::GapDisconnect => 0x002C,
            RequestCode::GapSetTxPower => 0x002D,
            RequestCode::GapStartRssiReporting => 0x002E,
            RequestCode::GapStopRssiReporting => 0x002F,
            RequestCode::GapScanStart => 0x0030,
            RequestCode::GapScanStop => 0x0031,
            RequestCode::GattsServiceAdd => 0x0080,
            RequestCode::GattsCharacteristicAdd => 0x0081,
            RequestCode::GattsMtuReply => 0x0082,
            RequestCode::GattsHvx => 0x0083,
            RequestCode::GattsSysAttrGet => 0x0084,
            RequestCode::GattsSysAttrSet => 0x0085,
            RequestCode::GattcMtuRequest => 0x00A0,
            RequestCode::GattcServiceDiscover => 0x00A1,
            RequestCode::GattcCharacteristicsDiscover => 0x00A2,
            RequestCode::GattcDescriptorsDiscover => 0x00A3,
            RequestCode::GattcRead => 0x00A4,
            RequestCode::GattcWrite => 0x00A5,
        }
    }

    /// Convert from a raw u16 value: the code with that value, if any.
    pub fn from_u16(value: u16) -> (r: Option<Self>)
        ensures
            r matches Some(c) ==> c.value() == value,
            r is None ==> forall|c: RequestCode| c.value() != value,
    {
        match value {
            0x0001 => Some(Self::GetInfo),
            0x0002 => Some(Self::Shutdown),
            0x00F0 => Some(Self::Reboot),
            0x0010 => Some(Self::RegisterUuidGroup),
            0x0011 => Some(Self::GapGetAddr),
            0x0012 => Some(Self::GapSetAddr),
            0x0020 => Some(Self::GapAdvStart),
            0x0021 => Some(Self::GapAdvStop),
            0x0022 => Some(Self::GapAdvSetConfigure),
            0x0023 => Some(Self::GapGetName),
            0x0024 => Some(Self::GapSetName),
            0x0025 => Some(Self::GapConnParamsGet),
            0x0026 => Some(Self::GapConnParamsSet),
            0x0027 => Some(Self::GapConnParamUpdate),
            0x0028 => Some(Self::GapDataLengthUpdate),
            0x0029 => Some(Self::GapPhyUpdate),
            0x002A => Some(Self::GapConnect),
            0x002B => Some(Self::GapConnectCancel),
            0x002C => Some(Self::GapDisconnect),
            0x002D => Some(Self::GapSetTxPower),
            0x002E => Some(Self::GapStartRssiReporting),
            0x002F => Some(Self::GapStopRssiReporting),
            0x0030 => Some(Self::GapScanStart),
            0x0031 => Some(Self::GapScanStop),
            0x0080 => Some(Self::GattsServiceAdd),
            0x0081 => Some(Self::GattsCharacteristicAdd),
            0x0082 => Some(Self::GattsMtuReply),
            0x0083 => Some(Self::GattsHvx),
            0x0084 => Some(Self::GattsSysAttrGet),
            0x0085 => Some(Self::GattsSysAttrSet),
            0x00A0 => Some(Self::GattcMtuRequest),
            0x00A1 => Some(Self::GattcServiceDiscover),
            0x00A2 => Some(Self::GattcCharacteristicsDiscover),
            0x00A3 => Some(Self::GattcDescriptorsDiscover),
            0x00A4 => Some(Self::GattcRead),
            0x00A5 => Some(Self::GattcWrite),
            _ => None,
        }
    }
}

/// Response codes sent by device to host.
#[derive(Debug, Clone, Copy, PartialEq, Eq)]
pub enum ResponseCode {
    /// Command acknowledgment with results
    Ack,
    /// BLE event notification
    BleEvent,
    /// System-on-Chip event notification
    SocEvent,
}

impl ResponseCode {
    /// The wire value of a response code.
    pub open spec fn value(self) -> u16 {
        match self {
            ResponseCode::Ack => 0xAC50,
            ResponseCode::BleEvent => 0x8001,
            ResponseCode::SocEvent => 0x8002,
        }
    }

    /// Convert to the raw u16 value.
    pub fn to_u16(self) -> (r: u16)
        ensures
            r == self.value(),
    {
        match self {
            ResponseCode::Ack => 0xAC50,
            ResponseCode::BleEvent => 0x8001,
            ResponseCode::SocEvent => 0x8002,
        }
    }
}

/// Protocol error types.
#[derive(Debug, Clone, Copy, PartialEq, Eq)]
pub enum ProtocolError {
    InvalidLength,
    InvalidCode,
    SerializationError,
    BufferFull,
}

/// Protocol packet structure.
#[derive(Debug)]
pub struct Packet {
    pub code: u16,
    pub payload: FrameBuf,
}

impl Packet {
    /// A request from received bytes `[payload][code:2]`: `InvalidLength`
    /// under two bytes, `BufferFull` when the payload exceeds
    /// [`MAX_PAYLOAD_SIZE`].
    pub fn new_request(payload: &[u8]) -> (r: Result<Self, ProtocolError>)
        ensures
            payload@.len() < 2 ==> r == Err::<Packet, ProtocolError>(ProtocolError::InvalidLength),
            payload@.len() >= 2 && payload@.len() - 2 > MAX_PAYLOAD_SIZE ==> r == Err::<
                Packet,
                ProtocolError,
            >(ProtocolError::BufferFull),
            payload@.len() >= 2 && payload@.len() - 2 <= MAX_PAYLOAD_SIZE ==> (r matches Ok(p)
                && be16(p.code) == payload@.subrange(payload@.len() - 2, payload@.len() as int)
                && p.payload@ == payload@.subrange(0, payload@.len() - 2)),
    {
        if payload.len() < 2 {
            return Err(ProtocolError::InvalidLength);
        }
        let len = payload.len();
        let code = u16_from_be(payload[len - 2], payload[len - 1]);
        proof {
            crate::modem_core::protocol::lemma_be16_encode_decode(payload@[len - 2], payload@[len - 1]);
            assert(payload@.subrange(len - 2, len as int) =~= seq![payload@[len - 2], payload@[len - 1]]);
        }
        let mut packet_payload = FrameBuf::new();
        if !packet_payload.extend_from_slice(slice_subrange(payload, 0, len - 2)) {
            return Err(ProtocolError::BufferFull);
        }
        Ok(Self { code, payload: packet_payload })
    }

    /// A response with the given code and payload; `BufferFull` when the
    /// payload exceeds [`MAX_PAYLOAD_SIZE`].
    pub fn new_response(code: ResponseCode, payload: &[u8]) -> (r: Result<Self, ProtocolError>)
        ensures
            r is Ok <==> payload@.len() <= MAX_PAYLOAD_SIZE,
            r matches Ok(p) ==> p.code == code.value() && p.payload@ == payload@,
            r matches Err(e) ==> e == ProtocolError::BufferFull,
    {
        let mut packet_payload = FrameBuf::new();
        if !packet_payload.extend_from_slice(payload) {
            return Err(ProtocolError::BufferFull);
        }
        Ok(Self { code: code.to_u16(), payload: packet_payload })
    }

    /// The bytes of a response: the code, then the payload; `BufferFull`
    /// when they exceed [`MAX_PAYLOAD_SIZE`].
    pub fn serialize(&self) -> (r: Result<FrameBuf, ProtocolError>)
        ensures
            r is Ok <==> self.payload@.len() + 2 <= MAX_PAYLOAD_SIZE,
            r matches Ok(b) ==> b@ == be16(self.code) + self.payload@,
            r matches Err(e) ==> e == ProtocolError::BufferFull,
    {
        let mut buffer = FrameBuf::new();
        if serialization::write_u16(&mut buffer, self.code).is_err() {
            return Err(ProtocolError::BufferFull);
        }
        if serialization::write_slice(&mut buffer, self.payload.as_slice()).is_err() {
            return Err(ProtocolError::BufferFull);
        }
        Ok(buffer)
    }

    /// The request code, if the code field holds one.
    pub fn request_code(&self) -> (r: Option<RequestCode>)
        ensures
            r matches Some(c) ==> c.value() == self.code,
            r is None ==> forall|c: RequestCode| c.value() != self.code,
    {
        RequestCode::from_u16(self.code)
    }

    /// The response code, if the code field holds one.
    pub fn response_code(&self) -> (r: Option<ResponseCode>)
        ensures
            r == (if self.code == 0xAC50 {
                Some(ResponseCode::Ack)
            } else if self.code == 0x8001 {
                Some(ResponseCode::BleEvent)
            } else if self.code == 0x8002 {
                Some(ResponseCode::SocEvent)
            } else {
                None
            }),
    {
        match self.code {
            0xAC50 => Some(ResponseCode::Ack),
            0x8001 => Some(ResponseCode::BleEvent),
            0x8002 => Some(ResponseCode::SocEvent),
            _ => None,
        }
    }
}

/// A request's payload followed by its code parses back to that code and
/// payload.
pub proof fn lemma_request_round_trip(code: u16, payload: Seq<u8>)
    ensures
        ({
            let bytes = payload + be16(code);
            &&& bytes.subrange(0, bytes.len() - 2) == payload
            &&& bytes.subrange(bytes.len() - 2, bytes.len() as int) == be16(code)
        }),
{
    let bytes = payload + be16(code);
    assert(bytes.subrange(0, bytes.len() - 2) =~= payload);
    assert(bytes.subrange(bytes.len() - 2, bytes.len() as int) =~= be16(code));
}

} // verus!
