//! BLE modem protocol definitions.
//!
//! Framing between the host and the modem:
//! - request:  `[Length:2][Payload:N][RequestCode:2][CRC16:2]`
//! - response: `[Length:2][ResponseCode:2][Payload:N][CRC16:2]`
//!
//! All multi-byte fields are big-endian.  `Length` counts the whole frame,
//! its own two bytes and the CRC included.  The CRC is CRC-16/IBM-SDLC over
//! every byte before it.
use vstd::prelude::*;
use vstd::slice::slice_subrange;

use crate::collections::{FrameBuf, FRAME_BUF_CAPACITY};

verus! {

/// Maximum frame size (BLE_EVT_LEN_MAX + 2 bytes).
pub const MAX_PAYLOAD_SIZE: usize = 247 + 2;

/// One bit of the reflected CRC-16 register update: shift right, and when
/// the bit shifted out was set, xor in the reflected polynomial 0x8408
/// (0x1021 reversed).
pub open spec fn crc_bit(reg: u16) -> u16 {
    if reg & 1u16 == 1u16 {
        (reg >> 1u16) ^ 0x8408u16
    } else {
        reg >> 1u16
    }
}

/// One byte of the register update: the byte is xored into the low bits,
/// then eight bit steps.
pub open spec fn crc_byte(reg: u16, byte: u8) -> u16 {
    crc_bit(crc_bit(crc_bit(crc_bit(crc_bit(crc_bit(crc_bit(crc_bit(reg ^ (byte as u16)))))))))
}

/// The register after the bytes of `data`, one at a time, least
/// significant bit first, from the initial value 0xFFFF.
pub open spec fn crc_register(data: Seq<u8>) -> u16
    decreases data.len(),
{
    if data.len() == 0 {
        0xFFFFu16
    } else {
        crc_byte(crc_register(data.drop_last()), data.last())
    }
}

/// The CRC-16/IBM-SDLC checksum of a byte string, as the CRC catalogue
/// defines it: width 16, polynomial 0x1021, initial value 0xFFFF, input
/// and output reflected, final xor 0xFFFF.
pub open spec fn crc16_ibm_sdlc(data: Seq<u8>) -> u16 {
    crc_register(data) ^ 0xFFFFu16
}

/// The catalogue's check value: the checksum of the ASCII digits
/// "123456789" is 0x906E.
pub proof fn lemma_crc_check_value()
    ensures
        crc16_ibm_sdlc(seq![0x31u8, 0x32u8, 0x33u8, 0x34u8, 0x35u8, 0x36u8, 0x37u8, 0x38u8, 0x39u8])
            == 0x906Eu16,
{
    let s = seq![0x31u8, 0x32u8, 0x33u8, 0x34u8, 0x35u8, 0x36u8, 0x37u8, 0x38u8, 0x39u8];
    assert(s.take(0) =~= Seq::<u8>::empty());
    assert(crc_register(s.take(0)) == 0xFFFFu16);
    assert(crc_byte(0xFFFFu16, 0x31u8) == 0x2F8Du16) by (bit_vector);
    assert(s.take(1).drop_last() =~= s.take(0));
    assert(s.take(1).last() == s[0]);
    assert(crc_register(s.take(1)) == 0x2F8Du16);
    assert(crc_byte(0x2F8Du16, 0x32u8) == 0x4D53u16) by (bit_vector);
    assert(s.take(2).drop_last() =~= s.take(1));
    assert(s.take(2).last() == s[1]);
    assert(crc_register(s.take(2)) == 0x4D53u16);
    assert(crc_byte(0x4D53u16, 0x33u8) == 0x634Bu16) by (bit_vector);
    assert(s.take(3).drop_last() =~= s.take(2));
    assert(s.take(3).last() == s[2]);
    assert(crc_register(s.take(3)) == 0x634Bu16);
    assert(crc_byte(0x634Bu16, 0x34u8) == 0x8B13u16) by (bit_vector);
    assert(s.take(4).drop_last() =~= s.take(3));
    assert(s.take(4).last() == s[3]);
    assert(crc_register(s.take(4)) == 0x8B13u16);
    assert(crc_byte(0x8B13u16, 0x35u8) == 0x44BFu16) by (bit_vector);
    assert(s.take(5).drop_last() =~= s.take(4));
    assert(s.take(5).last() == s[4]);
    assert(crc_register(s.take(5)) == 0x44BFu16);
    assert(crc_byte(0x44BFu16, 0x36u8) == 0x198Du16) by (bit_vector);
    assert(s.take(6).drop_last() =~= s.take(5));
    assert(s.take(6).last() == s[5]);
    assert(crc_register(s.take(6)) == 0x198Du16);
    assert(crc_byte(0x198Du16, 0x37u8) == 0x1AC8u16) by (bit_vector);
    assert(s.take(7).drop_last() =~= s.take(6));
    assert(s.take(7).last() == s[6]);
    assert(crc_register(s.take(7)) == 0x1AC8u16);
    assert(crc_byte(0x1AC8u16, 0x38u8) == 0xF795u16) by (bit_vector);
    assert(s.take(8).drop_last() =~= s.take(7));
    assert(s.take(8).last() == s[7]);
    assert(crc_register(s.take(8)) == 0xF795u16);
    assert(crc_byte(0xF795u16, 0x39u8) == 0x6F91u16) by (bit_vector);
    assert(s.take(9).drop_last() =~= s.take(8));
    assert(s.take(9).last() == s[8]);
    assert(crc_register(s.take(9)) == 0x6F91u16);
    assert(s.take(9) =~= s);
    assert(0x6F91u16 ^ 0xFFFFu16 == 0x906Eu16) by (bit_vector);
}

/// `crc::Crc::<u16>::new(&crc::CRC_16_IBM_SDLC).checksum`: the
/// catalogue's CRC-16/IBM-SDLC of the bytes (the `crc` crate computes it
/// from the algorithm's parameters with a lookup table).
#[verifier::external_body]
fn crc16_checksum(data: &[u8]) -> (r: u16)
    ensures
        r == crc16_ibm_sdlc(data@),
{
    crc::Crc::<u16>::new(&crc::CRC_16_IBM_SDLC).checksum(data)
}

/// Calculate the CRC16 of a message.
pub fn calculate_crc16(data: &[u8]) -> (r: u16)
    ensures
        r == crc16_ibm_sdlc(data@),
{
    crc16_checksum(data)
}

/// Validate the CRC16 of a received message.
pub fn validate_crc16(data: &[u8], expected_crc: u16) -> (r: bool)
    ensures
        r == (crc16_ibm_sdlc(data@) == expected_crc),
{
    let calculated_crc = calculate_crc16(data);
    calculated_crc == expected_crc
}

/// Big-endian encoding of a 16-bit value.
pub open spec fn be16(x: u16) -> Seq<u8> {
    seq![(x / 256) as u8, (x % 256) as u8]
}

/// Big-endian encoding of a 32-bit value.
pub open spec fn be32(x: u32) -> Seq<u8> {
    seq![(x / 0x100_0000) as u8, ((x / 0x1_0000) % 256) as u8, ((x / 256) % 256) as u8, (x % 256) as u8]
}

/// The 16-bit value whose big-endian encoding is `[hi, lo]`.
pub open spec fn be16_value(hi: u8, lo: u8) -> u16 {
    (hi * 256 + lo) as u16
}

/// The 32-bit value whose big-endian encoding is `[b0, b1, b2, b3]`.
pub open spec fn be32_value(b0: u8, b1: u8, b2: u8, b3: u8) -> u32 {
    (b0 * 0x100_0000 + b1 * 0x1_0000 + b2 * 256 + b3) as u32
}

/// Decode a big-endian 16-bit value.
pub fn u16_from_be(hi: u8, lo: u8) -> (r: u16)
    ensures
        r == be16_value(hi, lo),
{
    (hi as u16) * 256 + (lo as u16)
}

/// The bytes of a request frame carrying `code` and `payload`.
pub open spec fn request_frame(code: u16, payload: Seq<u8>) -> Seq<u8> {
    let body = be16((payload.len() + 6) as u16) + payload + be16(code);
    body + be16(crc16_ibm_sdlc(body))
}

/// The bytes of a response frame carrying `code` and `payload`.
pub open spec fn response_frame(code: u16, payload: Seq<u8>) -> Seq<u8> {
    let body = be16((payload.len() + 6) as u16) + be16(code) + payload;
    body + be16(crc16_ibm_sdlc(body))
}

/// What a received request frame decodes to, given `computed_crc`, the CRC
/// computed over every byte before the CRC field: its code and payload, or
/// the first check that it fails.
pub open spec fn parse_request_with_crc(data: Seq<u8>, computed_crc: u16) -> Result<
    (u16, Seq<u8>),
    ProtocolError,
> {
    let n = data.len();
    if n < 6 {
        Err(ProtocolError::InvalidLength)
    } else if be16_value(data[0], data[1]) != n {
        Err(ProtocolError::InvalidLength)
    } else if computed_crc != be16_value(data[n - 2], data[n - 1]) {
        Err(ProtocolError::InvalidCrc)
    } else if n - 6 > MAX_PAYLOAD_SIZE {
        Err(ProtocolError::BufferFull)
    } else {
        Ok((be16_value(data[n - 4], data[n - 3]), data.subrange(2, n - 4)))
    }
}

/// What a received request frame decodes to: its code and payload, or the
/// first check that it fails.
pub open spec fn parse_request(data: Seq<u8>) -> Result<(u16, Seq<u8>), ProtocolError> {
    parse_request_with_crc(data, crc16_ibm_sdlc(data.subrange(0, data.len() - 2)))
}

/// Decoding the big-endian encoding of a 16-bit value gives back the value.
pub proof fn lemma_be16_decode_encode(x: u16)
    ensures
        be16(x).len() == 2,
        be16_value(be16(x)[0], be16(x)[1]) == x,
{
    assert(x / 256 < 256);
}

/// Encoding a decoded 16-bit value gives back the two bytes.
pub proof fn lemma_be16_encode_decode(hi: u8, lo: u8)
    ensures
        be16(be16_value(hi, lo)) == seq![hi, lo],
{
    let v = be16_value(hi, lo);
    assert(v == hi * 256 + lo);
    assert(v / 256 == hi) by (nonlinear_arith)
        requires
            v == hi * 256 + lo,
            0 <= lo < 256,
    ;
    assert(v % 256 == lo) by (nonlinear_arith)
        requires
            v == hi * 256 + lo,
            0 <= lo < 256,
    ;
    assert(be16(v) =~= seq![hi, lo]);
}

/// A request frame that fits decodes to the code and payload it was built
/// from: what `serialize_request` writes, `new_request` reads back.
pub proof fn lemma_request_frame_roundtrip(code: u16, payload: Seq<u8>)
    requires
        payload.len() + 6 <= MAX_PAYLOAD_SIZE,
    ensures
        parse_request(request_frame(code, payload)) == Ok::<(u16, Seq<u8>), ProtocolError>((code, payload)),
{
    let n = payload.len() + 6;
    let hdr = be16(n as u16);
    let body = hdr + payload + be16(code);
    let crc = crc16_ibm_sdlc(body);
    let data = request_frame(code, payload);
    lemma_be16_decode_encode(n as u16);
    lemma_be16_decode_encode(code);
    lemma_be16_decode_encode(crc);
    assert(data == body + be16(crc));
    assert(data.len() == n);
    assert(data[0] == hdr[0] && data[1] == hdr[1]);
    assert(data.subrange(0, n - 2) =~= body);
    assert(data[n - 2] == be16(crc)[0] && data[n - 1] == be16(crc)[1]);
    assert(data[n - 4] == be16(code)[0] && data[n - 3] == be16(code)[1]);
    assert(data.subrange(2, n - 4) =~= payload);
}

/// A frame that `new_request` accepts is exactly the frame that
/// `serialize_request` writes for the packet it decodes to.
pub proof fn lemma_parsed_request_reframes(data: Seq<u8>)
    requires
        parse_request(data) is Ok,
    ensures
        request_frame(parse_request(data)->Ok_0.0, parse_request(data)->Ok_0.1) == data,
{
    let n = data.len();
    let code = be16_value(data[n - 4], data[n - 3]);
    let payload = data.subrange(2, n - 4);
    lemma_be16_encode_decode(data[0], data[1]);
    lemma_be16_encode_decode(data[n - 4], data[n - 3]);
    lemma_be16_encode_decode(data[n - 2], data[n - 1]);
    assert(payload.len() + 6 == n);
    let body = be16((payload.len() + 6) as u16) + payload + be16(code);
    assert(body =~= data.subrange(0, n - 2));
    assert(request_frame(code, payload) =~= data);
}

/// A response frame that fits carries its own length in the header, the
/// response code, the payload, and a CRC that validates over everything
/// before it.
pub proof fn lemma_response_frame_layout(code: u16, payload: Seq<u8>)
    requires
        payload.len() + 6 <= MAX_PAYLOAD_SIZE,
    ensures
        ({
            let f = response_frame(code, payload);
            let n = f.len();
            &&& n == payload.len() + 6
            &&& be16_value(f[0], f[1]) == n
            &&& be16_value(f[2], f[3]) == code
            &&& f.subrange(4, n - 2) == payload
            &&& crc16_ibm_sdlc(f.subrange(0, n - 2)) == be16_value(f[n - 2], f[n - 1])
        }),
{
    let n = payload.len() + 6;
    let body = be16(n as u16) + be16(code) + payload;
    let crc = crc16_ibm_sdlc(body);
    let f = response_frame(code, payload);
    lemma_be16_decode_encode(n as u16);
    lemma_be16_decode_encode(code);
    lemma_be16_decode_encode(crc);
    assert(f == body + be16(crc));
    assert(f.subrange(0, n - 2) =~= body);
    assert(f.subrange(4, n - 2) =~= payload);
}

/// Request codes sent by host to device.
#[derive(Debug, Clone, Copy, PartialEq, Eq)]
pub enum RequestCode {
    // System Commands
    GetInfo,
    Echo,
    Shutdown,
    Reboot,
    // UUID Management
    RegisterUuidGroup,
    // GAP Operations - Address Management
    GapGetAddr,
    GapSetAddr,
    // GAP Operations - Advertising Control
    GapAdvStart,
    GapAdvStop,
    GapAdvSetConfigure,
    // GAP Operations - Device Configuration
    GapGetName,
    GapSetName,
    GapConnParamsGet,
    GapConnParamsSet,
    // GAP Operations - Connection Management
    GapConnParamUpdate,
    GapDataLengthUpdate,
    GapPhyUpdate,
    GapConnect,
    GapConnectCancel,
    GapDisconnect,
    // GAP Operations - Power & RSSI
    GapSetTxPower,
    GapStartRssiReporting,
    GapStopRssiReporting,
    // GAP Operations - Scanning (Central mode only)
    GapScanStart,
    GapScanStop,
    // GATT Server Operations
    GattsServiceAdd,
    GattsCharacteristicAdd,
    GattsMtuReply,
    GattsHvx,
    GattsSysAttrGet,
    GattsSysAttrSet,
    // GATT Client Operations (Central mode only)
    GattcMtuRequest,
    GattcServiceDiscover,
    GattcCharacteristicsDiscover,
    GattcDescriptorsDiscover,
    GattcRead,
    GattcWrite,
}

impl RequestCode {
    /// The wire value of a request code.
    pub open spec fn value(self) -> u16 {
        match self {
            RequestCode::GetInfo => 0x0001,
            RequestCode::Echo => 0x0003,
            RequestCode::Shutdown => 0x0002,
            RequestCode::Reboot => 0x00F0,
            RequestCode::RegisterUuidGroup => 0x0010,
            RequestCode::GapGetAddr => 0x0011,
            RequestCode::GapSetAddr => 0x0012,
            RequestCode::GapAdvStart => 0x0020,
            RequestCode::GapAdvStop => 0x0021,
            RequestCode::GapAdvSetConfigure => 0x0022,
            RequestCode::GapGetName => 0x0023,
            RequestCode::GapSetName => 0x0024,
            RequestCode::GapConnParamsGet => 0x0025,
            RequestCode::GapConnParamsSet => 0x0026,
            RequestCode::GapConnParamUpdate => 0x0027,
            RequestCode::GapDataLengthUpdate => 0x0028,
            RequestCode::GapPhyUpdate => 0x0029,
            RequestCode::GapConnect => 0x002A,
            RequestCode::GapConnectCancel => 0x002B,
            RequestCode::GapDisconnect => 0x002C,
            RequestCode::GapSetTxPower => 0x002D,
            RequestCode::GapStartRssiReporting => 0x002E,
            RequestCode::GapStopRssiReporting => 0x002F,
            RequestCode::GapScanStart => 0x0030,
            RequestCode::GapScanStop => 0x0031,
            RequestCode::GattsServiceAdd => 0x0080,
            RequestCode::GattsCharacteristicAdd => 0x0081,
            RequestCode::GattsMtuReply => 0x0082,
            RequestCode::GattsHvx => 0x0083,
            RequestCode::GattsSysAttrGet => 0x0084,
            RequestCode::GattsSysAttrSet => 0x0085,
            RequestCode::GattcMtuRequest => 0x00A0,
            RequestCode::GattcServiceDiscover => 0x00A1,
            RequestCode::GattcCharacteristicsDiscover => 0x00A2,
            RequestCode::GattcDescriptorsDiscover => 0x00A3,
            RequestCode::GattcRead => 0x00A4,
            RequestCode::GattcWrite => 0x00A5,
        }
    }

    /// Convert to the raw u16 value.
    pub fn to_u16(self) -> (r: u16)
        ensures
            r == self.value(),
    {
        match self {
            RequestCode::GetInfo => 0x0001,
            RequestCode::Echo => 0x0003,
            RequestCode::Shutdown => 0x0002,
            RequestCode::Reboot => 0x00F0,
            RequestCode::RegisterUuidGroup => 0x0010,
            RequestCode::GapGetAddr => 0x0011,
            RequestCode::GapSetAddr => 0x0012,
            RequestCode::GapAdvStart => 0x0020,
            RequestCode::GapAdvStop => 0x0021,
            RequestCode::GapAdvSetConfigure => 0x0022,
            RequestCode::GapGetName => 0x0023,
            RequestCode::GapSetName => 0x0024,
            RequestCode::GapConnParamsGet => 0x0025,
            RequestCode::GapConnParamsSet => 0x0026,
            RequestCode::GapConnParamUpdate => 0x0027,
            RequestCode::GapDataLengthUpdate => 0x0028,
            RequestCode::GapPhyUpdate => 0x0029,
            RequestCode::GapConnect => 0x002A,
            RequestCode::GapConnectCancel => 0x002B,
            RequestCode::GapDisconnect => 0x002C,
            RequestCode::GapSetTxPower => 0x002D,
            RequestCode::GapStartRssiReporting => 0x002E,
            RequestCode::GapStopRssiReporting => 0x002F,
            RequestCode::GapScanStart => 0x0030,
            RequestCode::GapScanStop => 0x0031,
            RequestCode::GattsServiceAdd => 0x0080,
            RequestCode::GattsCharacteristicAdd => 0x0081,
            RequestCode::GattsMtuReply => 0x0082,
            RequestCode::GattsHvx => 0x0083,
            RequestCode::GattsSysAttrGet => 0x0084,
            RequestCode::GattsSysAttrSet => 0x0085,
            RequestCode::GattcMtuRequest => 0x00A0,
            RequestCode::GattcServiceDiscover => 0x00A1,
            RequestCode::GattcCharacteristicsDiscover => 0x00A2,
            RequestCode::GattcDescriptorsDiscover => 0x00A3,
            RequestCode::GattcRead => 0x00A4,
            RequestCode::GattcWrite => 0x00A5,
        }
    }

    /// Convert from a raw u16 value: the code with that value, if any.
    pub fn from_u16(value: u16) -> (r: Option<Self>)
        ensures
            r matches Some(c) ==> c.value() == value,
            r is None ==> forall|c: RequestCode| c.value() != value,
    {
        match value {
            0x0001 => Some(Self::GetInfo),
            0x0002 => Some(Self::Shutdown),
            0x0003 => Some(Self::Echo),
            0x00F0 => Some(Self::Reboot),
            0x0010 => Some(Self::RegisterUuidGroup),
            0x0011 => Some(Self::GapGetAddr),
            0x0012 => Some(Self::GapSetAddr),
            0x0020 => Some(Self::GapAdvStart),
            0x0021 => Some(Self::GapAdvStop),
            0x0022 => Some(Self::GapAdvSetConfigure),
            0x0023 => Some(Self::GapGetName),
            0x0024 => Some(Self::GapSetName),
            0x0025 => Some(Self::GapConnParamsGet),
            0x0026 => Some(Self::GapConnParamsSet),
            0x0027 => Some(Self::GapConnParamUpdate),
            0x0028 => Some(Self::GapDataLengthUpdate),
            0x0029 => Some(Self::GapPhyUpdate),
            0x002A => Some(Self::GapConnect),
            0x002B => Some(Self::GapConnectCancel),
            0x002C => Some(Self::GapDisconnect),
            0x002D => Some(Self::GapSetTxPower),
            0x002E => Some(Self::GapStartRssiReporting),
            0x002F => Some(Self::GapStopRssiReporting),
            0x0030 => Some(Self::GapScanStart),
            0x0031 => Some(Self::GapScanStop),
            0x0080 => Some(Self::GattsServiceAdd),
            0x0081 => Some(Self::GattsCharacteristicAdd),
            0x0082 => Some(Self::GattsMtuReply),
            0x0083 => Some(Self::GattsHvx),
            0x0084 => Some(Self::GattsSysAttrGet),
            0x0085 => Some(Self::GattsSysAttrSet),
            0x00A0 => Some(Self::GattcMtuRequest),
            0x00A1 => Some(Self::GattcServiceDiscover),
            0x00A2 => Some(Self::GattcCharacteristicsDiscover),
            0x00A3 => Some(Self::GattcDescriptorsDiscover),
            0x00A4 => Some(Self::GattcRead),
            0x00A5 => Some(Self::GattcWrite),
            _ => None,
        }
    }
}

/// The wire value of every request code is the one the protocol documents
/// (system 0x0001-0x0003 and 0x00F0, UUID 0x0010, GAP 0x0011-0x0031, GATT
/// server 0x0080-0x0085, GATT client 0x00A0-0x00A5), so a command is
/// routed by the code the host sends.
pub proof fn lemma_documented_request_codes()
    ensures
        RequestCode::GetInfo.value() == 0x0001,
        RequestCode::Echo.value() == 0x0003,
        RequestCode::Shutdown.value() == 0x0002,
        RequestCode::Reboot.value() == 0x00F0,
        RequestCode::RegisterUuidGroup.value() == 0x0010,
        RequestCode::GapGetAddr.value() == 0x0011,
        RequestCode::GapSetAddr.value() == 0x0012,
        RequestCode::GapAdvStart.value() == 0x0020,
        RequestCode::GapAdvStop.value() == 0x0021,
        RequestCode::GapAdvSetConfigure.value() == 0x0022,
        RequestCode::GapGetName.value() == 0x0023,
        RequestCode::GapSetName.value() == 0x0024,
        RequestCode::GapConnParamsGet.value() == 0x0025,
        RequestCode::GapConnParamsSet.value() == 0x0026,
        RequestCode::GapConnParamUpdate.value() == 0x0027,
        RequestCode::GapDataLengthUpdate.value() == 0x0028,
        RequestCode::GapPhyUpdate.value() == 0x0029,
        RequestCode::GapConnect.value() == 0x002A,
        RequestCode::GapConnectCancel.value() == 0x002B,
        RequestCode::GapDisconnect.value() == 0x002C,
        RequestCode::GapSetTxPower.value() == 0x002D,
        RequestCode::GapStartRssiReporting.value() == 0x002E,
        RequestCode::GapStopRssiReporting.value() == 0x002F,
        RequestCode::GapScanStart.value() == 0x0030,
        RequestCode::GapScanStop.value() == 0x0031,
        RequestCode::GattsServiceAdd.value() == 0x0080,
        RequestCode::GattsCharacteristicAdd.value() == 0x0081,
        RequestCode::GattsMtuReply.value() == 0x0082,
        RequestCode::GattsHvx.value() == 0x0083,
        RequestCode::GattsSysAttrGet.value() == 0x0084,
        RequestCode::GattsSysAttrSet.value() == 0x0085,
        RequestCode::GattcMtuRequest.value() == 0x00A0,
        RequestCode::GattcServiceDiscover.value() == 0x00A1,
        RequestCode::GattcCharacteristicsDiscover.value() == 0x00A2,
        RequestCode::GattcDescriptorsDiscover.value() == 0x00A3,
        RequestCode::GattcRead.value() == 0x00A4,
        RequestCode::GattcWrite.value() == 0x00A5,
        ResponseCode::Ack.value() == 0xAC50,
        ResponseCode::Error.value() == 0xAC51,
        ResponseCode::BleEvent.value() == 0x8001,
        ResponseCode::SocEvent.value() == 0x8002,
{
}

/// Distinct request codes have distinct wire values, so decoding the wire
/// value of a code gives back that code.
pub proof fn lemma_request_code_value_injective(a: RequestCode, b: RequestCode)
    ensures
        a.value() == b.value() ==> a == b,
{
}

/// Response codes sent by device to host.
#[derive(Debug, Clone, Copy, PartialEq, Eq)]
pub enum ResponseCode {
    /// Command acknowledgment with results
    Ack,
    /// Error response
    Error,
    /// BLE event notification
    BleEvent,
    /// System-on-Chip event notification
    SocEvent,
}

impl ResponseCode {
    /// The wire value of a response code.
    pub open spec fn value(self) -> u16 {
        match self {
            ResponseCode::Ack => 0xAC50,
            ResponseCode::Error => 0xAC51,
            ResponseCode::BleEvent => 0x8001,
            ResponseCode::SocEvent => 0x8002,
        }
    }

    /// Convert to the raw u16 value.
    pub fn to_u16(self) -> (r: u16)
        ensures
            r == self.value(),
    {
        match self {
            ResponseCode::Ack => 0xAC50,
            ResponseCode::Error => 0xAC51,
            ResponseCode::BleEvent => 0x8001,
            ResponseCode::SocEvent => 0x8002,
        }
    }
}

/// Protocol error types.
#[derive(Debug, Clone, Copy, PartialEq, Eq)]
pub enum ProtocolError {
    InvalidLength,
    InvalidCode,
    SerializationError,
    BufferFull,
    InvalidCrc,
    InvalidData,
}

/// Protocol packet structure.
#[derive(Debug, Clone)]
pub struct Packet {
    pub code: u16,
    pub payload: FrameBuf,
}

impl Packet {
    /// Create a request packet from a received frame.
    /// Format: `[Length:2][Payload:N][RequestCode:2][CRC16:2]`.
    pub fn new_request(data: &[u8]) -> (r: Result<Self, ProtocolError>)
        ensures
            r matches Ok(p) ==> parse_request(data@) == Ok::<(u16, Seq<u8>), ProtocolError>((p.code, p.payload@)),
            r matches Err(e) ==> parse_request(data@) == Err::<(u16, Seq<u8>), ProtocolError>(e),
    {
        if data.len() < 6 {
            return Err(ProtocolError::InvalidLength);
        }
        let computed_crc = calculate_crc16(slice_subrange(data, 0, data.len() - 2));
        Self::decode_request(data, computed_crc)
    }

    /// Decode a received request frame, given the CRC computed over every
    /// byte before its CRC field (see [`parse_request_with_crc`]).
    pub fn decode_request(data: &[u8], computed_crc: u16) -> (r: Result<Self, ProtocolError>)
        ensures
            r matches Ok(p) ==> parse_request_with_crc(data@, computed_crc) == Ok::<
                (u16, Seq<u8>),
                ProtocolError,
            >((p.code, p.payload@)),
            r matches Err(e) ==> parse_request_with_crc(data@, computed_crc) == Err::<
                (u16, Seq<u8>),
                ProtocolError,
            >(e),
    {
        if data.len() < 6 {
            return Err(ProtocolError::InvalidLength);
        }
        let length = u16_from_be(data[0], data[1]) as usize;
        if length != data.len() {
            return Err(ProtocolError::InvalidLength);
        }
        let crc_offset = data.len() - 2;
        let received_crc = u16_from_be(data[crc_offset], data[crc_offset + 1]);
        if computed_crc != received_crc {
            return Err(ProtocolError::InvalidCrc);
        }
        let code_offset = crc_offset - 2;
        let code = u16_from_be(data[code_offset], data[code_offset + 1]);
        let mut packet_payload = FrameBuf::new();
        if !packet_payload.extend_from_slice(slice_subrange(data, 2, code_offset)) {
            return Err(ProtocolError::BufferFull);
        }
        Ok(Self { code, payload: packet_payload })
    }

    /// Create a response packet.
    pub fn new_response(code: ResponseCode, payload: &[u8]) -> (r: Result<Self, ProtocolError>)
        ensures
            r is Ok <==> payload@.len() <= MAX_PAYLOAD_SIZE,
            r matches Ok(p) ==> p.code == code.value() && p.payload@ == payload@,
            r matches Err(e) ==> e == ProtocolError::BufferFull,
    {
        let mut packet_payload = FrameBuf::new();
        if !packet_payload.extend_from_slice(payload) {
            return Err(ProtocolError::BufferFull);
        }
        Ok(Self { code: code.to_u16(), payload: packet_payload })
    }

    /// Create a request packet for sending; `serialize_request` gives the
    /// bytes to transmit.
    pub fn new_request_for_sending(code: RequestCode, payload: &[u8]) -> (r: Result<Self, ProtocolError>)
        ensures
            r is Ok <==> payload@.len() <= MAX_PAYLOAD_SIZE,
            r matches Ok(p) ==> p.code == code.value() && p.payload@ == payload@,
            r matches Err(e) ==> e == ProtocolError::BufferFull,
    {
        let mut packet_payload = FrameBuf::new();
        if !packet_payload.extend_from_slice(payload) {
            return Err(ProtocolError::BufferFull);
        }
        Ok(Self { code: code.to_u16(), payload: packet_payload })
    }

    /// Serialize a request packet for transmission.
    /// Format: `[Length:2][Payload:N][RequestCode:2][CRC16:2]`.
    pub fn serialize_request(&self) -> (r: Result<FrameBuf, ProtocolError>)
        ensures
            r is Ok <==> self.payload@.len() + 6 <= MAX_PAYLOAD_SIZE,
            r matches Ok(b) ==> b@ == request_frame(self.code, self.payload@),
            r matches Err(e) ==> e == ProtocolError::BufferFull,
    {
        let plen = self.payload.len();
        let total_length = 2 + plen + 2 + 2;
        if total_length > MAX_PAYLOAD_SIZE {
            return Err(ProtocolError::BufferFull);
        }
        let mut message = FrameBuf::new();
        if serialization::write_u16(&mut message, total_length as u16).is_err() {
            return Err(ProtocolError::BufferFull);
        }
        if serialization::write_slice(&mut message, self.payload.as_slice()).is_err() {
            return Err(ProtocolError::BufferFull);
        }
        if serialization::write_u16(&mut message, self.code).is_err() {
            return Err(ProtocolError::BufferFull);
        }
        let crc = calculate_crc16(message.as_slice());
        if serialization::write_u16(&mut message, crc).is_err() {
            return Err(ProtocolError::BufferFull);
        }
        Ok(message)
    }

    /// Serialize a response packet for transmission.
    /// Format: `[Length:2][ResponseCode:2][Payload:N][CRC16:2]`.
    pub fn serialize(&self) -> (r: Result<FrameBuf, ProtocolError>)
        ensures
            r is Ok <==> self.payload@.len() + 6 <= MAX_PAYLOAD_SIZE,
            r matches Ok(b) ==> b@ == response_frame(self.code, self.payload@),
            r matches Err(e) ==> e == ProtocolError::BufferFull,
    {
        let plen = self.payload.len();
        let total_length = 2 + 2 + plen + 2;
        if total_length > MAX_PAYLOAD_SIZE {
            return Err(ProtocolError::BufferFull);
        }
        let mut message = FrameBuf::new();
        if serialization::write_u16(&mut message, total_length as u16).is_err() {
            return Err(ProtocolError::BufferFull);
        }
        if serialization::write_u16(&mut message, self.code).is_err() {
            return Err(ProtocolError::BufferFull);
        }
        if serialization::write_slice(&mut message, self.payload.as_slice()).is_err() {
            return Err(ProtocolError::BufferFull);
        }
        let crc = calculate_crc16(message.as_slice());
        if serialization::write_u16(&mut message, crc).is_err() {
            return Err(ProtocolError::BufferFull);
        }
        Ok(message)
    }

    /// The request code, if the code field holds one.
    pub fn request_code(&self) -> (r: Option<RequestCode>)
        ensures
            r matches Some(c) ==> c.value() == self.code,
            r is None ==> forall|c: RequestCode| c.value() != self.code,
    {
        RequestCode::from_u16(self.code)
    }

    /// The response code, if the code field holds one (Ack, Error, BLE
    /// event or SoC event).
    pub fn response_code(&self) -> (r: Option<ResponseCode>)
        ensures
            r matches Some(c) ==> c.value() == self.code,
            r == (if self.code == 0xAC50 {
                Some(ResponseCode::Ack)
            } else if self.code == 0xAC51 {
                Some(ResponseCode::Error)
            } else if self.code == 0x8001 {
                Some(ResponseCode::BleEvent)
            } else if self.code == 0x8002 {
                Some(ResponseCode::SocEvent)
            } else {
                None
            }),
    {
        match self.code {
            0xAC50 => Some(ResponseCode::Ack),
            0xAC51 => Some(ResponseCode::Error),
            0x8001 => Some(ResponseCode::BleEvent),
            0x8002 => Some(ResponseCode::SocEvent),
            _ => None,
        }
    }
}

} // verus!

pub mod serialization;
