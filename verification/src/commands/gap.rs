//! GAP commands: address, advertising, device name, connection parameters,
//! connection management, TX power and RSSI reporting.
//!
//! A command that needs the SoftDevice is handled in two steps: its handler
//! checks the payload and names the call to make ([`SdRequest`]); once the
//! call is made, a `finish_` function answers from its result.
use vstd::prelude::*;

use crate::advertising::AdvCommand;
use crate::ble::gap_state::{
    padded, stored_len, ConnectionParams, GapState, MAX_ADV_DATA_LEN, MAX_DEVICE_NAME_LEN,
};
use crate::ble::registry::le16_value;
use crate::commands::{
    ack_outcome, answers, error_outcome, replies, CommandError, CommandStep, ResponseBuilder,
    SdRequest, NRF_ERROR_NO_MEM, NRF_SUCCESS,
};
use crate::commands::gatts::invalid_payload;
use crate::modem_core::memory::TxPacket;
use crate::modem_core::protocol::serialization::PayloadReader;
use crate::modem_core::protocol::{be16, be16_value, be32, ResponseCode};

verus! {

/// The answer to a call that either succeeds (an Ack) or fails
/// (`SoftDeviceError`).
pub open spec fn status_outcome(status: u32) -> Result<Seq<u8>, CommandError> {
    if status == NRF_SUCCESS {
        ack_outcome(Seq::empty())
    } else {
        error_outcome(CommandError::SoftDeviceError)
    }
}

/// The little-endian u16 at `i`.
pub open spec fn le16_at(p: Seq<u8>, i: int) -> u16 {
    le16_value(p[i], p[i + 1])
}

/// The big-endian u16 at `i`.
pub open spec fn be16_at(p: Seq<u8>, i: int) -> u16 {
    be16_value(p[i], p[i + 1])
}

/// The little-endian u16 `[lo, hi]`.
fn u16_from_le(lo: u8, hi: u8) -> (r: u16)
    ensures
        r == le16_value(lo, hi),
{
    (lo as u16) + (hi as u16) * 256
}

/// A copy of bytes `start..start + 6` of `data` as an array.
fn to_array6(data: &[u8], start: usize) -> (r: [u8; 6])
    requires
        start + 6 <= data.len(),
    ensures
        r@ == data@.subrange(start as int, start + 6),
{
    let mut out = [0u8; 6];
    let mut i: usize = 0;
    while i < 6
        invariant
            i <= 6,
            start + 6 <= data.len(),
            forall|j: int| 0 <= j < i ==> out@[j] == data@[start + j],
        decreases 6 - i,
    {
        out[i] = data[start + i];
        i = i + 1;
    }
    assert(out@ =~= data@.subrange(start as int, start + 6));
    out
}

/// A copy of a slice as a vector.
fn to_vec(data: &[u8]) -> (r: Vec<u8>)
    ensures
        r@ == data@,
{
    let mut out: Vec<u8> = Vec::new();
    let mut i: usize = 0;
    while i < data.len()
        invariant
            i <= data@.len(),
            out@ == data@.subrange(0, i as int),
        decreases data@.len() - i,
    {
        out.push(data[i]);
        i = i + 1;
        assert(out@ =~= data@.subrange(0, i as int));
    }
    assert(out@ =~= data@);
    out
}

/// GET_ADDR: read the device address.
pub fn handle_get_addr(_payload: &[u8]) -> (r: CommandStep)
    ensures
        r == CommandStep::Call(SdRequest::GetAddress),
{
    CommandStep::Call(SdRequest::GetAddress)
}

/// The address type carried in the flags byte of a SoftDevice address.
pub open spec fn address_type_of_flags(flags: u8) -> u8 {
    (flags >> 1u8) & 0x7F
}

/// Answer GET_ADDR from the address read: `NRF_SUCCESS`, the address type
/// and the six address bytes; the GAP state records them.
pub fn finish_get_addr(flags: u8, bytes: [u8; 6], gap: &mut GapState) -> (r: Result<
    TxPacket,
    CommandError,
>)
    ensures
        replies(
            r,
            ack_outcome(be32(NRF_SUCCESS) + seq![address_type_of_flags(flags)] + bytes@),
        ),
        *final(gap) == (GapState {
            device_addr: bytes,
            addr_type: address_type_of_flags(flags),
            ..*old(gap)
        }),
{
    let mut response = ResponseBuilder::new();
    match response.add_u32(NRF_SUCCESS) {
        Ok(()) => {},
        Err(e) => return Err(e),
    }
    let addr_type = (flags >> 1) & 0x7F;
    match response.add_u8(addr_type) {
        Ok(()) => {},
        Err(e) => return Err(e),
    }
    match response.add_slice(bytes.as_slice()) {
        Ok(()) => {},
        Err(e) => return Err(e),
    }
    gap.device_addr = bytes;
    gap.addr_type = addr_type;
    proof {
        assert(addr_type == address_type_of_flags(flags));
        assert(response@ =~= be32(NRF_SUCCESS) + seq![address_type_of_flags(flags)] + bytes@);
    }
    response.build(ResponseCode::Ack)
}

/// The step SET_ADDR takes for payload `p`.
pub open spec fn set_addr_step(p: Seq<u8>, r: CommandStep) -> bool {
    &&& (p.len() < 7 || p[0] > 3 ==> answers(r, invalid_payload()))
    &&& (p.len() >= 7 && p[0] <= 3 ==> (r matches CommandStep::Call(
            SdRequest::SetAddress { addr_type, addr },
        ) && addr_type == p[0] && addr@ == p.subrange(1, 7)))
}

/// SET_ADDR: `[address type (0..=3)][address (6)]`; a shorter payload or
/// an unknown type is answered with `InvalidPayload`.
pub fn handle_set_addr(payload: &[u8]) -> (r: CommandStep)
    ensures
        set_addr_step(payload@, r),
{
    if payload.len() < 7 {
        return CommandStep::Reply(ResponseBuilder::build_error(CommandError::InvalidPayload));
    }
    let addr_type = payload[0];
    if addr_type > 3 {
        return CommandStep::Reply(ResponseBuilder::build_error(CommandError::InvalidPayload));
    }
    let addr = to_array6(payload, 1);
    CommandStep::Call(SdRequest::SetAddress { addr_type, addr })
}

/// Answer SET_ADDR once the address is set: `NRF_SUCCESS`; the GAP state
/// records the address.
pub fn finish_set_addr(addr_type: u8, addr: [u8; 6], gap: &mut GapState) -> (r: Result<
    TxPacket,
    CommandError,
>)
    ensures
        replies(r, ack_outcome(be32(NRF_SUCCESS))),
        *final(gap) == (GapState { device_addr: addr, addr_type, ..*old(gap) }),
{
    gap.device_addr = addr;
    gap.addr_type = addr_type;
    let mut response = ResponseBuilder::new();
    match response.add_u32(NRF_SUCCESS) {
        Ok(()) => {},
        Err(e) => return Err(e),
    }
    response.build(ResponseCode::Ack)
}

/// The step ADV_START takes for payload `p`.
pub open spec fn adv_start_step(p: Seq<u8>, r: CommandStep) -> bool {
    &&& (p.len() < 2 ==> answers(r, invalid_payload()))
    &&& (p.len() >= 2 ==> r == CommandStep::Call(
            SdRequest::Advertising(
                AdvCommand::Start { handle: p[0], conn_cfg_tag: p[1] },
            ),
        ))
}

/// ADV_START: `[handle][connection configuration tag]`.
pub fn handle_adv_start(payload: &[u8]) -> (r: CommandStep)
    ensures
        adv_start_step(payload@, r),
{
    if payload.len() < 2 {
        return CommandStep::Reply(ResponseBuilder::build_error(CommandError::InvalidPayload));
    }
    CommandStep::Call(
        SdRequest::Advertising(AdvCommand::Start { handle: payload[0], conn_cfg_tag: payload[1] }),
    )
}

/// The step ADV_STOP takes for payload `p`.
pub open spec fn adv_stop_step(p: Seq<u8>, r: CommandStep) -> bool {
    &&& (p.len() < 1 ==> answers(r, invalid_payload()))
    &&& (p.len() >= 1 ==> r == CommandStep::Call(
            SdRequest::Advertising(AdvCommand::Stop { handle: p[0] }),
        ))
}

/// ADV_STOP: `[handle]`.
pub fn handle_adv_stop(payload: &[u8]) -> (r: CommandStep)
    ensures
        adv_stop_step(payload@, r),
{
    if payload.len() < 1 {
        return CommandStep::Reply(ResponseBuilder::build_error(CommandError::InvalidPayload));
    }
    CommandStep::Call(SdRequest::Advertising(AdvCommand::Stop { handle: payload[0] }))
}

/// Whether an ADV_CONFIGURE payload carries advertising and scan response
/// data to store: data present, both lengths (big-endian) at most 31, and
/// both data blocks in the payload.
pub open spec fn adv_configure_has_data(p: Seq<u8>) -> bool {
    &&& p.len() >= 6
    &&& p[1] != 0
    &&& be16_at(p, 2) <= 31
    &&& be16_at(p, 4) <= 31
    &&& p.len() - 6 >= be16_at(p, 2) + be16_at(p, 4)
}

/// What ADV_CONFIGURE does with payload `p`: its next step `r` and the GAP
/// state `after`, from the state `before`.
pub open spec fn adv_configure_done(p: Seq<u8>, before: GapState, after: GapState, r: CommandStep) -> bool {
    &&& (p.len() < 2 ==> answers(r, invalid_payload()) && after == before)
    &&& (p.len() >= 2 ==> r == CommandStep::Call(
            SdRequest::Advertising(
                AdvCommand::Configure { handle: p[0], data_present: p[1] != 0 },
            ),
        ))
    &&& (p.len() >= 2 && !adv_configure_has_data(p) ==> after == before)
    &&& (adv_configure_has_data(p) ==> {
            let adv = p.subrange(6, 6 + be16_at(p, 2));
            let scan = p.subrange(
                6 + be16_at(p, 2),
                6 + be16_at(p, 2) + be16_at(p, 4),
            );
            after == (GapState {
                adv_data: after.adv_data,
                adv_data_len: adv.len() as u8,
                scan_rsp_data: after.scan_rsp_data,
                scan_rsp_len: scan.len() as u8,
                adv_handle: p[0],
                ..before
            }) && after.adv_data@ == padded(adv, MAX_ADV_DATA_LEN as nat)
                && after.scan_rsp_data@ == padded(scan, MAX_ADV_DATA_LEN as nat)
        })
}

/// ADV_CONFIGURE: `[handle][data present][adv length (2)][scan response
/// length (2)][adv data][scan response data]`.  When the data is there the
/// GAP state stores it and the handle; the controller is then told to
/// configure.
pub fn handle_adv_configure(payload: &[u8], gap: &mut GapState) -> (r: CommandStep)
    ensures
        adv_configure_done(payload@, *old(gap), *final(gap), r),
{
    if payload.len() < 2 {
        return CommandStep::Reply(ResponseBuilder::build_error(CommandError::InvalidPayload));
    }
    let mut reader = PayloadReader::new(payload);
    let handle = match reader.read_u8() {
        Ok(h) => h,
        Err(e) => return CommandStep::Reply(Err(CommandError::ProtocolError(e))),
    };
    let data_present = match reader.read_u8() {
        Ok(d) => d != 0,
        Err(e) => return CommandStep::Reply(Err(CommandError::ProtocolError(e))),
    };
    if data_present && reader.remaining() >= 4 {
        let adv_data_len = match reader.read_u16() {
            Ok(l) => l as usize,
            Err(e) => return CommandStep::Reply(Err(CommandError::ProtocolError(e))),
        };
        let scan_rsp_len = match reader.read_u16() {
            Ok(l) => l as usize,
            Err(e) => return CommandStep::Reply(Err(CommandError::ProtocolError(e))),
        };
        if adv_data_len <= 31 && scan_rsp_len <= 31 && reader.remaining() >= adv_data_len
            + scan_rsp_len {
            let adv_data = match reader.read_slice(adv_data_len) {
                Ok(d) => d,
                Err(e) => return CommandStep::Reply(Err(CommandError::ProtocolError(e))),
            };
            let scan_data = match reader.read_slice(scan_rsp_len) {
                Ok(d) => d,
                Err(e) => return CommandStep::Reply(Err(CommandError::ProtocolError(e))),
            };
            gap.set_adv_data(adv_data);
            gap.set_scan_response(scan_data);
            gap.adv_handle = handle;
        }
    }
    CommandStep::Call(SdRequest::Advertising(AdvCommand::Configure { handle, data_present }))
}

/// The status sent for a queued advertising command: `NRF_SUCCESS`, or
/// `NRF_ERROR_NO_MEM` when the queue was full.
pub open spec fn queue_status(queued: bool) -> u32 {
    if queued {
        NRF_SUCCESS
    } else {
        NRF_ERROR_NO_MEM
    }
}

/// Answer ADV_START, ADV_STOP or ADV_CONFIGURE once the command was offered
/// to the advertising task: the queue status, and for ADV_CONFIGURE the
/// handle.
pub fn finish_adv_command(cmd: AdvCommand, queued: bool) -> (r: Result<TxPacket, CommandError>)
    ensures
        replies(
            r,
            ack_outcome(
                match cmd {
                    AdvCommand::Configure { handle, .. } => be32(queue_status(queued)) + seq![handle],
                    _ => be32(queue_status(queued)),
                },
            ),
        ),
{
    let result = if queued {
        NRF_SUCCESS
    } else {
        NRF_ERROR_NO_MEM
    };
    let mut response = ResponseBuilder::new();
    match response.add_u32(result) {
        Ok(()) => {},
        Err(e) => return Err(e),
    }
    match cmd {
        AdvCommand::Configure { handle, .. } => {
            match response.add_u8(handle) {
                Ok(()) => {},
                Err(e) => return Err(e),
            }
        },
        _ => {},
    }
    proof {
        match cmd {
            AdvCommand::Configure { handle, .. } => {
                assert(response@ =~= be32(queue_status(queued)) + seq![handle]);
            },
            _ => {},
        }
    }
    response.build(ResponseCode::Ack)
}

/// The answer to GET_NAME with payload `p`: `NRF_SUCCESS` and the name
/// length (big-endian), followed by the name when `p[0]` is non-zero.
pub open spec fn get_name_outcome(p: Seq<u8>, gap: GapState) -> Result<Seq<u8>, CommandError> {
    if p.len() < 1 {
        invalid_payload()
    } else if p[0] != 0 {
        ack_outcome(
            be32(NRF_SUCCESS) + be16(gap.device_name_len as u16) + gap.device_name@.subrange(
                0,
                gap.device_name_len as int,
            ),
        )
    } else {
        ack_outcome(be32(NRF_SUCCESS) + be16(gap.device_name_len as u16))
    }
}

/// GET_NAME: `[present]`.  Answers `NRF_SUCCESS` and the name length
/// (big-endian), followed by the name when `present` is non-zero.
pub fn handle_get_name(payload: &[u8], gap: &GapState) -> (r: Result<TxPacket, CommandError>)
    requires
        gap.device_name_len <= MAX_DEVICE_NAME_LEN,
    ensures
        replies(r, get_name_outcome(payload@, *gap)),
{
    if payload.len() < 1 {
        return ResponseBuilder::build_error(CommandError::InvalidPayload);
    }
    let present = payload[0] != 0;
    let mut response = ResponseBuilder::new();
    match response.add_u32(NRF_SUCCESS) {
        Ok(()) => {},
        Err(e) => return Err(e),
    }
    if present {
        let device_name = gap.device_name();
        match response.add_u16(device_name.len() as u16) {
            Ok(()) => {},
            Err(e) => return Err(e),
        }
        match response.add_slice(device_name) {
            Ok(()) => {},
            Err(e) => return Err(e),
        }
    } else {
        match response.add_u16(gap.device_name_len as u16) {
            Ok(()) => {},
            Err(e) => return Err(e),
        }
    }
    response.build(ResponseCode::Ack)
}

/// The step SET_NAME takes for payload `p`.
pub open spec fn set_name_step(p: Seq<u8>, r: CommandStep) -> bool {
    &&& (p.len() < 2 ==> answers(r, invalid_payload()))
    &&& (p.len() >= 2 ==> (r matches CommandStep::Call(
            SdRequest::SetDeviceName { sec_mode_sm, sec_mode_lv, name },
        ) && sec_mode_sm == p[0] && sec_mode_lv == p[1] && name@
            == p.subrange(2, p.len() as int)))
}

/// SET_NAME: `[security mode sm][security mode lv][name]`.
pub fn handle_set_name(payload: &[u8]) -> (r: CommandStep)
    ensures
        set_name_step(payload@, r),
{
    if payload.len() < 2 {
        return CommandStep::Reply(ResponseBuilder::build_error(CommandError::InvalidPayload));
    }
    let name = to_vec(vstd::slice::slice_subrange(payload, 2, payload.len()));
    CommandStep::Call(
        SdRequest::SetDeviceName { sec_mode_sm: payload[0], sec_mode_lv: payload[1], name },
    )
}

/// Answer SET_NAME with the SoftDevice's status; on success the GAP state
/// stores the name.
pub fn finish_set_name(name: &[u8], result: u32, gap: &mut GapState) -> (r: Result<
    TxPacket,
    CommandError,
>)
    ensures
        replies(r, ack_outcome(be32(result))),
        result == NRF_SUCCESS ==> *final(gap) == (GapState {
            device_name: final(gap).device_name,
            device_name_len: stored_len(name@, MAX_DEVICE_NAME_LEN as nat) as u8,
            ..*old(gap)
        }) && final(gap).device_name@ == padded(name@, MAX_DEVICE_NAME_LEN as nat),
        result != NRF_SUCCESS ==> *final(gap) == *old(gap),
{
    if result == NRF_SUCCESS {
        gap.set_device_name(name);
    }
    let mut response = ResponseBuilder::new();
    match response.add_u32(result) {
        Ok(()) => {},
        Err(e) => return Err(e),
    }
    response.build(ResponseCode::Ack)
}

/// CONN_PARAMS_GET: read the preferred connection parameters.
pub fn handle_conn_params_get(_payload: &[u8]) -> (r: CommandStep)
    ensures
        r == CommandStep::Call(SdRequest::PpcpGet),
{
    CommandStep::Call(SdRequest::PpcpGet)
}

/// The four connection parameters, big-endian.
pub open spec fn params_bytes(p: ConnectionParams) -> Seq<u8> {
    be16(p.min_conn_interval) + be16(p.max_conn_interval) + be16(p.slave_latency) + be16(
        p.conn_sup_timeout,
    )
}

/// Answer CONN_PARAMS_GET from the SoftDevice's status and parameters: the
/// status, then the parameters on success, which the GAP state records.
pub fn finish_conn_params_get(result: u32, params: ConnectionParams, gap: &mut GapState) -> (r:
    Result<TxPacket, CommandError>)
    ensures
        result == NRF_SUCCESS ==> replies(r, ack_outcome(be32(result) + params_bytes(params)))
            && *final(gap) == (GapState { preferred_conn_params: params, ..*old(gap) }),
        result != NRF_SUCCESS ==> replies(r, ack_outcome(be32(result))) && *final(gap) == *old(
            gap,
        ),
{
    let mut response = ResponseBuilder::new();
    match response.add_u32(result) {
        Ok(()) => {},
        Err(e) => return Err(e),
    }
    if result == NRF_SUCCESS {
        match response.add_u16(params.min_conn_interval) {
            Ok(()) => {},
            Err(e) => return Err(e),
        }
        match response.add_u16(params.max_conn_interval) {
            Ok(()) => {},
            Err(e) => return Err(e),
        }
        match response.add_u16(params.slave_latency) {
            Ok(()) => {},
            Err(e) => return Err(e),
        }
        match response.add_u16(params.conn_sup_timeout) {
            Ok(()) => {},
            Err(e) => return Err(e),
        }
        gap.preferred_conn_params = params;
        proof {
            assert(response@ =~= be32(result) + params_bytes(params));
        }
    }
    response.build(ResponseCode::Ack)
}

/// The step CONN_PARAMS_SET takes for payload `p`.
pub open spec fn conn_params_set_step(p: Seq<u8>, r: CommandStep) -> bool {
    &&& (p.len() < 8 ==> answers(r, invalid_payload()))
    &&& (p.len() >= 8 ==> r == CommandStep::Call(
            SdRequest::PpcpSet(
                ConnectionParams {
                    min_conn_interval: be16_at(p, 0),
                    max_conn_interval: be16_at(p, 2),
                    slave_latency: be16_at(p, 4),
                    conn_sup_timeout: be16_at(p, 6),
                },
            ),
        ))
}

/// CONN_PARAMS_SET: four big-endian u16s: minimum and maximum interval,
/// slave latency, supervision timeout.
pub fn handle_conn_params_set(payload: &[u8]) -> (r: CommandStep)
    ensures
        conn_params_set_step(payload@, r),
{
    if payload.len() < 8 {
        return CommandStep::Reply(ResponseBuilder::build_error(CommandError::InvalidPayload));
    }
    let mut reader = PayloadReader::new(payload);
    let min_conn_interval = match reader.read_u16() {
        Ok(v) => v,
        Err(e) => return CommandStep::Reply(Err(CommandError::ProtocolError(e))),
    };
    let max_conn_interval = match reader.read_u16() {
        Ok(v) => v,
        Err(e) => return CommandStep::Reply(Err(CommandError::ProtocolError(e))),
    };
    let slave_latency = match reader.read_u16() {
        Ok(v) => v,
        Err(e) => return CommandStep::Reply(Err(CommandError::ProtocolError(e))),
    };
    let conn_sup_timeout = match reader.read_u16() {
        Ok(v) => v,
        Err(e) => return CommandStep::Reply(Err(CommandError::ProtocolError(e))),
    };
    CommandStep::Call(
        SdRequest::PpcpSet(
            ConnectionParams { min_conn_interval, max_conn_interval, slave_latency, conn_sup_timeout },
        ),
    )
}

/// Answer CONN_PARAMS_SET with the SoftDevice's status; on success the GAP
/// state records the parameters.
pub fn finish_conn_params_set(params: ConnectionParams, result: u32, gap: &mut GapState) -> (r:
    Result<TxPacket, CommandError>)
    ensures
        replies(r, ack_outcome(be32(result))),
        result == NRF_SUCCESS ==> *final(gap) == (GapState {
            preferred_conn_params: params,
            ..*old(gap)
        }),
        result != NRF_SUCCESS ==> *final(gap) == *old(gap),
{
    if result == NRF_SUCCESS {
        gap.preferred_conn_params = params;
    }
    let mut response = ResponseBuilder::new();
    match response.add_u32(result) {
        Ok(()) => {},
        Err(e) => return Err(e),
    }
    response.build(ResponseCode::Ack)
}

/// The step CONN_PARAM_UPDATE takes for payload `p`.
pub open spec fn conn_param_update_step(p: Seq<u8>, r: CommandStep) -> bool {
    &&& (p.len() != 10 ==> answers(r, invalid_payload()))
    &&& (p.len() == 10 ==> r == CommandStep::Call(
            SdRequest::ConnParamUpdate {
                conn_handle: le16_at(p, 0),
                params: ConnectionParams {
                    min_conn_interval: le16_at(p, 2),
                    max_conn_interval: le16_at(p, 4),
                    slave_latency: le16_at(p, 6),
                    conn_sup_timeout: le16_at(p, 8),
                },
            },
        ))
}

/// CONN_PARAM_UPDATE: exactly ten bytes, five little-endian u16s: the
/// connection handle, minimum and maximum interval, slave latency and
/// supervision timeout.
pub fn handle_conn_param_update(payload: &[u8]) -> (r: CommandStep)
    ensures
        conn_param_update_step(payload@, r),
{
    if payload.len() != 10 {
        return CommandStep::Reply(ResponseBuilder::build_error(CommandError::InvalidPayload));
    }
    let conn_handle = u16_from_le(payload[0], payload[1]);
    let min_conn_interval = u16_from_le(payload[2], payload[3]);
    let max_conn_interval = u16_from_le(payload[4], payload[5]);
    let slave_latency = u16_from_le(payload[6], payload[7]);
    let conn_sup_timeout = u16_from_le(payload[8], payload[9]);
    CommandStep::Call(
        SdRequest::ConnParamUpdate {
            conn_handle,
            params: ConnectionParams {
                min_conn_interval,
                max_conn_interval,
                slave_latency,
                conn_sup_timeout,
            },
        },
    )
}

/// The step DATA_LENGTH_UPDATE takes for payload `p`.
pub open spec fn data_length_update_step(p: Seq<u8>, r: CommandStep) -> bool {
    &&& (p.len() != 6 ==> answers(r, invalid_payload()))
    &&& (p.len() == 6 ==> r == CommandStep::Call(
            SdRequest::DataLengthUpdate {
                conn_handle: le16_at(p, 0),
                tx_octets: le16_at(p, 2),
                tx_time_us: le16_at(p, 4),
            },
        ))
}

/// DATA_LENGTH_UPDATE: exactly six bytes, three little-endian u16s: the
/// connection handle, TX octets and TX time in microseconds.
pub fn handle_data_length_update(payload: &[u8]) -> (r: CommandStep)
    ensures
        data_length_update_step(payload@, r),
{
    if payload.len() != 6 {
        return CommandStep::Reply(ResponseBuilder::build_error(CommandError::InvalidPayload));
    }
    let conn_handle = u16_from_le(payload[0], payload[1]);
    let tx_octets = u16_from_le(payload[2], payload[3]);
    let tx_time_us = u16_from_le(payload[4], payload[5]);
    CommandStep::Call(SdRequest::DataLengthUpdate { conn_handle, tx_octets, tx_time_us })
}

/// The step PHY_UPDATE takes for payload `p`.
pub open spec fn phy_update_step(p: Seq<u8>, r: CommandStep) -> bool {
    &&& (p.len() != 6 ==> answers(r, invalid_payload()))
    &&& (p.len() == 6 ==> r == CommandStep::Call(
            SdRequest::PhyUpdate {
                conn_handle: le16_at(p, 0),
                tx_phys: p[2],
                rx_phys: p[3],
            },
        ))
}

/// PHY_UPDATE: exactly six bytes: the connection handle (little-endian), TX
/// PHYs, RX PHYs and two bytes of coded-PHY options that are not used.
pub fn handle_phy_update(payload: &[u8]) -> (r: CommandStep)
    ensures
        phy_update_step(payload@, r),
{
    if payload.len() != 6 {
        return CommandStep::Reply(ResponseBuilder::build_error(CommandError::InvalidPayload));
    }
    let conn_handle = u16_from_le(payload[0], payload[1]);
    CommandStep::Call(
        SdRequest::PhyUpdate { conn_handle, tx_phys: payload[2], rx_phys: payload[3] },
    )
}

/// The step DISCONNECT takes for payload `p`.
pub open spec fn disconnect_step(p: Seq<u8>, r: CommandStep) -> bool {
    &&& (p.len() != 3 ==> answers(r, invalid_payload()))
    &&& (p.len() == 3 ==> r == CommandStep::Call(
            SdRequest::Disconnect { conn_handle: le16_at(p, 0), reason: p[2] },
        ))
}

/// DISCONNECT: exactly three bytes: the connection handle (little-endian)
/// and the HCI reason.
pub fn handle_disconnect(payload: &[u8]) -> (r: CommandStep)
    ensures
        disconnect_step(payload@, r),
{
    if payload.len() != 3 {
        return CommandStep::Reply(ResponseBuilder::build_error(CommandError::InvalidPayload));
    }
    let conn_handle = u16_from_le(payload[0], payload[1]);
    CommandStep::Call(SdRequest::Disconnect { conn_handle, reason: payload[2] })
}

/// The step SET_TX_POWER takes for payload `p`.
pub open spec fn set_tx_power_step(p: Seq<u8>, r: CommandStep) -> bool {
    &&& (p.len() != 4 || p[0] < 1 || p[0] > 3 ==> answers(
            r,
            invalid_payload(),
        ))
    &&& (p.len() == 4 && 1 <= p[0] <= 3 ==> r == CommandStep::Call(
            SdRequest::SetTxPower {
                role: p[0],
                handle: if p[0] == 3 {
                    le16_at(p, 1)
                } else {
                    0
                },
                tx_power: p[3] as i8,
            },
        ))
}

/// SET_TX_POWER: exactly four bytes: the role (1 advertising, 2 scanning, 3
/// connection), the connection handle (little-endian, used for role 3
/// only) and the power in dBm (signed).  Another role is answered with
/// `InvalidPayload`.
pub fn handle_set_tx_power(payload: &[u8]) -> (r: CommandStep)
    ensures
        set_tx_power_step(payload@, r),
{
    if payload.len() != 4 {
        return CommandStep::Reply(ResponseBuilder::build_error(CommandError::InvalidPayload));
    }
    let role = payload[0];
    let conn_handle = u16_from_le(payload[1], payload[2]);
    let tx_power = payload[3] as i8;
    match role {
        0x01 => CommandStep::Call(SdRequest::SetTxPower { role: 1, handle: 0, tx_power }),
        0x02 => CommandStep::Call(SdRequest::SetTxPower { role: 2, handle: 0, tx_power }),
        0x03 => CommandStep::Call(SdRequest::SetTxPower { role: 3, handle: conn_handle, tx_power }),
        _ => CommandStep::Reply(ResponseBuilder::build_error(CommandError::InvalidPayload)),
    }
}

/// Answer CONN_PARAM_UPDATE, DATA_LENGTH_UPDATE, PHY_UPDATE, DISCONNECT or
/// SET_TX_POWER from the SoftDevice's status: an Ack on success, else
/// `SoftDeviceError`.
pub fn finish_status(result: u32) -> (r: Result<TxPacket, CommandError>)
    ensures
        replies(r, status_outcome(result)),
{
    if result != NRF_SUCCESS {
        return ResponseBuilder::build_error(CommandError::SoftDeviceError);
    }
    ResponseBuilder::build_ack()
}

/// START_RSSI_REPORTING: acknowledged.
pub fn handle_start_rssi_reporting(_payload: &[u8]) -> (r: Result<TxPacket, CommandError>)
    ensures
        replies(r, ack_outcome(Seq::empty())),
{
    ResponseBuilder::build_ack()
}

/// STOP_RSSI_REPORTING: acknowledged.
pub fn handle_stop_rssi_reporting(_payload: &[u8]) -> (r: Result<TxPacket, CommandError>)
    ensures
        replies(r, ack_outcome(Seq::empty())),
{
    ResponseBuilder::build_ack()
}

/// CONN_PARAM_UPDATE reads its ten bytes as five little-endian u16s, in
/// order: the connection handle, the minimum interval, the maximum
/// interval, the slave latency and the supervision timeout, and asks the
/// SoftDevice to update that connection with them; a payload of another
/// length is refused as malformed.
pub proof fn lemma_conn_param_update_fields(p: Seq<u8>, r: CommandStep)
    requires
        conn_param_update_step(p, r),
    ensures
        p.len() == 10 ==> (r matches CommandStep::Call(
            SdRequest::ConnParamUpdate { conn_handle, params },
        ) && conn_handle == p[0] + p[1] * 256 && params.min_conn_interval == p[2] + p[3] * 256
            && params.max_conn_interval == p[4] + p[5] * 256 && params.slave_latency == p[6] + p[7]
            * 256 && params.conn_sup_timeout == p[8] + p[9] * 256),
        p.len() != 10 ==> answers(r, error_outcome(CommandError::InvalidPayload)),
{
}

/// SET_TX_POWER takes exactly four bytes: a role, a little-endian
/// connection handle and a signed power in dBm.  Each of the three roles
/// (1 advertising, 2 scanning, 3 connection) asks the SoftDevice to set
/// that role's power to the given value, on the given connection for role
/// 3 and on handle 0 otherwise; any other role, or another length, is
/// refused as malformed.
pub proof fn lemma_set_tx_power_roles(p: Seq<u8>, r: CommandStep)
    requires
        set_tx_power_step(p, r),
    ensures
        p.len() == 4 && (p[0] == 1 || p[0] == 2 || p[0] == 3) ==> (r matches CommandStep::Call(
            SdRequest::SetTxPower { role, handle, tx_power },
        ) && role == p[0] && tx_power as u8 == p[3] && handle == (if p[0] == 3 {
            p[1] + p[2] * 256
        } else {
            0
        })),
        !(p.len() == 4 && (p[0] == 1 || p[0] == 2 || p[0] == 3)) ==> answers(
            r,
            error_outcome(CommandError::InvalidPayload),
        ),
{
    if p.len() == 4 {
        let x = p[3];
        assert(((x as i8) as u8) == x) by (bit_vector);
    }
}

/// DATA_LENGTH_UPDATE, PHY_UPDATE and DISCONNECT read their fields in
/// payload order, multi-byte fields little-endian: the connection handle
/// first; then the TX octets and TX time for a data length update, the TX
/// and RX PHYs for a PHY update (the two option bytes after them are not
/// used), the HCI reason for a disconnect.  A payload of another length
/// (6, 6 and 3 bytes) is refused as malformed.
pub proof fn lemma_connection_request_fields(p: Seq<u8>, r1: CommandStep, r2: CommandStep, r3: CommandStep)
    requires
        data_length_update_step(p, r1),
        phy_update_step(p, r2),
        disconnect_step(p, r3),
    ensures
        p.len() == 6 ==> (r1 matches CommandStep::Call(
            SdRequest::DataLengthUpdate { conn_handle, tx_octets, tx_time_us },
        ) && conn_handle == p[0] + p[1] * 256 && tx_octets == p[2] + p[3] * 256 && tx_time_us
            == p[4] + p[5] * 256),
        p.len() == 6 ==> (r2 matches CommandStep::Call(
            SdRequest::PhyUpdate { conn_handle, tx_phys, rx_phys },
        ) && conn_handle == p[0] + p[1] * 256 && tx_phys == p[2] && rx_phys == p[3]),
        p.len() == 3 ==> (r3 matches CommandStep::Call(SdRequest::Disconnect { conn_handle, reason })
            && conn_handle == p[0] + p[1] * 256 && reason == p[2]),
        p.len() != 6 ==> answers(r1, error_outcome(CommandError::InvalidPayload)) && answers(
            r2,
            error_outcome(CommandError::InvalidPayload),
        ),
        p.len() != 3 ==> answers(r3, error_outcome(CommandError::InvalidPayload)),
{
}

} // verus!
