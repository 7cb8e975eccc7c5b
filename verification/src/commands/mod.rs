//! Command processing: the host's requests, routed to their handlers, and
//! the responses sent back.
use vstd::prelude::*;
use vstd::string::StringSliceAdditionalSpecFns;

use crate::advertising::AdvCommand;
use crate::ble::gap_state::{ConnectionParams, GapState, MAX_DEVICE_NAME_LEN};
use crate::ble::gatt_state::ModemState;
use crate::ble::registry::GattRegistry;
use crate::commands::gap::{
    adv_configure_done, adv_start_step, adv_stop_step, conn_param_update_step, conn_params_set_step,
    data_length_update_step, disconnect_step, get_name_outcome, phy_update_step, set_addr_step,
    set_name_step, set_tx_power_step,
};
use crate::commands::gatts::{
    characteristic_add_done, hvx_valid, invalid_payload, same_registry, service_add_done,
    sys_attr_valid,
};
use crate::commands::system::FIRMWARE_VERSION_BCD;
use crate::commands::uuid::register_uuid_group_done;
use crate::ble::gatt_state::StateError;
use crate::collections::FrameBuf;
use crate::modem_core::memory::{BufferError, TxPacket};
use crate::modem_core::protocol::serialization::{write_slice, write_u16, write_u32, write_u8};
use crate::modem_core::protocol::{
    be16, be32, response_frame, Packet, ProtocolError, RequestCode, ResponseCode, MAX_PAYLOAD_SIZE,
};

verus! {

/// Command processing errors.
#[derive(Debug, Clone, Copy, PartialEq, Eq)]
pub enum CommandError {
    UnknownCommand,
    InvalidPayload,
    BufferError(BufferError),
    ProtocolError(ProtocolError),
    StateError(StateError),
    SoftDeviceError,
    NotImplemented,
}

impl CommandError {
    /// The error code sent to the host for an error.
    pub open spec fn code(self) -> u16 {
        match self {
            CommandError::UnknownCommand => 0x01,
            CommandError::InvalidPayload => 0x02,
            CommandError::BufferError(_) => 0x03,
            CommandError::ProtocolError(_) => 0x04,
            CommandError::StateError(_) => 0x05,
            CommandError::SoftDeviceError => 0x06,
            CommandError::NotImplemented => 0x07,
        }
    }
}

impl From<BufferError> for CommandError {
    fn from(err: BufferError) -> (r: Self) {
        CommandError::BufferError(err)
    }
}

impl vstd::std_specs::convert::FromSpecImpl<BufferError> for CommandError {
    open spec fn obeys_from_spec() -> bool {
        true
    }

    open spec fn from_spec(err: BufferError) -> CommandError {
        CommandError::BufferError(err)
    }
}

impl From<ProtocolError> for CommandError {
    fn from(err: ProtocolError) -> (r: Self) {
        CommandError::ProtocolError(err)
    }
}

impl vstd::std_specs::convert::FromSpecImpl<ProtocolError> for CommandError {
    open spec fn obeys_from_spec() -> bool {
        true
    }

    open spec fn from_spec(err: ProtocolError) -> CommandError {
        CommandError::ProtocolError(err)
    }
}

impl From<StateError> for CommandError {
    fn from(err: StateError) -> (r: Self) {
        CommandError::StateError(err)
    }
}

impl vstd::std_specs::convert::FromSpecImpl<StateError> for CommandError {
    open spec fn obeys_from_spec() -> bool {
        true
    }

    open spec fn from_spec(err: StateError) -> CommandError {
        CommandError::StateError(err)
    }
}

/// What building a response with `code` and `payload` gives: the response
/// frame, or `BufferFull` when the frame would exceed [`MAX_PAYLOAD_SIZE`].
pub open spec fn build_outcome(code: ResponseCode, payload: Seq<u8>) -> Result<Seq<u8>, CommandError> {
    if payload.len() + 6 <= MAX_PAYLOAD_SIZE {
        Ok(response_frame(code.value(), payload))
    } else {
        Err(CommandError::ProtocolError(ProtocolError::BufferFull))
    }
}

/// An Ack response carrying `payload`.
pub open spec fn ack_outcome(payload: Seq<u8>) -> Result<Seq<u8>, CommandError> {
    build_outcome(ResponseCode::Ack, payload)
}

/// An Error response carrying an error code.
pub open spec fn error_code_outcome(code: u16) -> Result<Seq<u8>, CommandError> {
    build_outcome(ResponseCode::Error, be16(code))
}

/// An Error response for a command error.
pub open spec fn error_outcome(e: CommandError) -> Result<Seq<u8>, CommandError> {
    error_code_outcome(e.code())
}

/// Whether a handler's result is the given outcome: the same frame bytes,
/// or the same error.
pub open spec fn replies(r: Result<TxPacket, CommandError>, o: Result<Seq<u8>, CommandError>) -> bool {
    match (r, o) {
        (Ok(p), Ok(b)) => p@ == b,
        (Err(e1), Err(e2)) => e1 == e2,
        _ => false,
    }
}

/// The SoftDevice's success status.
pub const NRF_SUCCESS: u32 = 0;

/// The SoftDevice's out-of-memory status, also sent when the advertising
/// command queue is full.
pub const NRF_ERROR_NO_MEM: u32 = 4;

/// A call on the SoftDevice (or the advertising task's queue) that a
/// command needs before it can be answered.
#[derive(Debug, Clone)]
pub enum SdRequest {
    /// Read the device address.
    GetAddress,
    /// Set the device address.
    SetAddress { addr_type: u8, addr: [u8; 6] },
    /// Queue a command for the advertising task.
    Advertising(AdvCommand),
    /// Set the device name with the given security mode.
    SetDeviceName { sec_mode_sm: u8, sec_mode_lv: u8, name: Vec<u8> },
    /// Read the preferred connection parameters.
    PpcpGet,
    /// Set the preferred connection parameters.
    PpcpSet(ConnectionParams),
    /// Update the parameters of a connection.
    ConnParamUpdate { conn_handle: u16, params: ConnectionParams },
    /// Request a data length update on a connection.
    DataLengthUpdate { conn_handle: u16, tx_octets: u16, tx_time_us: u16 },
    /// Request a PHY update on a connection.
    PhyUpdate { conn_handle: u16, tx_phys: u8, rx_phys: u8 },
    /// Disconnect a connection.
    Disconnect { conn_handle: u16, reason: u8 },
    /// Set the TX power for a role (1 advertising, 2 scanning, 3 connection).
    SetTxPower { role: u8, handle: u16, tx_power: i8 },
}

/// The next step of a command: its answer, or a call to make first.
#[derive(Debug)]
pub enum CommandStep {
    Reply(Result<TxPacket, CommandError>),
    Call(SdRequest),
}

/// Whether a step is the answer `o`.
pub open spec fn answers(step: CommandStep, o: Result<Seq<u8>, CommandError>) -> bool {
    step matches CommandStep::Reply(r) && replies(r, o)
}

/// Command response builder.
pub struct ResponseBuilder {
    buffer: FrameBuf,
}

impl View for ResponseBuilder {
    type V = Seq<u8>;

    closed spec fn view(&self) -> Seq<u8> {
        self.buffer@
    }
}

impl ResponseBuilder {
    /// An empty response.
    pub fn new() -> (r: Self)
        ensures
            r@ == Seq::<u8>::empty(),
    {
        Self { buffer: FrameBuf::new() }
    }

    /// Add a u8 to the response.
    pub fn add_u8(&mut self, value: u8) -> (r: Result<(), CommandError>)
        ensures
            r is Ok <==> old(self)@.len() + 1 <= MAX_PAYLOAD_SIZE,
            r is Ok ==> final(self)@ == old(self)@.push(value),
            r matches Err(e) ==> e == CommandError::ProtocolError(ProtocolError::BufferFull)
                && final(self)@ == old(self)@,
    {
        match write_u8(&mut self.buffer, value) {
            Ok(()) => Ok(()),
            Err(e) => Err(CommandError::ProtocolError(e)),
        }
    }

    /// Add a big-endian u16 to the response.
    pub fn add_u16(&mut self, value: u16) -> (r: Result<(), CommandError>)
        ensures
            r is Ok <==> old(self)@.len() + 2 <= MAX_PAYLOAD_SIZE,
            r is Ok ==> final(self)@ == old(self)@ + be16(value),
            r matches Err(e) ==> e == CommandError::ProtocolError(ProtocolError::BufferFull)
                && final(self)@ == old(self)@,
    {
        match write_u16(&mut self.buffer, value) {
            Ok(()) => Ok(()),
            Err(e) => Err(CommandError::ProtocolError(e)),
        }
    }

    /// Add a big-endian u32 to the response.
    pub fn add_u32(&mut self, value: u32) -> (r: Result<(), CommandError>)
        ensures
            r is Ok <==> old(self)@.len() + 4 <= MAX_PAYLOAD_SIZE,
            r is Ok ==> final(self)@ == old(self)@ + be32(value),
            r matches Err(e) ==> e == CommandError::ProtocolError(ProtocolError::BufferFull)
                && final(self)@ == old(self)@,
    {
        match write_u32(&mut self.buffer, value) {
            Ok(()) => Ok(()),
            Err(e) => Err(CommandError::ProtocolError(e)),
        }
    }

    /// Add a byte slice to the response.
    pub fn add_slice(&mut self, data: &[u8]) -> (r: Result<(), CommandError>)
        ensures
            r is Ok <==> old(self)@.len() + data@.len() <= MAX_PAYLOAD_SIZE,
            r is Ok ==> final(self)@ == old(self)@ + data@,
            r matches Err(e) ==> e == CommandError::ProtocolError(ProtocolError::BufferFull)
                && final(self)@ == old(self)@,
    {
        match write_slice(&mut self.buffer, data) {
            Ok(()) => Ok(()),
            Err(e) => Err(CommandError::ProtocolError(e)),
        }
    }

    /// Add the bytes of a string to the response.
    pub fn add_string(&mut self, s: &str) -> (r: Result<(), CommandError>)
        ensures
            r is Ok <==> old(self)@.len() + s.spec_bytes().len() <= MAX_PAYLOAD_SIZE,
            r is Ok ==> final(self)@ == old(self)@ + s.spec_bytes(),
            r matches Err(e) ==> e == CommandError::ProtocolError(ProtocolError::BufferFull)
                && final(self)@ == old(self)@,
    {
        self.add_slice(s.as_bytes())
    }

    /// Build the response packet: the frame carrying `response_code` and
    /// the bytes added so far.
    pub fn build(self, response_code: ResponseCode) -> (r: Result<TxPacket, CommandError>)
        ensures
            replies(r, build_outcome(response_code, self@)),
    {
        let packet = match Packet::new_response(response_code, self.buffer.as_slice()) {
            Ok(p) => p,
            Err(e) => return Err(CommandError::ProtocolError(e)),
        };
        let serialized = match packet.serialize() {
            Ok(s) => s,
            Err(e) => return Err(CommandError::ProtocolError(e)),
        };
        match TxPacket::new(serialized.as_slice()) {
            Ok(tx) => Ok(tx),
            Err(e) => Err(CommandError::BufferError(e)),
        }
    }

    /// An Ack response with no payload.
    pub fn build_ack() -> (r: Result<TxPacket, CommandError>)
        ensures
            replies(r, ack_outcome(Seq::empty())),
    {
        Self::new().build(ResponseCode::Ack)
    }

    /// An Error response carrying `error_code`.
    pub fn build_error_code(error_code: u16) -> (r: Result<TxPacket, CommandError>)
        ensures
            replies(r, error_code_outcome(error_code)),
    {
        let mut builder = Self::new();
        match builder.add_u16(error_code) {
            Ok(()) => {},
            Err(e) => return Err(e),
        }
        builder.build(ResponseCode::Error)
    }

    /// An Error response carrying the code of a command error.
    pub fn build_error(error: CommandError) -> (r: Result<TxPacket, CommandError>)
        ensures
            replies(r, error_outcome(error)),
    {
        let error_code: u16 = match error {
            CommandError::UnknownCommand => 0x01,
            CommandError::InvalidPayload => 0x02,
            CommandError::BufferError(_) => 0x03,
            CommandError::ProtocolError(_) => 0x04,
            CommandError::StateError(_) => 0x05,
            CommandError::SoftDeviceError => 0x06,
            CommandError::NotImplemented => 0x07,
        };
        Self::build_error_code(error_code)
    }
}

impl Default for ResponseBuilder {
    fn default() -> (r: Self)
        ensures
            r@ == Seq::<u8>::empty(),
    {
        Self::new()
    }
}

/// Building a response succeeds exactly when the payload leaves room for
/// the six bytes of framing; Ack and Error responses with small payloads
/// always build.
pub proof fn lemma_small_responses_build(code: ResponseCode, payload: Seq<u8>)
    requires
        payload.len() <= MAX_PAYLOAD_SIZE - 6,
    ensures
        build_outcome(code, payload) == Ok::<Seq<u8>, CommandError>(response_frame(code.value(), payload)),
{
}

/// What a command with code `code` and payload `p` does: its next step `r`
/// and the GAP state, registry and modem state after it, from those
/// before.  An unknown code gives `UnknownCommand`; SysAttrGet and the
/// central-role commands are answered with `NotImplemented`.
pub open spec fn command_done(
    code: u16,
    p: Seq<u8>,
    gap0: GapState,
    gap1: GapState,
    reg0: GattRegistry,
    reg1: GattRegistry,
    st0: ModemState,
    st1: ModemState,
    r: CommandStep,
) -> bool {
    let same_gap = gap1 == gap0;
    let same_reg = same_registry(reg1, reg0);
    let same_st = st1.same_as(st0);
    if code == RequestCode::GetInfo.value() {
        answers(r, ack_outcome(be32(FIRMWARE_VERSION_BCD))) && same_gap && same_reg && same_st
    } else if code == RequestCode::Echo.value() {
        answers(r, ack_outcome(p)) && same_gap && same_reg && same_st
    } else if code == RequestCode::Shutdown.value() || code == RequestCode::Reboot.value()
        || code == RequestCode::GapStartRssiReporting.value() || code
        == RequestCode::GapStopRssiReporting.value() {
        answers(r, ack_outcome(Seq::empty())) && same_gap && same_reg && same_st
    } else if code == RequestCode::RegisterUuidGroup.value() {
        (r matches CommandStep::Reply(res) && register_uuid_group_done(p, st0, st1, res))
            && same_gap && same_reg
    } else if code == RequestCode::GapGetAddr.value() {
        r == CommandStep::Call(SdRequest::GetAddress) && same_gap && same_reg && same_st
    } else if code == RequestCode::GapSetAddr.value() {
        set_addr_step(p, r) && same_gap && same_reg && same_st
    } else if code == RequestCode::GapAdvStart.value() {
        adv_start_step(p, r) && same_gap && same_reg && same_st
    } else if code == RequestCode::GapAdvStop.value() {
        adv_stop_step(p, r) && same_gap && same_reg && same_st
    } else if code == RequestCode::GapAdvSetConfigure.value() {
        adv_configure_done(p, gap0, gap1, r) && same_reg && same_st
    } else if code == RequestCode::GapGetName.value() {
        answers(r, get_name_outcome(p, gap0)) && same_gap && same_reg && same_st
    } else if code == RequestCode::GapSetName.value() {
        set_name_step(p, r) && same_gap && same_reg && same_st
    } else if code == RequestCode::GapConnParamsGet.value() {
        r == CommandStep::Call(SdRequest::PpcpGet) && same_gap && same_reg && same_st
    } else if code == RequestCode::GapConnParamsSet.value() {
        conn_params_set_step(p, r) && same_gap && same_reg && same_st
    } else if code == RequestCode::GapConnParamUpdate.value() {
        conn_param_update_step(p, r) && same_gap && same_reg && same_st
    } else if code == RequestCode::GapDataLengthUpdate.value() {
        data_length_update_step(p, r) && same_gap && same_reg && same_st
    } else if code == RequestCode::GapPhyUpdate.value() {
        phy_update_step(p, r) && same_gap && same_reg && same_st
    } else if code == RequestCode::GapDisconnect.value() {
        disconnect_step(p, r) && same_gap && same_reg && same_st
    } else if code == RequestCode::GapSetTxPower.value() {
        set_tx_power_step(p, r) && same_gap && same_reg && same_st
    } else if code == RequestCode::GattsServiceAdd.value() {
        (r matches CommandStep::Reply(res) && service_add_done(p, reg0, reg1, res)) && same_gap
            && same_st
    } else if code == RequestCode::GattsCharacteristicAdd.value() {
        (r matches CommandStep::Reply(res) && characteristic_add_done(p, reg0, reg1, res))
            && same_gap && same_st
    } else if code == RequestCode::GattsMtuReply.value() {
        answers(
            r,
            if p.len() >= 4 {
                ack_outcome(Seq::empty())
            } else {
                invalid_payload()
            },
        ) && same_gap && same_reg && same_st
    } else if code == RequestCode::GattsHvx.value() {
        answers(
            r,
            if hvx_valid(p) {
                ack_outcome(Seq::empty())
            } else {
                invalid_payload()
            },
        ) && same_gap && same_reg && same_st
    } else if code == RequestCode::GattsSysAttrSet.value() {
        answers(
            r,
            if sys_attr_valid(p) {
                ack_outcome(Seq::empty())
            } else {
                invalid_payload()
            },
        ) && same_gap && same_reg && same_st
    } else if exists|c: RequestCode| c.value() == code {
        answers(r, error_outcome(CommandError::NotImplemented)) && same_gap && same_reg && same_st
    } else {
        r == CommandStep::Reply(Err(CommandError::UnknownCommand)) && same_gap && same_reg && same_st
    }
}

/// The GATT operations are reached by their documented wire codes: a
/// command with code 0x0010 registers a UUID base (REGISTER_UUID_GROUP),
/// 0x0080 adds a service (GATTS_SERVICE_ADD), 0x0081 adds a
/// characteristic (GATTS_CHARACTERISTIC_ADD) and 0x0083 sends a
/// notification or indication (GATTS_HVX), whatever the payload; and no
/// other request code has those wire values.
pub proof fn lemma_gatt_wire_codes(
    p: Seq<u8>,
    gap0: GapState,
    gap1: GapState,
    reg0: GattRegistry,
    reg1: GattRegistry,
    st0: ModemState,
    st1: ModemState,
    r: CommandStep,
)
    ensures
        command_done(0x0010, p, gap0, gap1, reg0, reg1, st0, st1, r) ==> (r matches CommandStep::Reply(
            res,
        ) && register_uuid_group_done(p, st0, st1, res)) && same_registry(reg1, reg0),
        command_done(0x0080, p, gap0, gap1, reg0, reg1, st0, st1, r) ==> (r matches CommandStep::Reply(
            res,
        ) && service_add_done(p, reg0, reg1, res)) && gap1 == gap0 && st1.same_as(st0),
        command_done(0x0081, p, gap0, gap1, reg0, reg1, st0, st1, r) ==> (r matches CommandStep::Reply(
            res,
        ) && characteristic_add_done(p, reg0, reg1, res)) && gap1 == gap0 && st1.same_as(st0),
        command_done(0x0083, p, gap0, gap1, reg0, reg1, st0, st1, r) ==> answers(
            r,
            if hvx_valid(p) {
                ack_outcome(Seq::empty())
            } else {
                invalid_payload()
            },
        ),
        forall|c: RequestCode|
            #![trigger c.value()]
            (c.value() == 0x0010 <==> c == RequestCode::RegisterUuidGroup) && (c.value() == 0x0080
                <==> c == RequestCode::GattsServiceAdd) && (c.value() == 0x0081 <==> c
                == RequestCode::GattsCharacteristicAdd) && (c.value() == 0x0083 <==> c
                == RequestCode::GattsHvx),
{
}

/// Route a command to its handler.
pub fn process_command(
    packet: &Packet,
    gap: &mut GapState,
    registry: &mut GattRegistry,
    state: &mut ModemState,
) -> (r: CommandStep)
    requires
        packet.code == RequestCode::GapGetName.value() ==> old(gap).device_name_len
            <= MAX_DEVICE_NAME_LEN,
    ensures
        command_done(
            packet.code,
            packet.payload@,
            *old(gap),
            *final(gap),
            *old(registry),
            *final(registry),
            *old(state),
            *final(state),
            r,
        ),
{
    let request_code = match packet.request_code() {
        Some(c) => c,
        None => return CommandStep::Reply(Err(CommandError::UnknownCommand)),
    };
    let payload = packet.payload.as_slice();
    match request_code {
        RequestCode::GetInfo => CommandStep::Reply(system::handle_get_info(payload)),
        RequestCode::Echo => CommandStep::Reply(system::handle_echo(payload)),
        RequestCode::Shutdown => CommandStep::Reply(system::handle_shutdown(payload)),
        RequestCode::Reboot => CommandStep::Reply(system::handle_reboot(payload)),
        RequestCode::RegisterUuidGroup => CommandStep::Reply(
            uuid::handle_register_uuid_group(payload, state),
        ),
        RequestCode::GapGetAddr => gap::handle_get_addr(payload),
        RequestCode::GapSetAddr => gap::handle_set_addr(payload),
        RequestCode::GapAdvStart => gap::handle_adv_start(payload),
        RequestCode::GapAdvStop => gap::handle_adv_stop(payload),
        RequestCode::GapAdvSetConfigure => gap::handle_adv_configure(payload, gap),
        RequestCode::GapGetName => CommandStep::Reply(gap::handle_get_name(payload, gap)),
        RequestCode::GapSetName => gap::handle_set_name(payload),
        RequestCode::GapConnParamsGet => gap::handle_conn_params_get(payload),
        RequestCode::GapConnParamsSet => gap::handle_conn_params_set(payload),
        RequestCode::GapConnParamUpdate => gap::handle_conn_param_update(payload),
        RequestCode::GapDataLengthUpdate => gap::handle_data_length_update(payload),
        RequestCode::GapPhyUpdate => gap::handle_phy_update(payload),
        RequestCode::GapDisconnect => gap::handle_disconnect(payload),
        RequestCode::GapSetTxPower => gap::handle_set_tx_power(payload),
        RequestCode::GapStartRssiReporting => CommandStep::Reply(
            gap::handle_start_rssi_reporting(payload),
        ),
        RequestCode::GapStopRssiReporting => CommandStep::Reply(
            gap::handle_stop_rssi_reporting(payload),
        ),
        RequestCode::GattsServiceAdd => CommandStep::Reply(
            gatts::handle_service_add(payload, registry),
        ),
        RequestCode::GattsCharacteristicAdd => CommandStep::Reply(
            gatts::handle_characteristic_add(payload, registry),
        ),
        RequestCode::GattsMtuReply => CommandStep::Reply(gatts::handle_mtu_reply(payload)),
        RequestCode::GattsHvx => CommandStep::Reply(gatts::handle_hvx(payload)),
        RequestCode::GattsSysAttrGet => CommandStep::Reply(
            ResponseBuilder::build_error(CommandError::NotImplemented),
        ),
        RequestCode::GattsSysAttrSet => CommandStep::Reply(gatts::handle_sys_attr_set(payload)),
        RequestCode::GapConnect
        | RequestCode::GapConnectCancel
        | RequestCode::GapScanStart
        | RequestCode::GapScanStop
        | RequestCode::GattcMtuRequest
        | RequestCode::GattcServiceDiscover
        | RequestCode::GattcCharacteristicsDiscover
        | RequestCode::GattcDescriptorsDiscover
        | RequestCode::GattcRead
        | RequestCode::GattcWrite => CommandStep::Reply(
            ResponseBuilder::build_error(CommandError::NotImplemented),
        ),
    }
}

/// What is sent to the host for a command's result: its response, or for
/// an error an Error response with code 0x01.
pub fn packet_to_send(result: Result<TxPacket, CommandError>) -> (r: Option<TxPacket>)
    ensures
        result matches Ok(p) ==> r == Some(p),
        result is Err ==> (r matches Some(p) && p@ == response_frame(
            ResponseCode::Error.value(),
            be16(CommandError::UnknownCommand.code()),
        )),
{
    match result {
        Ok(p) => Some(p),
        Err(_) => match ResponseBuilder::build_error(CommandError::UnknownCommand) {
            Ok(p) => Some(p),
            Err(_) => None,
        },
    }
}

/// Command processor.
pub struct CommandProcessor {}

impl CommandProcessor {
    /// A command processor.
    pub fn new() -> (r: Self) {
        Self {}
    }

    /// Route a command to its handler, as [`process_command`].
    pub fn process_command(
        &mut self,
        packet: &Packet,
        gap: &mut GapState,
        registry: &mut GattRegistry,
        state: &mut ModemState,
    ) -> (r: CommandStep)
        requires
            packet.code == RequestCode::GapGetName.value() ==> old(gap).device_name_len
                <= MAX_DEVICE_NAME_LEN,
        ensures
            command_done(
                packet.code,
                packet.payload@,
                *old(gap),
                *final(gap),
                *old(registry),
                *final(registry),
                *old(state),
                *final(state),
                r,
            ),
    {
        process_command(packet, gap, registry, state)
    }
}

} // verus!

pub mod system;
pub mod uuid;
pub mod gatts;
pub mod gap;
