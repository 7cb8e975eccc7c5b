//! System commands: firmware information, echo, shutdown and reboot.
use vstd::prelude::*;

use crate::commands::{ack_outcome, replies, CommandError, ResponseBuilder};
use crate::modem_core::memory::TxPacket;
use crate::modem_core::protocol::{be32, ResponseCode};

verus! {

/// Firmware version in BCD: 1.0.0.0.
pub const FIRMWARE_VERSION_BCD: u32 = 0x00010000;

/// GET_INFO: an Ack carrying the firmware version, big-endian.
pub fn handle_get_info(_payload: &[u8]) -> (r: Result<TxPacket, CommandError>)
    ensures
        replies(r, ack_outcome(be32(FIRMWARE_VERSION_BCD))),
{
    let mut response = ResponseBuilder::new();
    match response.add_u32(FIRMWARE_VERSION_BCD) {
        Ok(()) => {},
        Err(e) => return Err(e),
    }
    response.build(ResponseCode::Ack)
}

/// ECHO: an Ack carrying the request payload.
pub fn handle_echo(payload: &[u8]) -> (r: Result<TxPacket, CommandError>)
    ensures
        replies(r, ack_outcome(payload@)),
{
    let mut response = ResponseBuilder::new();
    match response.add_slice(payload) {
        Ok(()) => {},
        Err(e) => return Err(e),
    }
    response.build(ResponseCode::Ack)
}

/// SHUTDOWN: acknowledged; powering down is left to the platform.
pub fn handle_shutdown(_payload: &[u8]) -> (r: Result<TxPacket, CommandError>)
    ensures
        replies(r, ack_outcome(Seq::empty())),
{
    ResponseBuilder::build_ack()
}

/// REBOOT: acknowledged; the reset is left to the platform.
pub fn handle_reboot(_payload: &[u8]) -> (r: Result<TxPacket, CommandError>)
    ensures
        replies(r, ack_outcome(Seq::empty())),
{
    ResponseBuilder::build_ack()
}

} // verus!
