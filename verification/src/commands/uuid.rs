//! UUID management: registering 128-bit vendor UUID bases.
use vstd::prelude::*;

use crate::ble::gatt_state::{ModemState, StateError};
use crate::ble::registry::uuid_with_offset;
use crate::commands::{ack_outcome, error_code_outcome, replies, CommandError, ResponseBuilder};
use crate::modem_core::memory::TxPacket;
use crate::modem_core::protocol::ResponseCode;

verus! {

/// The error code sent for a UUID base payload that is not 16 bytes.
pub const INVALID_UUID_LENGTH: u16 = 0x01;

/// A copy of a 16-byte slice as an array.
fn to_array16(data: &[u8]) -> (r: [u8; 16])
    requires
        data@.len() == 16,
    ensures
        r@ == data@,
{
    let mut out = [0u8; 16];
    let mut i: usize = 0;
    while i < 16
        invariant
            i <= 16,
            data@.len() == 16,
            forall|j: int| 0 <= j < i ==> out@[j] == data@[j],
        decreases 16 - i,
    {
        out[i] = data[i];
        i = i + 1;
    }
    assert(out@ =~= data@);
    out
}

/// What REGISTER_UUID_GROUP does with payload `p`: its answer `r` and the
/// state `after`, from the state `before`.
pub open spec fn register_uuid_group_done(
    p: Seq<u8>,
    before: ModemState,
    after: ModemState,
    r: Result<TxPacket, CommandError>,
) -> bool {
    &&& (p.len() != 16 ==> replies(r, error_code_outcome(INVALID_UUID_LENGTH)) && after.same_as(before))
    &&& (p.len() == 16 && before.spec_uuid_bases().len() < 4 ==> {
            let h = before.spec_uuid_bases().len() as u8;
            &&& replies(r, ack_outcome(seq![h]))
            &&& after.spec_uuid_bases().len() == before.spec_uuid_bases().len() + 1
            &&& after.spec_uuid_bases().last().base@ == p
            &&& after.spec_uuid_bases().last().handle == h
            &&& after.spec_uuid_bases().drop_last() == before.spec_uuid_bases()
        })
    &&& (p.len() == 16 && before.spec_uuid_bases().len() >= 4 ==> (r matches Err(e) && e == CommandError::StateError(StateError::UuidBasesExhausted)) && after.same_as(before))
    &&& (after.spec_services() == before.spec_services())
    &&& (after.spec_characteristics() == before.spec_characteristics())
    &&& (after.spec_char_map() == before.spec_char_map())
    &&& (after.spec_connection() == before.spec_connection())
    &&& (after.spec_advertising_state() == before.spec_advertising_state())
    &&& (after.spec_config() == before.spec_config())
}

/// REGISTER_UUID_GROUP: register the 16-byte payload as a UUID base and
/// answer with its handle.  A payload of another length is answered with
/// error code 0x01; when all bases are taken the result is
/// `StateError(UuidBasesExhausted)`.
pub fn handle_register_uuid_group(payload: &[u8], state: &mut ModemState) -> (r: Result<TxPacket, CommandError>)
    ensures
        register_uuid_group_done(payload@, *old(state), *final(state), r),
{
    if payload.len() != 16 {
        return ResponseBuilder::build_error_code(INVALID_UUID_LENGTH);
    }
    let uuid_base = to_array16(payload);
    let handle = match state.register_uuid_base(uuid_base) {
        Ok(h) => h,
        Err(e) => return Err(CommandError::StateError(e)),
    };
    proof {
        assert(state.spec_uuid_bases().drop_last() =~= old(state).spec_uuid_bases());
    }
    let mut response = ResponseBuilder::new();
    match response.add_u8(handle) {
        Ok(()) => {},
        Err(e) => return Err(e),
    }
    response.build(ResponseCode::Ack)
}

/// A UUID base in the form the SoftDevice takes: stored as received.
pub fn uuid_base_to_softdevice_format(uuid_base: &[u8; 16]) -> (r: [u8; 16])
    ensures
        r == *uuid_base,
{
    *uuid_base
}

/// The UUID base with the given handle, in SoftDevice form, if registered.
pub fn get_uuid_base_for_softdevice(state: &ModemState, handle: u8) -> (r: Option<[u8; 16]>)
    ensures
        r is Some <==> handle < state.spec_uuid_bases().len(),
        r matches Some(b) ==> b == state.spec_uuid_bases()[handle as int].base,
{
    match state.get_uuid_base(handle) {
        Some(base) => Some(uuid_base_to_softdevice_format(&base.base)),
        None => None,
    }
}

/// A 128-bit UUID from a base with the 16-bit offset written,
/// little-endian, at bytes 12 and 13.
pub fn create_uuid_from_base_and_offset(uuid_base: &[u8; 16], offset: u16) -> (r: [u8; 16])
    ensures
        r@ == uuid_with_offset(uuid_base@, offset),
{
    let mut result = *uuid_base;
    result[12] = (offset % 256) as u8;
    result[13] = (offset / 256) as u8;
    result
}

} // verus!
