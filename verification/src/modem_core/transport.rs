//! SPI transport: errors and the decisions of the receive path.
//!
//! TX SPI (SPIM0, master) carries device-to-host frames; RX SPI (SPIS1,
//! slave) carries host-to-device frames.  The SPI drivers and channels live
//! with the firmware; this module decides what a completed receive turns
//! into.
use vstd::prelude::*;
use vstd::slice::slice_subrange;

use crate::modem_core::memory::BufferError;
use crate::modem_core::protocol::{parse_request, Packet, ProtocolError};

verus! {

/// SPI communication errors.
#[derive(Debug, Clone, Copy, PartialEq, Eq)]
pub enum SpiError {
    /// TX SPI transfer failed
    TxTransferFailed,
    /// RX SPI transfer failed
    RxTransferFailed,
    /// Buffer error
    BufferError(BufferError),
    /// Protocol error
    ProtocolError(ProtocolError),
    /// Timeout occurred
    Timeout,
    /// SPI not ready
    NotReady,
}

impl From<BufferError> for SpiError {
    fn from(err: BufferError) -> (r: Self) {
        SpiError::BufferError(err)
    }
}

impl vstd::std_specs::convert::FromSpecImpl<BufferError> for SpiError {
    open spec fn obeys_from_spec() -> bool {
        true
    }

    open spec fn from_spec(err: BufferError) -> SpiError {
        SpiError::BufferError(err)
    }
}

impl From<ProtocolError> for SpiError {
    fn from(err: ProtocolError) -> (r: Self) {
        SpiError::ProtocolError(err)
    }
}

impl vstd::std_specs::convert::FromSpecImpl<ProtocolError> for SpiError {
    open spec fn obeys_from_spec() -> bool {
        true
    }

    open spec fn from_spec(err: ProtocolError) -> SpiError {
        SpiError::ProtocolError(err)
    }
}

/// What one completed RX transfer turns into.
#[derive(Debug)]
pub enum RxOutcome {
    /// The host clocked no bytes: nothing to do.
    Empty,
    /// A valid request, to be handed to the command processor.
    Command(Packet),
    /// A frame that failed to decode, and why; it is dropped.
    Invalid(ProtocolError),
}

/// Decide what the first `rx_len` bytes of the receive buffer are: nothing,
/// a request packet, or an invalid frame.
pub fn process_rx_transfer(rx_buffer: &[u8], rx_len: usize) -> (r: RxOutcome)
    requires
        rx_len <= rx_buffer@.len(),
    ensures
        rx_len == 0 <==> r is Empty,
        r matches RxOutcome::Command(p) ==> parse_request(rx_buffer@.subrange(0, rx_len as int))
            == Ok::<(u16, Seq<u8>), ProtocolError>((p.code, p.payload@)),
        r matches RxOutcome::Invalid(e) ==> parse_request(rx_buffer@.subrange(0, rx_len as int))
            == Err::<(u16, Seq<u8>), ProtocolError>(e),
{
    if rx_len == 0 {
        return RxOutcome::Empty;
    }
    match Packet::new_request(slice_subrange(rx_buffer, 0, rx_len)) {
        Ok(packet) => RxOutcome::Command(packet),
        Err(e) => RxOutcome::Invalid(e),
    }
}

} // verus!
