//! SPI transport for the unframed protocol: errors and the decisions of the
//! receive path.
use vstd::prelude::*;
use vstd::slice::slice_subrange;

use crate::modem_core::memory::BufferError;
use crate::protocol::{Packet, ProtocolError};

verus! {


/// SPI communication errors.
#[derive(Debug, Clone, Copy, PartialEq, Eq)]
pub enum SpiError {
    /// TX SPI transfer failed
    TxTransferFailed,
    /// RX SPI transfer failed
    RxTransferFailed,
    /// Buffer error
    BufferError(BufferError),
    /// Protocol error
    ProtocolError(ProtocolError),
    /// Timeout occurred
    Timeout,
    /// SPI not ready
    NotReady,
}

impl From<BufferError> for SpiError {
    fn from(err: BufferError) -> (r: Self) {
        SpiError::BufferError(err)
    }
}

impl vstd::std_specs::convert::FromSpecImpl<BufferError> for SpiError {
    open spec fn obeys_from_spec() -> bool {
        true
    }

    open spec fn from_spec(err: BufferError) -> SpiError {
        SpiError::BufferError(err)
    }
}

impl From<ProtocolError> for SpiError {
    fn from(err: ProtocolError) -> (r: Self) {
        SpiError::ProtocolError(err)
    }
}

impl vstd::std_specs::convert::FromSpecImpl<ProtocolError> for SpiError {
    open spec fn obeys_from_spec() -> bool {
        true
    }

    open spec fn from_spec(err: ProtocolError) -> SpiError {
        SpiError::ProtocolError(err)
    }
}

/// What one completed RX transfer turns into.
#[derive(Debug)]
pub enum RxOutcome {
    /// The host clocked no bytes: nothing to do.
    Empty,
    /// A request, to be handed to the command processor.
    Command(Packet),
    /// Bytes that do not make a request, and why; they are dropped.
    Invalid(ProtocolError),
}

/// Decide what the first `rx_len` bytes of the receive buffer are: nothing,
/// a request packet (`[payload][code:2]`), or an invalid frame.
pub fn process_rx_transfer(rx_buffer: &[u8], rx_len: usize) -> (r: RxOutcome)
    requires
        rx_len <= rx_buffer@.len(),
    ensures
        rx_len == 0 <==> r is Empty,
        rx_len == 1 ==> r == RxOutcome::Invalid(ProtocolError::InvalidLength),
        rx_len >= 2 && rx_len - 2 > crate::protocol::MAX_PAYLOAD_SIZE ==> r == RxOutcome::Invalid(
            ProtocolError::BufferFull,
        ),
        r matches RxOutcome::Command(p) ==> p.payload@ == rx_buffer@.subrange(0, rx_len - 2)
            && crate::modem_core::protocol::be16(p.code) == rx_buffer@.subrange(
            rx_len - 2,
            rx_len as int,
        ),
        rx_len >= 2 && rx_len - 2 <= crate::protocol::MAX_PAYLOAD_SIZE ==> r is Command,
{
    if rx_len == 0 {
        return RxOutcome::Empty;
    }
    let data = slice_subrange(rx_buffer, 0, rx_len);
    proof {
        if rx_len >= 2 {
            assert(data@.subrange(0, rx_len - 2) =~= rx_buffer@.subrange(0, rx_len - 2));
            assert(data@.subrange(rx_len - 2, rx_len as int) =~= rx_buffer@.subrange(
                rx_len - 2,
                rx_len as int,
            ));
        }
    }
    match Packet::new_request(data) {
        Ok(packet) => RxOutcome::Command(packet),
        Err(e) => RxOutcome::Invalid(e),
    }
}

} // verus!
