//! Framing, buffers and transport errors.
pub mod protocol;
pub mod memory;
pub mod transport;
