//! Host-controlled BLE modem: the protocol, command handling and BLE state
//! logic of an nRF52820 modem firmware.
pub mod collections;
pub mod modem_core;
pub mod ble;
pub mod commands;
pub mod advertising;
pub mod services;
pub mod protocol;
pub mod spi_comm;
