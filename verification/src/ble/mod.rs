//! BLE state and logic: GAP state, the GATT registry, connections, bonding,
//! events and notifications.
pub mod gap_state;
pub mod registry;
pub mod gatt_state;
pub mod connection;
pub mod bonding;
pub mod events;
pub mod manager;
pub mod notifications;
pub mod dynamic;
