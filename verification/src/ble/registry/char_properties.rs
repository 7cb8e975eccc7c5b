//! Characteristic property bits (BLE specification).
use vstd::prelude::*;

verus! {

pub const BROADCAST: u8 = 0x01;
pub const READ: u8 = 0x02;
pub const WRITE_WITHOUT_RESPONSE: u8 = 0x04;
pub const WRITE: u8 = 0x08;
pub const NOTIFY: u8 = 0x10;
pub const INDICATE: u8 = 0x20;
pub const AUTH_SIGNED_WRITES: u8 = 0x40;
pub const EXTENDED_PROPERTIES: u8 = 0x80;

} // verus!
