# nrf52820_s140_firmware

Firmware for an nRF52820 running the S140 SoftDevice as a BLE modem: a host
sends framed commands over one SPI link and reads responses and BLE events
on another.

- `src/` is the verified library: frame encoding and decoding (CRC-16 from
  the `crc` crate), the command dispatcher and every command handler, the
  GAP, GATT and connection state, bonding storage, the advertising
  controller and the decisions of the tasks. Fixed-capacity storage comes
  from `heapless`, wrapped in `src/collections.rs`.
- `app/` is the firmware around it: `main`, the SPI tasks, the channels and
  mutexes, the SoftDevice calls, and the loops that feed the library's
  decisions with what the SoftDevice reports.
- `tests/` exercises the library on concrete inputs.

Commands that need the SoftDevice are handled in two steps: the handler
checks the payload and names the call (`SdRequest`); once `app/` has made
it, a `finish_` function builds the answer from the call's result.
