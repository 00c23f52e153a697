# nrf70

Host driver logic for the nRF70 Wi-Fi companion chip (the RPU), verified
with Verus.

- `src/` is the verified library: the firmware patch bundle parser (`fw`),
  the RPU memory map and address translation (`regions`, `access`), the
  buffer layout of the packet RAM (`config`), booting and status polling
  (`boot`), queues, events and commands (`rpu`, `messages`, `exchange`),
  SPI framing (`bus`) and little-endian word/byte conversions (`bytes`).
- `app/` is the asynchronous driver around it: the SPI bus, pins, timers
  and the network channel.
- `tests/` exercises the library on concrete values.

The firmware bundle itself is not part of the crate: `app::new` takes it as
an argument.
