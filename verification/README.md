# zweidraehte-device

The device side of a KNX stack, written in Verus: executable Rust whose
behaviour is stated in `requires` / `ensures` contracts and proved.

## Layout

- `src/objects/tables/` — the loadable tables: their memory, the load state
  machine that governs a download, the allocation records it accepts, the
  run state machine of an application program, the address, association
  and group object table formats, group object types and flags, and the
  laws that tie them together (`laws.rs`).
- `src/objects/interface/` — property buffers, descriptors and access
  rules, the table interface objects and the program objects.
- `src/objects/comm.rs` — communication object status and storage.
- `src/layers/network.rs` — the network layer, with its FIFO of
  outstanding requests kept in a `heapless::Deque`.
- `src/layers/linklayers/usb/` — a USB interface as link layer: request
  framing, property interpretation and the handling of frames between the
  network layer and the interface.
- `src/security.rs` — Data Secure sequence numbers and the durable replay
  rule.
- `src/address.rs`, `src/lifecycle.rs`, `src/persist.rs`, `src/memory.rs` —
  addresses, lifecycle and persistence events, memory maps.
- `app/` — the HID device plumbing around the library (not verified).
- `tests/` — tests run against the compiled library.
