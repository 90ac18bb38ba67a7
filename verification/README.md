# barrier_client

A client for the Barrier/Synergy keyboard-and-mouse sharing protocol, with
the conversion of Synergy input events into USB HID reports. The library in
`src/` is verified with Verus; `app/` holds the parts that talk to the world.

## Layout

- `src/keycodes.rs`, `src/reports.rs`, `src/synergy_hid.rs`,
  `src/descriptors.rs`: Synergy key identifiers and mouse buttons to HID
  usages; the keyboard, absolute pointer and consumer control reports and
  their descriptors; `SynergyHid`, which turns input events into report
  bytes. `src/hid_laws.rs` proves what holds across events (a key pressed and
  released leaves the report as it was, no key takes two slots, a 9-byte
  buffer holds every report).
- `src/wire.rs`, `src/packet.rs`, `src/packet_stream.rs`: the packet format,
  the bytes a client writes, and the decoding of packet bodies, including the
  staged transfer of clipboard data (`src/clipboard.rs`) and the screen
  options a server sets (`src/options.rs`, a map kept as a list of distinct
  names).
  `src/packet_laws.rs` proves that what the client writes reads back.
- `src/session.rs`: the greeting, the action a client takes for each server
  packet, and how a session ends; `src/actuator.rs`: the requests it passes to an actuator.
- `src/transport.rs`, `src/config.rs`: serial bridge frames, gadget report
  bodies, serial port selection, program settings.
- `app/`: the asynchronous actuator interface, packet input/output over
  tokio, the session loop over TCP, the mapping of screen positions onto the
  pointer range (computed in `f32`, `app/hid_cursor.rs`), and three
  actuators (USB HID gadget, serial bridge, logging only).
