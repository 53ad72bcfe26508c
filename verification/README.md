# bee

Verified pieces of an IOTA node, in Verus.

- `src/message`: the milestone request message and its byte layout (header, big-endian index),
  with round-trip laws.
- `src/protocol`: the protocol's counters (`ProtocolMetrics`) with laws on increments, and the
  decisions of the protocol helpers (which request goes to which worker).
- `src/worker`: the per-tick decisions of the kickstart workers and the TPS computation.
- `src/snapshot`: the local snapshot configuration and its builder, and the snapshot errors.
- `src/ternary`: the binary representations of 384-bit integers.
- `src/dashboard`: the dashboard's message types, websocket reactions, asset names and the
  database size reading.
- `app/`: the dashboard web server, the MQTT publisher, JSON messages, channels and timers that
  run the library's decisions.
