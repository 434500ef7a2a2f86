# beacon_pulse

The verified core of the Beacon (host) and Pulse (player) LAN screen-sharing
service.

- `src/` is the library, written in Verus: colour conversion for the video
  encoders, pairing-code authentication, the command-line front ends, the
  capture-backend rules and health bookkeeping, the decisions of the host's
  capture-and-encode loop (`stream`) and of the UI command bridge
  (`bridge`), pipeline metrics, settings and registry records. Each public
  function carries a contract and the laws of the library are public proof
  functions.
- `tests/` runs the library on concrete values.
- `app/` is ordinary Rust around it: the OpenH264 encoder, terminals, files,
  sockets and processes, serde forms of the library's types, floating-point
  layout and statistics, and the drivers that carry out the actions the
  stream loop and the bridge decide.
