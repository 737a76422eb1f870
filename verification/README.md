# ping_fake_device

A simulated Blue Robotics sonar (Ping1D or Ping360) behind a byte stream,
verified with Verus.

- `src/message.rs`, `src/codec.rs`, `src/payload.rs`: messages of the Ping
  protocol, their frames on the wire, and the payloads that the device uses.
- `src/run_loop.rs`: what the device does on each message.
- `src/noise.rs`, `src/echo.rs`: the echoes that it streams.
- `src/stream.rs`: the byte stream, poll by poll.
- `app/`: the asynchronous stream, the timers, and the floating-point shape of the
  echoes.

`message.rs`, `codec.rs`, `payload.rs` and `noise.rs` hold the calls into
`bluerobotics-ping`, `bytes` (through `actix-web`) and `rand`, each behind a
function whose contract is trusted.
