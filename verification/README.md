# wasm_socket_handle

A handle to a websocket that sends commands to, and receives messages from,
a socket manager through two tokio channels. The library is written in Verus:
each operation carries a contract that Verus proves.

- `src/message.rs`: `WsMessage`, its conversions and their model.
- `src/error.rs`: `WsError` and its model.
- `src/handle.rs`: `WsHandle`; what it hands to the command channel and what
  it answers.
- `src/manager.rs`: the manager's decisions on each command and socket event,
  and the stand-in used where no browser socket exists.
- `src/channel.rs`, `src/convert.rs`: what the library takes on trust from
  tokio and std.
- `src/laws.rs`: properties that relate the operations.
- `app/`: the `Sink`/`Stream` impls, an error type with `std::error::Error`,
  and the browser manager.
