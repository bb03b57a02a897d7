# webclient

A websocket client whose decisions are verified with Verus.

- `src/ws/wsclient.rs`: the connection state (`WsClient`), sending frames over the
  outgoing channel, what each incoming message leads to, the reconnection monitor,
  the network probe and its reachability check, and connect timeouts.
- `src/command.rs`: the table of commands waiting for an answer (`PendingTable`, kept
  in a `dashmap::DashMap`), event ids, and sending indications, answers and commands.
- `src/error.rs`: the connector and client errors and their texts.
- `src/laws.rs`: properties proved across operations.
- `app/`: the tokio runtime, the socket task, message encoding with `webproto`, and a
  demonstration program.
