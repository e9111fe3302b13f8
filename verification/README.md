# ezsockets

WebSocket client and server building blocks, with their rules proved in
Verus.

- `src/` is the verified library: close codes and their wire numbers,
  messages and their raw form, delivery signals, the heartbeat decision and
  its ping payload, the client configuration (headers through `http`,
  credentials through `base64`, URLs through `url`), the client's
  connection loop, and the decisions of the client, session and server
  actors (including graceful shutdown).
- `tests/` runs the library on concrete values.
- `app/` is the runtime around it: tokio tasks for sockets, clients,
  sessions and the server, the tokio-tungstenite connector and server
  runner. It calls the library for every decision.
