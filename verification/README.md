# rusido

A small WebSocket service library: a server that admits clients by access
token, keeps a bounded table of live connections, routes binary requests to
handlers by command number and frames the replies, and a client that
reconnects a limited number of times.

- `src/` holds the verified library: the wire format (`header_parser`,
  `frame`), the connection table and its event handling (`manager`), the
  command table (`router`), the handshake decision (`server`, `connection`)
  and the client's loop decisions (`client`).
- `app/` holds the asynchronous I/O that drives them: sockets, channels,
  spawned tasks and timers.
- `tests/` exercises the library on concrete values.
