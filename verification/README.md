# hyper_server

The decisions of an HTTP server built on hyper, stated as contracts and
proved with Verus: which accept errors end a stream of connections, when a
server stops accepting and when it returns, how a handle counts connections
and announces their end during a graceful shutdown, how the TLS and PROXY
protocol accept futures move through their stages, and how HTTP/1 and HTTP/2
settings are recorded and applied to a `hyper_util` builder.

- `src/` is the verified library, one module per concern: `error`,
  `incoming`, `addr_incoming`, `addr_incoming_config`, `accept`,
  `accept_future`, `handle`, `serve`, `server`, `http_config`, `pem` and
  `composite`.
- `app/` is the asynchronous code around it (tokio tasks, sockets, TLS
  streams, hyper connections), which feeds each event to the library and
  performs the action it returns.
- `tests/` exercises the library on concrete values.
