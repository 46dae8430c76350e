# dsf_client

A client library for the DSF (distributed service framework) daemon, verified
with Verus.

- `src/` is the verified library: the bookkeeping of requests in flight on the
  daemon socket (`client.rs`, and the message-driven variant in `actor.rs`),
  what each client operation makes of the daemon's answer (`reply.rs`,
  `client.rs`), the client's errors (`error.rs`), the tables that present
  peers and services (`report.rs`), and properties that span operations
  (`laws.rs`). `types.rs` declares the daemon protocol's types that the
  library carries through.
- `app/` holds the socket, the tasks and waits, and the command line program.
- `tests/` exercises the library.
