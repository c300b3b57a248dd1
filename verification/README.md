# tokio_jrpc

A JSON-RPC 2.0 client and server over newline-delimited JSON, split in two:

- `src/` is the protocol core, verified with Verus: the message types, the
  error codes and their integer encoding, the fixed error answers, the shaping
  of call parameters, the handler registry, and the engine that decides, for
  each line read and each message queued, what is answered, which handler runs,
  which waiting request is completed and what is written. `src/laws.rs` and the
  lemmas next to the types state what holds across steps.
- `app/` is the asynchronous shell around it: the transport, the tokio
  channels, the spawning of handlers, and the serde forms of the messages.
