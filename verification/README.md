# nbd

A Network Block Device (NBD) protocol library, written in Verus.

- `src/value.rs`: the protocol's constants, each with its wire number.
- `src/wire.rs`: big-endian encodings as byte sequences, and their lemmas.
- `src/buffer.rs`: the `bytes` crate operations the library calls, with
  their (trusted) contracts.
- `src/handshake/`: option requests (serialization and decoding), option
  replies and `NBD_REP_INFO` items.
- `src/transmission/`: requests and simple replies.
- `src/server.rs`: what a server decides on an in-memory export: the
  greeting, the client-flag check, each step of option haggling (replies and
  next phase) and the effect and reply of each request.
- `app/`: a TCP server on port 10809 that drives the library with tokio.
