# xim_protocol

A sans-I/O client side of the X Input Method (XIM) protocol, written in
Verus: every function of the library carries a contract, and Verus proves
each body against it, except for a few small trusted wrappers (marked
`#[verifier::external_body]`) that call `bytemuck` and `x11rb_protocol`;
their contracts are taken on trust, and each one's doc comment names the
outside function it calls and what it is trusted to do.

Layout:

- `src/frame.rs` — fixed-width words on the wire, in the byte order of the
  running machine (`vstd::endian::endianness`); parsing an encoded frame
  gives it back.
- `src/message.rs` — carrying a serialized frame in a `ClientMessage`
  event, inline when it fits in twenty bytes and through a window property
  otherwise; `lemma_message_round_trip` proves that what is sent is what is
  read back.
- `src/connection/` — the address of an input method server and the
  handshake that finds and connects to one, as a state machine that hands
  out directives and takes their completions; every step keeps the machine
  well formed, and `lemma_handshake_completes` proves that a server that
  answers as it should leads, step by step, to a built connection.
- `src/protocol.rs` — the frames the handshake sends and reads.
- `src/xproto.rs` — the X11 requests, replies and events the library
  exchanges, as plain values, and the protocol constants as
  `x11rb_protocol` defines them.
- `app/lib.rs` — conversions between those values and `x11rb_protocol`'s
  types, and errors that can be displayed.
- `tests/` — tests run against the compiled library.
