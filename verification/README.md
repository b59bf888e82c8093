# wasix_socket

The socket layer of a WASIX runtime, verified with Verus.

A guest's socket is first a set of settings (`InodeSocketKind::PreSocket`) and
later one of the open sockets of a virtual network. The library remembers what
the socket is and was set to, decides what each request of the guest leads to,
and says what the guest is answered for every reply of the network. It performs
no input or output itself.

- A request that needs the network is answered with a `Step::Call`, which names
  the call and its arguments; `Step::finish`, or the `complete` method of the
  call, turns the reply into the answer.
- A request that waits (`accept`, `send`, `send_to`, `recv`, `recv_from`) is a
  small state machine. Its `advance` method takes an event and says what is to
  be done next: make a call, set a handler, stop, or wait.
- Errors of the network are handed on as `SocketError::Net`; the runtime that
  embeds the library chooses the error code that the guest sees for them.

## Layout

- `src/`: the library. `kind.rs` and `settings.rs` hold the state, `socket.rs`
  the life of a socket and its addresses, `options.rs` its options, `poll.rs` the
  waiting requests, `call.rs` the calls, `laws.rs` what holds across requests.
  `handler.rs`, `rights.rs` and `time.rs` hold what is taken from `virtual_mio`,
  `wasmer_wasix_types` and std on trust.
- `app/`: the library on top of `virtual_net`, with locks, futures and timeouts.
  The feature `sys` of `wasmer` is switched on because `wasmer_wasix_types` does
  not compile without it; nothing here calls `wasmer` itself. `serde` is there for
  the code that `serde_derive` writes.
- `tests/`: the library in use, with sockets that are plain values.
