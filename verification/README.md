# libutp-rs2

Asynchronous uTP (uTorrent transport protocol) streams on tokio, with the C
library [libutp](https://github.com/bittorrent/libutp) under the hood. The
decisions are made by a library that is verified with Verus.

- `src/` is the verified library. It performs no I/O: its functions take plain
  values, among them what a call into libutp or the transport returned, and say
  what is to be done next.
  - `stream`, `model`: streams, what callbacks do to them, and what readers and
    writers are answered.
  - `ring`: the bounded buffer that received bytes wait in (`ringbuf`).
  - `context`: the setup of a context and its queue of acceptors.
  - `guard`: the checks that callbacks make before they use what they are given.
  - `driver`: the loop that feeds libutp with datagrams and time.
  - `udp`: the setup of a UDP socket.
  - `lock`: the lock that calls into libutp are made under (`parking_lot`).
  - `codes`, `error`, `names`, `opts`, `progress`: numbers, errors, names,
    options, and the result of polling.
  - `laws`: what holds of the library as a whole, with proofs.
- `tests/` runs the library on concrete values.
- `app/` performs the calls: the C interface of libutp, its callbacks, and the
  tokio side of contexts and streams. A program that links it links libutp too.

## Example

```rust
let server = UtpUdpContext::new_udp("127.0.0.1:8001".parse()?).await?;
let mut incoming = server.accept().await?;
let mut text = String::new();
incoming.read_to_string(&mut text).await?;
```
