# rocks

The core of a SOCKS5 proxy, verified with Verus.

- `src/session.rs`: the SOCKS5 handshake of one client (greeting, method
  selection, username/password sub-negotiation, IPv4 and domain-name requests,
  success reply, relay) as a state machine: `SocksSession::step` takes the
  outcome of the last action and returns the next one. Its contract is the
  transition function `next`.
- `src/session_laws.rs`: properties of whole conversations, stated over `run`
  (the transition function folded over a sequence of outcomes).
- `src/basic_session.rs`: a simpler handshake (no authentication,
  IPv4 destinations only).
- `src/client_tracker.rs`: the records of the clients that authenticated.
- `src/dns_cache.rs`: the store of name resolutions.
- `src/configuration.rs`: the whitelist and the `user:hash` account lines.
- `src/address.rs`, `src/wire.rs`: addresses, and the decoding of network-order
  ports (through `byteorder`) and of UTF-8 host names.
- `app/`: the program around it: sockets, threads, channels and files.
