# socks5

A SOCKS5 proxy whose protocol logic is a Verus-verified library.

- `src/socks.rs`: version and reserved bytes, commands, address types, reply
  codes and authentication methods with their wire codes.
- `src/users.rs`: the built-in user table and the username/password check.
- `src/address.rs`: targets as a client encodes them, destinations as a server
  decodes them.
- `src/server.rs`: the server handshake as a state machine, in two variants
  (the library server and the stand-alone program).
- `src/client.rs`: the client handshake as a state machine.
- `src/laws.rs`: how the client's messages read on the server side.
- `app/`: sockets, name resolution, relaying, the command line, and the
  program that serves on 127.0.0.1:1080.
