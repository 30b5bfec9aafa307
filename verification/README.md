# kadugu_net

Peer-to-peer port forwarding over libp2p.

- `src/` is the verified library: configuration (`config`), the stream
  protocol both ends negotiate (`protocol`), multiaddresses modelled by their
  byte encoding (`address`), peer identities, the server's key-derived
  identity and the server's admission rule (`peer`), the
  server's swarm-loop and incoming-stream decisions (`server`), and the
  client's run state, connect wait and swarm-loop decisions (`client`).
  Laws over whole event sequences (the server is dialled at most once, a held
  relay reservation suppresses re-listening, a stopped loop stays stopped)
  are proof functions beside the step functions.
- `app/` drives the network: libp2p swarms, threads, the Tokio runtime and
  the C entry points, acting on the library's decisions.
- `tests/` exercises the library on concrete values.
