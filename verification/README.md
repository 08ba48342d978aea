# statik

The wire formats and connection logic of a Minecraft limbo server, verified
with Verus. A limbo server accepts Minecraft clients (protocol 763, MC
1.20.1, and protocol 767, MC 1.21.1), places them in an empty world, and
answers a small management API.

- `src/` is the verified library:
  - `varint`, `primitives`, `containers`, `codec`, `packet`, `position`,
    `bitset`, `state`: the encodings of the protocol's values, each with a
    read that undoes its write;
  - `v1_20_1`, `v1_21_1`: every packet of both versions and the
    state-aware decoding of each packet group;
  - `common`: shared packet fields, the empty-chunk bodies and the status
    response;
  - `server`: version selection, framing and compression, the decisions of
    a client connection (handshake, status, login and configuration bursts),
    the management API, the configuration defaults and the shutdown flag.
- `tests/` drives the library with concrete packets.
- `app/` is the program around it: sockets, timers, JSON and the
  configuration file. The registry data blobs are read at start-up from the
  directory named by `STATIK_DATA` (default `data`).
