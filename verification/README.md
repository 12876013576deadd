# jetstream_proto

The logic of the JetStreamProto transport, written in Verus and proved against its
contracts.

- `src/` is the verified library:
  - `sync`: last-writer-wins registers, observed-remove sets (with tags or with
    tombstones), delta and snapshot synchronisation, conflict resolvers; the merge laws
    (idempotent, commutative, associative) are proof functions.
  - `http3`: frame encoding and decoding with variable-length integers (decoding what
    was encoded gives the frame back), requests, responses and a server that answers
    frames through a handler.
  - `transport`: circuit breaker, NewReno, bandwidth estimation, MTU discovery,
    fallback detection, heartbeats, metrics, packet pools, protocol negotiation,
    connection and server settings, the BBR state machine, ICE candidates, the IP
    blacklist and the flood-protection records.
  - `load_balancer`: round robin, least connections, weighted round robin, consistent
    hashing, health classification and the balancer itself.
  - `multihop`: hop configuration and its validation, the engine's decisions, the
    buffer pool, the XRay client configuration.
  - `mptcp`: subflow schedulers and the rule for opening subflows.
  - `storage`: big-endian counters, FIFO queue positions, object keys and the hashes
    of a Merkle-log append (SHA-256 through `sha2`).
  - `otel`: spans, tracers and the trace context (through `opentelemetry`).
  - `compression`: the adaptive compression level.
- `app/` holds what cannot be verified: I/O with sled and sockets, tokio tasks,
  floating-point statistics and rates, serde copies of the library's types, logging.
- `tests/` runs the library.

Times in the library are milliseconds (or microseconds where the name says so) as
plain integers; functions that read the clock have a twin ending in `_at` that takes
the time as an argument. Elapsed times (heartbeats, fallback detection, MTU probes,
bandwidth, spans) are read from a monotonic stopwatch that each value starts when it is
made; wall-clock times (bans, circuit-breaker stamps) from the system clock.

## Not included

Some parts of the transport are not here, because what they are built on is not part of
this source tree:

- `Connection` and `Server` (handshake, send and receive paths, migration, STUN discovery,
  acknowledgement batching), `AdaptiveOptimizer` and `PerformanceMetrics`, `PathValidator`
  and the Python bindings all depend on the `jsp_core` crate (sessions, frame headers,
  STUN, path challenges, cipher and compression selectors), and on the `udp`,
  `reliability`, `priority_queue` and `transport_selector` modules.
- `DdosProtection::check_packet` and `check_handshake` rest on the per-address rate
  limiter of the `rate_limit` module. What they decide around it (activity, bans, stale
  records) is `IpState` and `IpTable` in `transport::ddos_protection`.
- ICE candidate gathering and the signalling exchange need the `signaling` and
  `turn_client` modules; candidate selection and check order are in `transport::ice`.
