# nexus_actor

Verified building blocks of an actor runtime with remoting and clustering,
written in Verus.  Every function in `src/` carries a contract that Verus
proves; the few calls into outside crates (random jitter, regular
expressions, concurrent sets, SipHash, integer formatting) sit behind small
trusted wrappers whose contracts are stated in their doc comments.

Layout:

- `src/supervision`: restart histories, the all-for-one and
  exponential-backoff strategies, the supervisor slot and its lookup counts.
- `src/remote`: response status codes, serializer ids and the serializer
  registry, wire batches and how their envelopes resolve, endpoint states
  (reconnects, heartbeats), per-endpoint statistics, watch plans, process
  listings, the block list, the endpoint supervisor and a loopback transport.
- `src/cluster`: cluster identities, remote options, topology events and
  registry values, the in-memory provider and the virtual-actor host.
- `src/actor`: subscriptions, dead-letter handling, future outcomes and the
  sharding of the process table.
- `src/utils`: a stack, a wait-group counter, priorities and text helpers.
- `app/`: ordinary Rust around the library: protobuf and JSON serializers,
  serde and error-type forms of library values, OpenTelemetry metrics, the
  threshold-based backpressure level and the asynchronous wait of a wait
  group.
- `tests/`: tests of the library on concrete values.
