# mz_rocksdb

An async wrapper around RocksDB that does IO on a separate thread, with its logic verified by
[Verus](https://github.com/verus-lang/verus).

- `src/` is the verified library. It takes every decision and does no IO: what an instance sends to
  the RocksDB thread and makes of its answers (`instance`), and what the thread does with each
  command and with each answer of RocksDB (`core_loop`). `store`, `service` and `session` prove
  what callers rely on: a read gives back what was put, the last value of a key wins, other keys are
  kept, commands are served in their order, and an error ends the thread.
- `app/` is the async API around it: the channels, the thread, the calls into RocksDB, the encoding
  of callers' serde types and the metrics.
- `tests/` runs the library, with the real bincode and with a map in the place of RocksDB.

Trusted, not proved: how `bincode::serialize_into` and `bincode::deserialize` treat a vector of
bytes (`value`). The encoding of a caller's serde type, `Encoded<V>` in `app/`, is taken to meet the
contract of `Value`.
