# temp_rs_ddd

The verified core of a DDD-style service skeleton (HTTP / gRPC / WebSocket
servers, a Kafka consumer, PostgreSQL, Redis, ScyllaDB, S3 and Qdrant
clients, in-process and distributed caches).

- `src/` — the library, verified with Verus:
  - `config` — the settings of the whole system;
  - `connection` — what each client is opened with: librdkafka
    configurations, Redis URLs, PostgreSQL parameters, ScyllaDB session and
    profile, S3 and Qdrant client settings, gRPC channels and health verdicts;
  - `kafka_consumer` — offsets waiting for commit, per-topic pipelines and
    the decisions of the consume loop;
  - `cache` — expiry policy and counters of the in-process cache, lifetimes,
    TTL replies and script arguments of the distributed cache;
  - `server`, `wiring` — configuration sources and the layer stack;
  - `text` — decimal rendering and parsing, joining, searching, case mapping.
- `app/` — the program around it: command line, configuration loading,
  connection pools and clients, cache adapters, the consume loop, servers and
  shutdown.
- `tests/` — tests of the library on concrete values.
