# datalayerapi_tidb

A data layer between TiDB/MySQL and Kafka, verified with Verus.

- `src/` — the verified library:
  - `configuration/settings.rs`: the configuration file names.
  - `kafka/`: the Kafka client parameters of the consumer and the producer
    (built into `rdkafka::config::ClientConfig`), the severity of librdkafka
    log messages, and the delivery report.
  - `tidb_service/service.rs`: the query service's checks and replies.
  - `utils/`: the conversion of result rows into JSON objects (SQLx and
    `mysql_async` flavours), report lines, row-history detection, pool
    addresses, the per-database pool registry, and text helpers.
- `app/` — the program around it: configuration loading, the Kafka clients
  and their callbacks, running statements over the network, JSON text, and
  the gRPC envelopes.
- `tests/` — tests of the library on concrete values.
