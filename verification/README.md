# skywalking

A SkyWalking agent library whose logic is verified with Verus: tracing
contexts and spans, the `sw8` and `sw6` propagation headers, log records,
instance properties, meters and meter records, and the decisions of the
reporters.

Layout:

- `src/` — the verified library.
  - `common/` — base64 (through the `base64` crate), random ids (`uuid`),
    the clock, and verified text helpers (splitting, joining, decimal
    integers).
  - `context/` — the `context` API: a tracing context whose spans are
    addressed by their place in its active stack, and a context manager that
    hands each finished context, as a segment, to a notify function.
  - `proto/v3/` — the messages of the collector protocol, with views.
  - `trace/` — `TracingContext`, spans, the tracer, and the `sw8` header
    (`decode_propagation`, `encode_propagation`, with the round trip proved).
  - `logging/` — `LogRecord` and `Logger`.
  - `management/` — `Properties`, the host information, `Manager` and the
    keep-alive schedule.
  - `metrics/` — meter ids, gauges, the metricer, and meter records.
  - `reporter/` — `CollectItem`, the `Report` trait, the print and log
    reporters, the Kafka configuration and routing, and the reporting loop.
  - `tracing_core/` — the classic agent: ids, the `sw6` segment reference
    (with the serialize/parse round trip proved), spans and contexts.
- `tests/` — tests of the library.
- `app/` — the runtime around it: globals, thread-local context, host
  information, background loops, float-valued meters and the Kafka client.
