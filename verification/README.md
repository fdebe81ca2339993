# auralogs

Client for the Auralogs ingest service. Its decision logic is a verified library whose
functions carry exact contracts, with proved laws on how they work together.

- `src/` is the verified library:
  - `config`: the configuration builder and its checks (`AuralogConfigBuilder::build`
    states exactly which settings are refused, in which order, and what defaults are used);
  - `text`: the string rules the checks rely on (Unicode whitespace, the `https` scheme test,
    trailing-slash trimming);
  - `time`: `TimeSpan`, a nanosecond span with the range of `std::time::Duration`, and the
    exact conversion from a `Duration` that the configuration builder accepts;
  - `entry`: log levels and entries;
  - `metadata`: how global and per-call metadata merge into an entry's metadata; the
    fields live in `serde_json::Map`, whose calls carry contracts over what the map holds,
    while JSON values themselves stay opaque;
  - `transport`: the delivery queues (bounded also after retries, errors first, batching,
    retries), with laws on capacity, delivery order, attempt limits, progress, draining and
    the stop flag;
  - `delivery`: how delivery outcomes are classified, the worker's retry backoff over any
    run of outcomes, the steps of a draining flush;
  - `client`: the state a client logs with (environment, trace id, global metadata);
  - `bridge`: level mapping and filtering for the `log` and `tracing` integrations, and how
    a `tracing` event's recorded fields become its message and metadata.
- `app/` is the runtime around it: the client with its locks and global instance, the
  background delivery thread, HTTP through `ureq`, JSON serialization, the panic hook and
  the `log` / `tracing` adapters.
- `tests/` exercises the library on concrete values.
