# datadog-opentelemetry

A layer that makes the OpenTelemetry SDK send its traces to the Datadog agent, with its decisions
proved in Verus.

- `src/` is the library. It holds no lock and reads no clock: every operation takes the state that
  it changes, the time, and what came back from outside, and says what is to be done next.
  - `registry`, `traces`, `active_spans`, `sampling`: the traces that are under way.
  - `span_processor`, `propagation`, `links`, `shutdown`: what happens when spans start and end.
  - `batch`, `channel`, `exporter`, `worker`: the way of finished spans to the agent.
  - `context_labels`, `custom_labels_writer`: labels that show the span a thread works on.
  - `builder`, `config`, `dd_resource`: setting tracing up.
  - `registry_laws`, `sharding_laws`, `channel_laws`, and the `law_` proofs in the other modules:
    what holds of the library as a whole.
- `app/` takes the locks, waits, starts threads, and talks to the SDK and to the agent.
- `tests/` runs the library.
