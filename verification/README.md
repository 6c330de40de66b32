# hams

A health and monitoring service for applications: liveness, readiness and startup
checks built from probes, startup and shutdown tasks with retries, and an HTTP
interface under `/hams/`, with a C interface for hosts written in other languages.

## Layout

- `src/` is the verified library (Verus). It holds the rules of the service:
  - `hams::check`: a check as a collection of probes keyed by name, and its replies;
  - `hams::tasks`: how a task is retried and how a group of tasks ends;
  - `hams::lifecycle`: when the service may start and stop, and the order of the
    phases of a run, as a step function from phase and event to phase and action;
  - `hams::webservice`: routing, status codes and rejection replies;
  - `probe`, `probes`, `health`, `healthkicked`: the probes (manual, kick, DNS, TCP,
    HTTP) and their handles;
  - `error`, `text`, `clock`, `log_record`: error texts and FFI codes, decimal text,
    the wall clock, and log lines across the C boundary.
- `app/` is plain Rust around the library: the `extern "C"` interface, the logging
  bridge, network I/O of the probes, and the thread and tokio runtime that walk the
  lifecycle and serve the endpoints with warp.
- `tests/` exercise the library on concrete values.
