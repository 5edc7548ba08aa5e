# weir

`weir` is a single-binary orchestrator for local command-line agents. It
reads `weir.toml`, runs one prompt through one
backend (`weir chat`) or through a workflow (`weir workflow run`): fan-out,
pipeline, router, eval-loop or fusion. Every backend call goes through retry
with backoff, a token-bucket rate limiter and a circuit breaker, and
per-backend metrics are persisted across invocations.

## Layout

- `src/` — the library, verified with Verus. Everything that decides lives
  here, with its contract:
  - `config/` — the configuration model, per-backend resilience settings, and
    validation (syntactic, then semantic; the first problem is reported);
  - `backends/` — chat requests and responses, and the stdio-cli backend:
    the argument template expansion and what a process's exit means;
  - `engine/` — the workflow engines as state machines driven by the caller
    (pipeline, eval-loop, fusion, the fan-out gathering), call-time overrides
    of a workflow's backends, and the resolution of a workflow into what its
    engine runs;
  - `resilience/` — backoff delays and the retry loop, the half-open circuit
    breaker, the token bucket, and the decorator layering them around a call;
  - `observability/` — per-backend counters and the delta-based merge of the
    metrics file;
  - `cli/` — summaries for `backend list` / `workflow list`, and the edits
    of `weir.toml` through `toml_edit`. Their contracts state what the edited
    text reads as (keys, arrays of tables and every field, other top-level
    entries); that comments, order and layout are kept is `toml_edit`'s
    doing and is not part of any contract;
  - `text.rs` — the string operations the rest is specified with.
- `app/` — the binary: argument parsing (clap), reading the config (serde,
  toml), spawning agent processes and sleeping (tokio), printing, logging,
  and reading and writing the metrics file.
- `tests/` — tests of the library.

Time enters the library as a monotonic clock reading in microseconds, and
rates as thousandths of a request per second, so the resilience arithmetic is
exact integer arithmetic.
