# sar_gateway

HTTP gateway for SAR (search and rescue) drone control. An operator's prompt goes
to an LLM, which answers with a plan of at most five drone and model steps
(`{"tasks":[...]}`); the gateway validates the plan, normalizes drone arguments,
applies the steps in order through the drone service, and reports its state.

## Layout

- `src/` — the library, verified with Verus: settings and URL building, reading
  and validating the LLM's plan, drone argument normalization, the orchestrator
  state machine (one call per step: it says what outside work is needed and
  takes its result back), drone and model reply reading, pipeline timing, the
  recent-infer log, the API key check of the protected routes, the evaluation
  endpoints' rules, and the relays' decisions. Each public function states its
  result in its `ensures`; the `law_*` proof functions state properties that
  span calls (idempotent normalization, accepted plans are bounded and valid,
  override windows, the log keeps what was recorded, timing layers add up).
- `app/` — the server around it: environment, HTTP exchanges (reqwest),
  routes (axum), WebSocket and stream relays, JSON (de)serialization.
- `tests/` — tests of the library on concrete values.

## Running

`app/main.rs` starts the server on `GATEWAY_BIND` (default `127.0.0.1:3000`).
Mutating routes require `MCP_API_KEY` (`Authorization: Bearer` or `X-API-Key`;
503 when the key is unset, 401 when it does not match).
