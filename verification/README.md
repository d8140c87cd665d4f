# social_api

A service that records "likes" of content items, counts them, ranks them and
streams changes to clients.

- `src/` is the verified core: identifiers and cache keys, configuration from
  environment variables, error answers, the circuit breaker, request
  validation, pagination cursors, rate-limit decisions, and the decision flows
  of the like service (like, unlike, counting with single-flight fallback,
  batches, leaderboards with background refresh, content validation). Each
  flow is a state machine: from its state and the outside world's answer it
  gives the next state and the next action. Its properties are stated as
  contracts and as `law_*` proof functions.
- `app/` is the service around it: the axum routes and middleware, the
  PostgreSQL and Redis adapters, the HTTP clients of the profile and content
  services, the loops that run the flows, and the stand-in services.
- `tests/` runs the library on concrete values.
