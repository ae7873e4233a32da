# sparklytics_server

The decision logic of the Sparklytics analytics server, written in Verus:
request validation and date ranges, bot classification, rate limiting,
ingest-queue accounting and its write-ahead log, session resolution and
caches, authentication (passwords, session cookies and tokens, API keys),
Clerk webhooks, cloud-mode tenants and ClickHouse query plans, tracking
links and pixels, notification delivery checks and the scheduler's
settings. Verus checks every function in `src/` against its contract;
calls into outside crates (`chrono`, `url`, `ipnet`, `psl`, `woothee`,
`sha2`, `argon2`, `jsonwebtoken`, `svix`, `uuid`, `csv`, `serde_json`,
`rand`, ...) go through small trusted wrappers whose contracts say what
the crates' sources show. Some of those contracts say nothing of an
outcome that depends on the clock or on chance (a token's expiry, a
webhook signature's timestamp window, a random salt).

Layout:

- `src/` — the verified library (one module per concern; `routes/` holds
  the logic of the HTTP endpoints).
- `tests/` — tests run against the compiled library.
- `app/` — the process around the library: environment settings, the
  ingest log's files (the library's `replay_log` decides what a replay
  restores, skips and cuts), the ingest drain cycle around a backend's
  insert (the library's `DrainState` decides each step), GeoIP lookups, Clerk payload parsing, alert
  arithmetic in floating point, and the container health probe. It holds
  no HTTP server or database layer.
