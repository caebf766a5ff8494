# api

Runtime configuration and lifecycle decisions of an HTTP API server, verified
with Verus.

- `src/decimal.rs`: unsigned decimal numerals, read and written.
- `src/setting.rs`: one setting: lookup with a default, zero and maximum checks.
- `src/config.rs`: the settings, their defaults and bounds, and `Config::from_reader`.
- `src/guarantees.rs`: what holds of reading the settings for every environment.
- `src/lifecycle.rs`: serving, graceful shutdown with a deadline, and run errors.
- `app/main.rs`: the server process (environment, sockets, signals, axum/tower).
