# fodder-core

The logic of the Fodder feed reader (a polling daemon plus a desktop viewer),
written in Verus: every function in `src/` carries a contract that the verifier
proves, and the library's laws are stated and proved as proof functions.

- `src/` – the verified library: scheduling and backoff (`schedule`, `poller`,
  `scheduler`), feed parsing and dedup keys (`feed`, `parse`, `dedupe`),
  redirects and feed discovery (`fetch`, `discover`), the article renderers
  (`render` for blocks, `reader` for Pango markup), configuration and settings (`config`, `settings`, `paths`,
  `autostart`), daemon/viewer messaging (`ipc`, `viewer`, `daemon`), and the
  notification, status and meta texts (`refresh`, `notify`, `meta`, `icon`).
- `tests/` – tests run against the compiled library.
- `app/` – a headless daemon around the library: HTTP, SQLite, the config file
  and the daemon socket.

Calls into feed-rs, sha2, url, html5ever, scraper, ammonia and chrono stand behind small
trusted wrappers in `src/`; their contracts name what those crates compute.
