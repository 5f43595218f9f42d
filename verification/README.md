# splashboard

The data side of a terminal splash dashboard: the fetchers that turn git
repositories, the GitHub API, the deariary diary API, CoinGecko, and game-deal
feeds into renderable payload bodies.

## Layout

- `src/` — the verified library (Verus). Option resolution, request composition,
  the deal-title and image-source grammars, ranking and tallying, calendar
  arithmetic, text shaping and every body a fetcher renders, each with a contract.
  Calls into outside crates (chrono, sha2, regex, url, feed-rs) and a few std
  string functions go through small trusted wrappers whose contracts say what the
  crate's source or documentation promises.
  - `payload.rs`, `render.rs` — the body and shape vocabulary.
  - `time.rs` — proleptic Gregorian dates, day numbers and weekdays.
  - `text.rs`, `digest.rs`, `rank.rs`, `samples.rs` — shared helpers.
  - `fetcher/` — one module per fetcher family (`git`, `github`, `deariary`,
    `deal`, `feed`, `crypto_watchlist`, `forge_items`).
- `app/` — the unverified shell: HTTP requests, repository reads with gix,
  the clock and environment, cache files, serde copies of the library's types,
  and the floating-point formatting of prices.
- `tests/` — behaviour tests of the library.
