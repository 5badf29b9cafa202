# mini_exchange

The core of a small crypto trading service, written in Verus and verified:

- a **market service** that syncs the top CoinGecko assets and answers price
  lookups, and
- a **portfolio service** where users sign up, deposit cash and place
  idempotent market orders that are executed against their balances.

`src/` is the verified library:

- `decimal`, `ids`, `text` — amounts (`rust_decimal`), UUIDs (`uuid`) and
  text helpers;
- `shared` — environment keys, the application error, checked arithmetic,
  log targets;
- `portfolio` — credentials and passwords (`argon2`), deposits, account
  views, and order placement as a state machine (`order_flow`) whose
  effect on the accounts is proved in `order_laws` over a model of the
  database, with requests of one user running at the same time in
  `order_concurrency` and `deposit_concurrency`;
- `market`, `database`, `http_server` — the computing parts of the market
  service, of the repositories and of the HTTP server template.

`app/` holds the services themselves (axum, sea-orm, reqwest, jsonwebtoken,
tokio): it performs the database and network work and asks the library what
to do. `tests/` exercises the library with the real outside crates.
