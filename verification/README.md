# ccxt_rust

Adapters for a set of cryptocurrency exchanges, with their logic verified
by Verus.

- `src/` is the verified library. For each exchange it holds what the
  adapter decides: how answers and stream messages are read into unified
  markets, tickers, books, trades, orders and balances; how requests are
  built and signed; and the state that streams keep (books, subscriptions,
  instrument tables). The shared pieces are decimals (`dec`), JSON trees
  (`json`), texts (`text`), hashing and encodings (`crypto`), times (`time`),
  the unified types (`types`, `ws`) and book ordering (`book`).
- `app/` is the transport around it: HTTP requests, WebSocket connections,
  the JSON shapes of the answers, and the clock. It hands the library plain
  values and takes plain values back.
- `tests/` runs the library on concrete values.

Contracts are stated over spec functions and views; calls into outside
crates (decimal arithmetic, hashing, encodings, time formatting, JSON
parsing) go through small trusted wrappers whose contracts say what those
crates compute.
