# newt-todo

A personal project-management hub: a unified todo list mirrored from GitHub,
boards with columns and cards, a git dashboard, daily repository digests,
multi-user sync, and OAuth login. The rules are written in Verus and proved;
the database, network and process plumbing around them is ordinary Rust.

## Layout

- `src/` — the verified library.
  - `domain`, `provider`, `store`, `rows`, `schema`: tasks, accounts, boards,
    how rows are read and written, the database schema and its upgrades.
  - `github`, `requests`, `gh_payload`: the GitHub provider's URLs, requests
    and the mapping of its payloads.
  - `syncset`, `changes`: last-writer-wins change sets between devices.
  - `snapshot`: the daily digest computed from repository snapshots.
  - `auth`, `tokens`, `oauth`, `login`, `ids`, `session`: request
    authorization, token stores, PKCE, authorize URLs and callbacks,
    registration, login and session tokens.
  - `service`, `dto`, `api`: the service layer's parameter handling and the
    values it hands to clients.
  - `text`, `json`, `jsonobj`, `timefmt`, `error`: helpers over strings, JSON
    and timestamps.
- `app/` — SQLite access (sqlx), HTTP (reqwest), the keyring, the clock and
  random salts, and the async service that drives the library.
- `tests/` — tests of the library on concrete values.

## Collections

Maps keyed by strings are kept as lists, each with the invariant that gives
it the meaning of a map, because vstd's specifications of `HashMap` and
`BTreeMap` give too little about lookups under `String` keys to prove these
contracts with:

- `tokens::MemoryTokenStore` holds `(account id, token)` pairs in a `Vec`
  whose keys are distinct (a type invariant); its view is the map from
  account id to token, and saving, loading and deleting are stated over that
  map.
- `snapshot::compute_digest` finds, for each repo, its last capture on a day
  by scanning the snapshots (`last_on`: later rows win, as when a map is filled
  in order) and keeps the latest day's repos in a list sorted by name, which
  is what a `BTreeMap` keyed by name would give when walked.
- `oauth::callback_params` reads `code` and `state` from the callback's query
  pairs in order, the last occurrence of a key winning, as when the pairs are
  collected into a map.

## Scope

The store speaks SQLite only. The gRPC sync server, the MCP server and the
desktop shell are not part of this crate; the rules they apply (request
authorization, status mapping, sync merging, login) are in `src/`.
