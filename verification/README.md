# albion_market

An HTTP API over a market-data store (items, localized names, market orders,
market history, locations, statistics).

- `src/` is the verified library: what each endpoint asks the store for
  (`routes`), the page-size and language defaults (`params`), how a
  statistics `group_by` picks its time bucket (`stats`, over the substring
  search in `text`), the status a failed query is answered with (`status`,
  `routes::answer`), the per-language tables of a localization answer and the
  two-read flow that builds it (`lang_table`, `localization`), the records
  (`models`) and the configuration with its port parser (`config`).
- `app/` is the server: environment, connection pool, the SQL queries, axum
  routing, and the JSON encoding of the library's answers.
- `tests/` run the library on concrete values.
