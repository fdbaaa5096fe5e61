# business

The business rules of a recipes-and-videogames platform, written in Verus and
proved against their contracts.

- `src/` is the verified library. Each feature (`features::recipe`,
  `data_ingestion`, `critic`, `friends`, `messages`, `group`, `game`,
  `platform`, `base`) holds its domain types, its errors with their texts,
  the reading of database rows, and the decisions of its use cases. Work that
  alternates with I/O (a paged search over a cached session, the sync of a game
  into the database, a page completed from an external source, the sync of the
  meal database letter by letter) is a state machine: it names the next statement or request, and takes its answer.
  `ids`, `text`, `time`, `ingredients` and `ordering` hold what the features
  share.
- Calls into `uuid`, `chrono`, `serde_json` and the standard library stand
  behind a few trusted wrappers, each documented where it is declared.
- `app/` runs the I/O: async ports and services, the PostgreSQL, Redis and
  HTTP adapters, and the serde forms of the library's types.
- `tests/` runs the library on concrete values.
