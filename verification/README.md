# gitradar

The core of a desktop dashboard over many Git repositories, written in Verus:
every function in `src/` carries a contract that Verus proves.

- `src/domain/` — branches, commits, contributors, repositories and value
  objects, with their classification rules and laws.
- `src/infrastructure/git/` — commit diffs and whole-file views assembled from
  what Git reports, working-tree summaries, history paging, branch listing.
- `src/infrastructure/database/` — the queries that depend on their
  arguments (filters, pages, limits, search expressions), the shaping of query
  results, and the decisions of a schema upgrade.
- `src/discovery/` — the decisions of a directory walk for repositories and
  of registering one repository.
- `src/commands/` — the shapes handed to the user interface.
- `src/text.rs` — character-level helpers with exact contracts.

`app/` holds what is not verified: reading repositories with `git2`, walking
directories, SQLite access with `rusqlite`, the floating-point scores, and
serializable copies of the library's shapes.
