# pokedex

A SQLite-backed command-line Pokédex and collection tracker whose every
command prints a JSON envelope of data, follow-up actions and paging
metadata. The decisions behind the commands are a library verified with
Verus; a thin program around it talks to SQLite, the network and the
terminal.

## Layout

- `src/` — the verified library.
  - `text.rs`: strings as character sequences (parsing, decimal output,
    trimming, joining) with their specifications.
  - `output.rs`: the response envelope, actions and paging metadata.
  - `cli.rs`: the command tree and which commands need a seeded database.
  - `commands/`: per command, the validation of its arguments, its error
    responses with suggestions, and the actions it offers next.
  - `db/`: the SQL statements the commands run (`sql.rs`), the shaping of
    rows into results (`queries.rs`), fuzzy-search ranking (`search.rs`),
    reading the PokeAPI archive and CSV files (`seed.rs`, `csv_rows.rs`),
    the seeding plan (`seed_plan.rs`), PokeDB encounter planning
    (`pokedb.rs`) and curated overrides (`overrides.rs`).
  - `discover.rs`: the machine-readable command tree.
  - `laws.rs`: properties relating several operations.
- `app/` — the executable: argument parsing, the SQLite connection,
  downloads, JSON rendering.
- `tests/` — tests of the library, including statements run against an
  in-memory SQLite database.

## Running

The database lives at `~/.pokedex/db.sqlite` unless `POKEDEX_DB_PATH`
names another file. The schema migrations are read from the directory named
by `POKEDEX_MIGRATIONS` (default `migrations/`), and the curated override
files from `POKEDEX_DATA` (default `data/`).
