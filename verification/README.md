# diesel-guard

A linter for dangerous Postgres migrations. It reads the SQL of Diesel migrations and reports
statements that lock tables, rewrite them or lose data on a live database, each with a safe
alternative.

The library is written in [Verus](https://github.com/verus-lang/verus): what its functions return is
stated in their contracts and proved. Where a result depends on the terminal, on the platform's
paths or on a function of another crate, the contract says what holds either way.

## Layout

- `src/` is the library.
  - `ast` holds the parts of the Postgres parse tree that the checks read.
  - `checks` holds one module per check, the registry that runs them, and what holds of all of them
    (`checks::laws`).
  - `parser` puts statements together with the directives in comments:
    `-- safety-assured:start` … `-- safety-assured:end` and `-- diesel-guard:disable Name, …`.
  - `adapters` selects the migration files of a directory.
  - `safety_checker` validates a configuration and checks texts, files and directories.
  - `formatters` and `paint` lay out results as text, JSON or GitHub workflow commands.
  - `lsp` is a language server without its input and output: handlers that take a notification and
    give back what to do next, and what holds of them over time (`lsp::state::laws`).
  - `text`, `pattern`, `error`, `config`, `violation` and `cli` are what the others share.
- `tests/` runs the library on concrete SQL, configurations and notifications.
- `app/` is the program: argument handling, the Postgres parser, files, and the server's connection.

## What is not proved

The library calls a few functions that it does not define: regular expressions (`pattern`), terminal
colors (`paint`), JSON values (`formatters::json`), UTF-8 decoding and path handling (`lsp::uri`,
`lsp::config_cache`), and two operations on strings (`text`). What is relied on is said above each of
them. What the Postgres parser finds in a text is an argument of the functions that use it.
