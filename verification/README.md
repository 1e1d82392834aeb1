# beankeeper

Double-entry accounting primitives and the `bk` command line, with the
accounting rules proved by Verus.

## Layout

- `src/types`: amounts, currencies, money, account codes and types,
  entries, dates, clearance statuses, source documents and idempotency
  keys.
- `src/journal`: journal entries that post only balanced transactions, and
  the ledger with its trial balance.
- `src/reporting`: trial balances and account balances.
- `src/cli`: everything `bk` decides without touching a terminal, a file or
  the database: argument handling, amount and entry parsing, the SQL text
  and bound values of every query, metadata merging, audit snapshots, the
  demo data, OFX statement reading, amount conversion and import
  decisions, and the table, CSV and JSON renderings.
- `tests`: tests of the library.
- `app`: the `bk` program: clap parsing, the SQLite database, passphrase
  sources, terminal prompts, and `serde` output of the JSON values the
  library builds.

The main properties proved: a posted transaction always balances
(`JournalEntry::post`, `Transaction::balanced`); a ledger's trial balance
always balances (`lemma_ledger_rows_balance`); the twelve monthly amounts of
a non-negative annual budget add up to it (`lemma_spread_total`); every demo
transaction balances (`commands::init`); a transaction can be correlated
only once (`lemma_correlated_once`); an attachment is stored under the 64-character lowercase hex of its
bytes' SHA-256 (`content_digest_hex`); every idempotency key is `txnref_`
and 26 characters from `[a-z2-7]` (`IdempotencyKey::from_reference`); an
imported transaction posts the bank and suspense accounts by its direction
(`import_step`); the CSV, JSON and line-based renderers produce exactly the
documented text; and each table renderer hands `comfy-table` exactly the
documented header and cells, its text being the grid that `comfy-table`
lays them out as at the terminal's width (`grid_text`), which is not itself
stated.
