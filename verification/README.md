# sqllog2db

Exports DaMeng (DM) database SQL logs to CSV, SQLite or Parquet, with record filters,
a transaction pre-scan and parallel processing.

The crate is verified with Verus. `src/` holds the library: its functions carry
`requires`/`ensures` contracts that Verus proves, with one exception. The calls into
outside code (`itoa`, `memchr`, `regex`, `ahash` sets of `compact_str` texts, and a few
std functions: `str::to_lowercase`, `Debug` of a list of texts, `Path::display`) go
through small `#[verifier::external_body]` wrappers whose contracts are trusted, not
proved; each says in its doc comment what it claims. The wrapper around
`Path::display` states nothing of its result.

- `error`, `infrastructure::error`: error values, their severity, fatality and
  suggestions, and run statistics.
- `features`: include/exclude lists, regular-expression patterns, SQL substring filters,
  indicator filters and their compiled forms.
- `exporter`: the column set, CSV rows and headers, SQL statements, SQLite parameter
  values, Parquet column buffers, split-file naming and export counters.
- `engine`: memory-bounded parallelism, cutting a large file into line-aligned pieces,
  the per-record loop decisions, the processing route and the end-of-run report.
- `input`, `driver_records`: input format sniffing and the records of driver logs.
- `logging`, `timestamp`: log levels and UTC timestamps.

`app/` is the command-line program around the library: argument handling, file and
database I/O, threads, logging output and the floating-point conversions of execution
times. `tests/` exercises the library on concrete values.
