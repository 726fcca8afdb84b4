# paimon_iceberg

Iceberg companion metadata for the changelogs of Paimon tables, written and
proved in Verus.

After each commit of a Paimon table that produces a changelog, the library
decides what an Iceberg reader needs in order to read the changelog's data files
where they lie: a manifest with one row for each file, a manifest list, a
metadata document and a version hint. It also encodes query results for the
PostgreSQL wire protocol.

- `src/` is the library. It does no input or output: a run of the changelog
  writer says what it needs, takes the answer, and says what it needs next.
  - `table`, `types`, `metadata`, `document`, `manifest`, `changelog`: the data
    and its JSON and Avro forms.
  - `write`: the runs of the changelog writer. `runs`: what whole runs amount to.
    `succession`: what one run leaves to the next.
  - `commit_callback`, `changelog_commit_callback`: the hook after a commit.
  - `wire`: result rows.
  - `write_builder`: what a table write is set up with.
  - `json`, `avro`, `ids`: the outside crates that the library calls for JSON,
    Avro and UUIDs. What the library takes for granted of them stands there; what
    it takes for granted of the wire protocol's crate and of the standard library
    stands in `wire`, `metadata` and `text`.
- `tests/` runs the library with the real outside crates.
- `app/` is what surrounds it: storage, the network and Python.
