# vortex_layout (verified core)

A Verus library with two verified pieces of a columnar file format:

- `list_contains`: for each row of a byte-string column, whether the row's list
  holds the row's value. A long value column searched in one constant list of
  many elements goes through a hash set of the list's non-null elements; every
  other input is answered row by row. Both paths are proved to give the column
  that `list_contains_spec` describes.
- The legacy zoned-statistics writer: its options, the combination of a data
  strategy with a zone-table strategy, the state machine that orders the steps
  of writing a stream, and the sequence identifiers that lay the written parts
  out (`sequence`), with the proof that the data comes before the zone table.

Layout: `src/` is the verified library (`dtype`, `byte_set`, `list_contains`,
`sequence`, `legacy_writer`); `tests/` runs it; `app/` holds the asynchronous
driver of the writer and the machine-dependent default options.

The hash set of the `list_contains` fast path is `hashbrown::HashSet<Vec<u8>>`,
the set type that columnar kernels of this family use for scalar lookups; it is
reached through the trusted wrappers in `src/byte_set.rs`.

Each step of the writer's state machine names the strategy that performs it
(`Role::Child` for the data, `Role::Stats` for the zone table), and
`LegacyStatsStrategy::performer` gives that strategy; the data step also carries
the statistics to collect, their byte limit and the concurrency. The driver in
`app/` routes every step through the strategy it names and builds the
statistics pipeline from what the data step carries.
