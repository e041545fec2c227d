# natsort_core

Natural ("human") ordering of strings, verified with Verus: a string is split
into text and numbers, and the numbers compare by value, so `num2` sorts before
`num10`.

## Numbers

Integers are exact, however many digits they have. Reals follow doubles at
the ends of their range: a magnitude of at least `2^1024 - 2^970` overflows
(it is held as `±10^309`, so all such values tie, as infinities do), and a
magnitude of at most `2^-1075` underflows to zero. Within the range, reals
are compared exactly. A double would also merge decimals that round to the
same double (those that differ only past about the seventeenth significant
digit); the library has no floating point, and reproducing that rounding
exactly would need a correctly rounded decimal-to-binary conversion, so such
decimals are ordered by their exact values instead.

## Layout

- `src/` — the verified library.
  - `ns.rs` — the algorithm flags (`Ns`).
  - `unicode_data.rs`, `unicode.rs` — the digit, isolated-digit, numeric-value
    and case-fold tables, with their lookups.
  - `decimal.rs` — exact decimal numbers (`RealNum`), their order, and the
    limits of the range of doubles.
  - `text.rs` — case transforms and canonical decomposition.
  - `key.rs` — the number grammar and the key scanner (`natsort_key`'s core).
  - `order.rs` — the order of keys; `compare.rs` — `natcmp`.
  - `sort.rs` — a verified stable merge sort by precomputed keys.
  - `api.rs` — `natsorted`, `realsorted`, `humansorted`, `os_sorted`, the
    `index_*` variants and `order_by_index`.
  - `laws.rs` — properties of the library as a whole: the comparison is a
    total preorder, keys alternate text and numbers, and sorting is a stable,
    unique, idempotent permutation.
  - `tokens.rs` — the key as typed tokens, integers written in decimal.
  - `decode.rs`, `chain.rs`, `cli.rs` — decoders, function chaining and the
    flag parsing of the command line.
- `tests/` — tests of the public API.
- `app/` — the command-line program, and the conversion of real chunks to
  `f64` for printing.
