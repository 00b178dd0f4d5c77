# sonictok

A byte-level BPE tokenizer (cl100k / o200k style) whose core is written in
Verus: the code in `src/` is verified against its `requires`/`ensures`
contracts and the laws stated beside it.

## Layout

- `src/unicode/` — Unicode class tables (letter, number, whitespace, case)
  as bisection searches, each proved equal to its class.
- `src/pretok/` — the cl100k and o200k pretokenizers, written as scanners
  over UTF-8 bytes; each piece end is the one the grammar's spec gives.
- `src/hash.rs`, `src/probe.rs`, `src/rank.rs` — the rank tables: packed short
  keys, an open-addressed table for long keys, and `RankMap`, whose view is
  the rank of each byte string.
- `src/bpe.rs` — byte-pair merging, proved equal to the leftmost-lowest-rank
  merge model, with its laws.
- `src/specials.rs` — the special-token registry (longest match first) and
  substring search.
- `src/encoding.rs` — the engine: ordinary and special-aware encoding,
  decoding, and the round-trip laws.
- `src/vocab.rs` — the backtracking vocabulary encoder: prefix matching,
  token-pair validity, and the search, each proved against a model of its
  steps. Its agreement with `bpe.rs`'s merge is proved only for pieces that
  are themselves tokens, not in general.
- `src/blob.rs` — the binary vocabulary file: writer, parser, round trip.
- `src/import.rs` — parsing `.tiktoken` rank files into a blob.
- `src/oracle.rs` — a regex-driven reference encoder (through `fancy-regex`).
- `src/tokenizer.rs` — the public `Tokenizer` API.
- `app/` — file loading, the C ABI, Python bindings and build tasks.
- `tests/` — tests of the library on concrete values.
