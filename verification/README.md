# domain_collection

The logic of a collection of `.btc` domain names, verified with Verus.

- `src/svg_generator.rs`: the SVG image of a domain and its JSON attributes
  (`{"length":N,"name":"..."}`), each stated exactly as text.
- `src/json.rs`: JSON string literals (written by `serde_json`, whose escaping
  the contract states) and decimal numerals.
- `src/domains.rs`: the price of a name by its length in characters, the check
  of the payment output, and the order in which a mint request is refused.
- `src/records.rs`: the 32-byte record of an alkane id, little-endian, with
  both round trips proved; transfers and the bookkeeping of a mint.
- `app/lib.rs`: the same entry points with `anyhow` errors and the contract's
  error texts.
- `tests/`: concrete cases for each function and each proved law.
