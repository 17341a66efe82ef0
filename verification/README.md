# sdre-rust-adsb-parser

Decoding of ADS-B data as readsb and dump1090 style receivers produce it,
with its logic verified by Verus.

- `src/` is the verified library:
  - `decoders/json_types`, `decoders/common_types`: the field types of
    `aircraft.json` (versions, flags, emergency states, emitter categories,
    navigation and integrity categories, squawk, transponder hex, ...), each
    with its numeric or textual wire form, its reading (`TryFrom` / `From`) and
    its display text, and laws that reading gives back what was written.
  - `decoders/beast.rs`: Mode-S Beast frames, read from bytes or from
    hexadecimal text (hexadecimal decoding is done by the `hex` crate).
  - `decoders/json.rs`, `decoders/aircraftjson.rs`,
    `decoders/helpers/prettyprint.rs`: the line layout of the text reports of
    a JSON message and of a whole `aircraft.json` snapshot.
- `app/` is ordinary Rust around it: the `serde` forms of the JSON types,
  the floating point types (positions, speeds, headings, times), Compact
  Position Reporting, and the system clock.
- `tests/` exercises the library on concrete values.
