//! Decoding of ADS-B data as produced by readsb/dump1090 style receivers:
//! the JSON field types of `aircraft.json`, the Mode-S Beast frame header,
//! hexadecimal frame input, and the text rendering used by the pretty printers.

pub mod decoders;
pub mod error_handling;
