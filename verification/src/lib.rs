//! OpenType glyph-substitution lookup subtables.
//!
//! This library parses the binary Single, Multiple and Alternate substitution
//! subtable formats (together with the Coverage tables they rely on) and
//! applies them to a glyph stream, with verified contracts: parsing never
//! reads out of bounds, and each `apply` either transforms the stream exactly
//! as the format prescribes or leaves it untouched.

pub mod bytes;

pub mod buffer;

pub mod coverage;

pub mod single;

pub mod multiple;

pub mod alternate;
