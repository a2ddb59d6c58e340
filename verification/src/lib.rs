//! Decoder for a fixed-layout, little-endian binary telemetry stream.
//!
//! A datagram is a flat byte buffer laid out according to an ordered field
//! schema. The decoder walks the schema against the buffer and produces a
//! name-to-value mapping of typed scalars, tolerating truncated buffers and
//! unknown field descriptors without failing.

pub mod decode;
pub mod laws;
pub mod packet;
pub mod schema;
pub mod value;
