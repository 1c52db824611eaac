//! A verified codec for a relational database's composite ("record") wire
//! values: a record encoder that frames typed fields into a growable byte
//! buffer with backpatched length and count prefixes, and a record decoder
//! that yields successive typed fields from a received payload in either the
//! binary or the text wire representation.

pub mod bytes_be;
pub mod type_info;
pub mod error;
pub mod buffer;
pub mod value;
pub mod record;
pub mod laws;
