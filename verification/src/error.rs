//! The decode errors this codec reports.
//!
//! Every failure is an ordinary result value returned to the immediate
//! caller; nothing here retries, suppresses or logs.

use vstd::prelude::*;

verus! {

/// A record decoding error.
#[derive(Debug, Clone, PartialEq, Eq)]
pub enum PgCodecError {
    /// Exhaustion: a field was asked for at `index`, but the payload holds no
    /// further field.
    NoField { index: usize },
    /// A binary composite field's embedded OID disagrees with the OID the
    /// declared field list expects at this position.
    CompositeMismatch { declared: u32, found: u32 },
    /// The value being decoded as a record is neither the generic record type
    /// nor a composite.
    NotComposite,
    /// The target type does not accept the resolved wire type; both are named
    /// by OID.
    MismatchedTypes { target: u32, actual: u32 },
    /// The value claims to be present but has no backing bytes.
    UnexpectedNull,
    /// The field's value codec rejected the payload.
    MalformedValue,
}

} // verus!
