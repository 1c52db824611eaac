//! Typed values and the value-codec capability.
//!
//! The record encoder and decoder are generic over "a typed value that knows
//! how to encode/decode itself": the [`PgEncode`] and [`PgDecode`] traits.
//! [`PgValue`] is this library's dynamic value, implementing both for a small
//! set of wire types; `i32` implements them for the four-byte integer type
//! alone, so a caller may decode straight into a native integer.

use vstd::prelude::*;

use crate::buffer::PgArgumentBuffer;
use crate::bytes_be::{
    i32_of_word, read_be_u32, spec_be32, spec_i32_of_word, spec_u32_from_be, spec_word_of_i32,
    word_of_i32,
};
use crate::error::PgCodecError;
use crate::type_info::{PgTypeInfo, BOOL_OID, INT4_OID, TEXT_OID};

verus! {

/// Which sub-protocol governs a value's bytes.
#[derive(Debug, Clone, Copy, PartialEq, Eq)]
pub enum PgValueFormat {
    Binary,
    Text,
}

/// What a value codec's encode step reports: either nothing was written
/// because the value is NULL, or the payload bytes were appended.
#[derive(Debug, Clone, Copy, PartialEq, Eq)]
pub enum IsNull {
    Yes,
    No,
}

/// One received wire value: its declared type, its format, and its raw bytes.
/// A NULL value has no backing bytes.
pub struct PgValueRef {
    pub type_info: PgTypeInfo,
    pub format: PgValueFormat,
    pub value: Option<Vec<u8>>,
}

/// The byte-sequence view of an optional byte vector.
pub open spec fn spec_opt_bytes(v: Option<Vec<u8>>) -> Option<Seq<u8>> {
    match v {
        Some(b) => Some(b@),
        None => None,
    }
}

/// The encode half of the value-codec capability: a value reports its type
/// descriptor and appends its payload bytes to the destination buffer.
pub trait PgEncode {
    /// The descriptor of this value's wire type.
    spec fn spec_type_info(&self) -> PgTypeInfo;

    /// Whether this value encodes as NULL.
    spec fn spec_is_null(&self) -> bool;

    /// The payload bytes this value appends when it is not NULL.
    spec fn spec_encoded(&self) -> Seq<u8>;

    fn type_info(&self) -> (t: PgTypeInfo)
        ensures
            t == self.spec_type_info(),
    ;

    /// Appends the value's payload to `buf`, or appends nothing and reports
    /// NULL.  The encode step never touches the buffer's type holes.
    fn encode(&self, buf: &mut PgArgumentBuffer) -> (r: IsNull)
        ensures
            final(buf).type_holes@ == old(buf).type_holes@,
            (r is Yes) == self.spec_is_null(),
            self.spec_is_null() ==> final(buf).bytes@ == old(buf).bytes@,
            !self.spec_is_null() ==> final(buf).bytes@ == old(buf).bytes@ + self.spec_encoded(),
    ;
}

/// The decode half of the value-codec capability: a target type says which
/// wire types it accepts and reconstructs itself from a payload.
pub trait PgDecode: Sized + View {
    /// The target's own natural type descriptor, named by decode errors.
    spec fn spec_natural_type() -> PgTypeInfo;

    /// Whether the target accepts a value of the given wire type.
    spec fn spec_accepts(ty: PgTypeInfo) -> bool;

    /// The value decoded from a payload of the given type and format, or
    /// nothing where the payload is rejected.
    spec fn spec_decode(ty: PgTypeInfo, fmt: PgValueFormat, payload: Option<Seq<u8>>) -> Option<
        Self::V,
    >;

    fn natural_type() -> (t: PgTypeInfo)
        ensures
            t == Self::spec_natural_type(),
    ;

    fn accepts(ty: &PgTypeInfo) -> (r: bool)
        ensures
            r == Self::spec_accepts(*ty),
    ;

    /// Decodes one field payload: the resolved type descriptor, the wire
    /// format, and the payload bytes (absent for NULL).
    fn decode(ty: &PgTypeInfo, fmt: PgValueFormat, payload: Option<Vec<u8>>) -> (r: Result<
        Self,
        PgCodecError,
    >)
        ensures
            match Self::spec_decode(*ty, fmt, spec_opt_bytes(payload)) {
                Some(v) => r matches Ok(t) && t@ == v,
                None => r matches Err(e) && e == PgCodecError::MalformedValue,
            },
    ;
}

/// A dynamically typed field value covering this library's supported wire
/// types.  `Null` carries the OID of the type the NULL belongs to.
#[derive(Debug, Clone, PartialEq)]
pub enum PgValue {
    Null(u32),
    Bool(bool),
    Int4(i32),
    Text(Vec<u8>),
}

/// The mathematical view of a [`PgValue`].
pub ghost enum PgValueV {
    Null(u32),
    Bool(bool),
    Int4(i32),
    Text(Seq<u8>),
}

impl View for PgValue {
    type V = PgValueV;

    open spec fn view(&self) -> PgValueV {
        match self {
            PgValue::Null(o) => PgValueV::Null(*o),
            PgValue::Bool(b) => PgValueV::Bool(*b),
            PgValue::Int4(x) => PgValueV::Int4(*x),
            PgValue::Text(t) => PgValueV::Text(t@),
        }
    }
}

/// The type descriptor a value of the given view encodes under.
pub open spec fn spec_value_type_info(v: PgValueV) -> PgTypeInfo {
    match v {
        PgValueV::Null(o) => PgTypeInfo::spec_with_oid(o),
        PgValueV::Bool(_) => PgTypeInfo::spec_with_oid(BOOL_OID),
        PgValueV::Int4(_) => PgTypeInfo::spec_with_oid(INT4_OID),
        PgValueV::Text(_) => PgTypeInfo::spec_with_oid(TEXT_OID),
    }
}

/// The payload bytes a value of the given view encodes to (empty for NULL,
/// which writes no payload at all).
pub open spec fn spec_value_payload(v: PgValueV) -> Seq<u8> {
    match v {
        PgValueV::Null(_) => Seq::<u8>::empty(),
        PgValueV::Bool(b) => seq![if b { 1u8 } else { 0u8 }],
        PgValueV::Int4(x) => spec_be32(spec_word_of_i32(x)),
        PgValueV::Text(t) => t,
    }
}

/// The signed 32-bit value read big-endian from four bytes.
pub open spec fn spec_i32_from_be(p: Seq<u8>) -> i32
    recommends
        p.len() == 4,
{
    spec_i32_of_word(spec_u32_from_be(p)) as i32
}

impl PgEncode for PgValue {
    open spec fn spec_type_info(&self) -> PgTypeInfo {
        spec_value_type_info(self@)
    }

    open spec fn spec_is_null(&self) -> bool {
        self@ is Null
    }

    open spec fn spec_encoded(&self) -> Seq<u8> {
        spec_value_payload(self@)
    }

    fn type_info(&self) -> (t: PgTypeInfo) {
        match self {
            PgValue::Null(o) => PgTypeInfo::with_oid(*o),
            PgValue::Bool(_) => PgTypeInfo::with_oid(BOOL_OID),
            PgValue::Int4(_) => PgTypeInfo::with_oid(INT4_OID),
            PgValue::Text(_) => PgTypeInfo::with_oid(TEXT_OID),
        }
    }

    fn encode(&self, buf: &mut PgArgumentBuffer) -> (r: IsNull) {
        match self {
            PgValue::Null(_) => IsNull::Yes,
            PgValue::Bool(b) => {
                buf.push(if *b { 1 } else { 0 });
                assert(buf.bytes@ =~= old(buf).bytes@ + self.spec_encoded());
                IsNull::No
            },
            PgValue::Int4(x) => {
                buf.extend_u32_be(word_of_i32(*x));
                IsNull::No
            },
            PgValue::Text(t) => {
                buf.extend_bytes(t);
                IsNull::No
            },
        }
    }
}

impl PgDecode for PgValue {
    open spec fn spec_natural_type() -> PgTypeInfo {
        PgTypeInfo::spec_with_oid(0)
    }

    /// The dynamic value accepts every wire type.
    open spec fn spec_accepts(ty: PgTypeInfo) -> bool {
        true
    }

    open spec fn spec_decode(ty: PgTypeInfo, fmt: PgValueFormat, payload: Option<Seq<u8>>) -> Option<
        PgValueV,
    > {
        match fmt {
            PgValueFormat::Binary => match payload {
                None => Some(PgValueV::Null(ty.spec_oid())),
                Some(p) => {
                    let o = ty.spec_oid();
                    if o == BOOL_OID {
                        if p.len() == 1 && (p[0] == 0 || p[0] == 1) {
                            Some(PgValueV::Bool(p[0] == 1))
                        } else {
                            None
                        }
                    } else if o == INT4_OID {
                        if p.len() == 4 {
                            Some(PgValueV::Int4(spec_i32_from_be(p)))
                        } else {
                            None
                        }
                    } else if o == TEXT_OID {
                        Some(PgValueV::Text(p))
                    } else {
                        None
                    }
                },
            },
            PgValueFormat::Text => match payload {
                None => Some(PgValueV::Null(0)),
                Some(p) => Some(PgValueV::Text(p)),
            },
        }
    }

    fn natural_type() -> (t: PgTypeInfo) {
        PgTypeInfo::with_oid(0)
    }

    fn accepts(ty: &PgTypeInfo) -> (r: bool) {
        true
    }

    fn decode(ty: &PgTypeInfo, fmt: PgValueFormat, payload: Option<Vec<u8>>) -> (r: Result<
        PgValue,
        PgCodecError,
    >) {
        match fmt {
            PgValueFormat::Binary => match payload {
                None => Ok(PgValue::Null(ty.oid())),
                Some(p) => {
                    let o = ty.oid();
                    if o == BOOL_OID {
                        if p.len() == 1 && (p[0] == 0 || p[0] == 1) {
                            Ok(PgValue::Bool(p[0] == 1))
                        } else {
                            Err(PgCodecError::MalformedValue)
                        }
                    } else if o == INT4_OID {
                        if p.len() == 4 {
                            let u = read_be_u32(&p, 0);
                            assert(p@.subrange(0, 4) =~= p@);
                            Ok(PgValue::Int4(i32_of_word(u)))
                        } else {
                            Err(PgCodecError::MalformedValue)
                        }
                    } else if o == TEXT_OID {
                        Ok(PgValue::Text(p))
                    } else {
                        Err(PgCodecError::MalformedValue)
                    }
                },
            },
            PgValueFormat::Text => match payload {
                None => Ok(PgValue::Null(0)),
                Some(p) => Ok(PgValue::Text(p)),
            },
        }
    }
}

/// A value of a user-declared type known at encode time only by name: its
/// payload bytes are supplied ready-made, and encoding it writes a type hole
/// for the statement-preparation pass to fill in.
pub struct PgNamedValue {
    pub name: String,
    pub payload: Vec<u8>,
}

impl PgEncode for PgNamedValue {
    open spec fn spec_type_info(&self) -> PgTypeInfo {
        PgTypeInfo {
            ident: crate::type_info::PgTypeIdent::DeclareWithName(self.name),
            kind: crate::type_info::PgTypeKind::Simple,
        }
    }

    open spec fn spec_is_null(&self) -> bool {
        false
    }

    open spec fn spec_encoded(&self) -> Seq<u8> {
        self.payload@
    }

    fn type_info(&self) -> (t: PgTypeInfo) {
        PgTypeInfo {
            ident: crate::type_info::PgTypeIdent::DeclareWithName(self.name.clone()),
            kind: crate::type_info::PgTypeKind::Simple,
        }
    }

    fn encode(&self, buf: &mut PgArgumentBuffer) -> (r: IsNull) {
        buf.extend_bytes(&self.payload);
        IsNull::No
    }
}

impl PgEncode for i32 {
    open spec fn spec_type_info(&self) -> PgTypeInfo {
        PgTypeInfo::spec_with_oid(INT4_OID)
    }

    open spec fn spec_is_null(&self) -> bool {
        false
    }

    open spec fn spec_encoded(&self) -> Seq<u8> {
        spec_be32(spec_word_of_i32(*self))
    }

    fn type_info(&self) -> (t: PgTypeInfo) {
        PgTypeInfo::with_oid(INT4_OID)
    }

    fn encode(&self, buf: &mut PgArgumentBuffer) -> (r: IsNull) {
        buf.extend_u32_be(word_of_i32(*self));
        IsNull::No
    }
}

impl PgDecode for i32 {
    open spec fn spec_natural_type() -> PgTypeInfo {
        PgTypeInfo::spec_with_oid(INT4_OID)
    }

    /// A native integer accepts the four-byte integer wire type alone.
    open spec fn spec_accepts(ty: PgTypeInfo) -> bool {
        ty.spec_oid() == INT4_OID
    }

    open spec fn spec_decode(ty: PgTypeInfo, fmt: PgValueFormat, payload: Option<Seq<u8>>) -> Option<
        i32,
    > {
        match (fmt, payload) {
            (PgValueFormat::Binary, Some(p)) => if p.len() == 4 {
                Some(spec_i32_from_be(p))
            } else {
                None
            },
            _ => None,
        }
    }

    fn natural_type() -> (t: PgTypeInfo) {
        PgTypeInfo::with_oid(INT4_OID)
    }

    fn accepts(ty: &PgTypeInfo) -> (r: bool) {
        ty.oid() == INT4_OID
    }

    fn decode(ty: &PgTypeInfo, fmt: PgValueFormat, payload: Option<Vec<u8>>) -> (r: Result<
        i32,
        PgCodecError,
    >) {
        match (fmt, payload) {
            (PgValueFormat::Binary, Some(p)) => {
                if p.len() == 4 {
                    let u = read_be_u32(&p, 0);
                    assert(p@.subrange(0, 4) =~= p@);
                    Ok(i32_of_word(u))
                } else {
                    Err(PgCodecError::MalformedValue)
                }
            },
            _ => Err(PgCodecError::MalformedValue),
        }
    }
}

} // verus!
