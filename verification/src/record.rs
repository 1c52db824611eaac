//! The record encoder and decoder.
//!
//! Binary wire layout of a composite value, big-endian throughout:
//!
//! ```text
//! composite value := field_count : u32
//!                    field*      : { type_oid : u32 (or a type-hole placeholder),
//!                                    length   : i32,   // -1 means NULL
//!                                    payload  : byte[length] if length >= 0 }
//! ```
//!
//! The text layout is `'(' field (',' field)* ')'`, each field either empty
//! (NULL) or a run of literal, backslash-escaped and double-quoted
//! characters.

use vstd::prelude::*;

use crate::buffer::PgArgumentBuffer;
use crate::bytes_be::{copy_range, read_be_u32, spec_be32, spec_u32_from_be};
use crate::error::PgCodecError;
use crate::type_info::{PgTypeCatalog, PgTypeInfo, PgTypeKind};
use crate::value::{IsNull, PgDecode, PgEncode, PgValueFormat, PgValueRef};

verus! {

/// The wire bytes that identify a field's type: its OID, or a 4-byte
/// placeholder where the type is a named declaration whose OID is unresolved.
pub open spec fn spec_type_id_bytes(ti: PgTypeInfo) -> Seq<u8> {
    match ti.ident {
        crate::type_info::PgTypeIdent::Oid(o) => spec_be32(o),
        crate::type_info::PgTypeIdent::DeclareWithName(_) => spec_be32(0),
    }
}

/// The full wire bytes of one encoded field: type identifier, then a signed
/// length (-1 for NULL), then the payload.
pub open spec fn spec_field_bytes(ti: PgTypeInfo, null: bool, payload: Seq<u8>) -> Seq<u8> {
    spec_type_id_bytes(ti) + if null {
        spec_be32(0xffff_ffffu32)
    } else {
        spec_be32(payload.len() as u32) + payload
    }
}

/// Whether `after` holds exactly the type holes of `before` plus one new
/// hole, at `offset` and under `name`.
pub open spec fn spec_hole_added(
    before: PgArgumentBuffer,
    after: PgArgumentBuffer,
    offset: int,
    name: Seq<char>,
) -> bool {
    &&& after.type_holes@.len() == before.type_holes@.len() + 1
    &&& after.type_holes@.subrange(0, before.type_holes@.len() as int) == before.type_holes@
    &&& after.type_holes@.last().offset == offset
    &&& after.type_holes@.last().name@ == name
}

/// Appends a composite value's wire representation into a caller-owned
/// buffer: a 4-byte field-count placeholder reserved at construction, one
/// encoded field per `encode` call, and the count backpatched by `finish`.
pub struct PgRecordEncoder {
    pub buf: PgArgumentBuffer,
    pub off: usize,
    pub num: u32,
}

impl PgRecordEncoder {
    /// The count placeholder lies wholly inside the buffer.
    pub open spec fn wf(self) -> bool {
        self.off + 4 <= self.buf.bytes@.len()
    }

    /// Takes the destination buffer, reserves a 4-byte zero placeholder for
    /// the field count at its end, and starts the field counter at 0.
    pub fn new(buf: PgArgumentBuffer) -> (s: Self)
        ensures
            s.wf(),
            s.num == 0,
            s.off == buf.bytes@.len(),
            s.buf.bytes@ == buf.bytes@ + spec_be32(0),
            s.buf.type_holes@ == buf.type_holes@,
    {
        let off = buf.len();
        let mut buf = buf;
        buf.extend_u32_be(0);
        PgRecordEncoder { buf, off, num: 0 }
    }

    /// Gives the destination buffer back once encoding is finished.
    pub fn into_buffer(self) -> (r: PgArgumentBuffer)
        ensures
            r == self.buf,
    {
        self.buf
    }

    /// Encodes one field: the value's type identifier (a type hole where the
    /// type awaits resolution by name), a 4-byte length backpatched to the
    /// exact number of payload bytes the value codec appended (-1 for NULL),
    /// and the payload itself.  The field counter advances by one.
    pub fn encode<T: PgEncode>(&mut self, value: &T)
        requires
            old(self).wf(),
            old(self).num < u32::MAX,
            value.spec_encoded().len() <= 0x7fff_ffff,
            old(self).buf.bytes@.len() + value.spec_encoded().len() + 8 <= usize::MAX,
        ensures
            final(self).wf(),
            final(self).off == old(self).off,
            final(self).num == old(self).num + 1,
            final(self).buf.bytes@ == old(self).buf.bytes@ + spec_field_bytes(
                value.spec_type_info(),
                value.spec_is_null(),
                value.spec_encoded(),
            ),
            value.spec_type_info().ident matches crate::type_info::PgTypeIdent::DeclareWithName(n)
                ==> spec_hole_added(old(self).buf, final(self).buf, old(self).buf.bytes@.len() as int, n@),
            (value.spec_type_info().ident is Oid) ==> final(self).buf.type_holes@ == old(
                self,
            ).buf.type_holes@,
    {
        let ty = value.type_info();
        match ty.ident {
            crate::type_info::PgTypeIdent::DeclareWithName(name) => {
                // a hole for this type's identifier, filled in at execution
                self.buf.push_type_hole(name);
            },
            crate::type_info::PgTypeIdent::Oid(o) => {
                self.buf.extend_u32_be(o);
            },
        }

        // reserve the field's length, then let the value codec append
        let offset = self.buf.len();
        self.buf.extend_u32_be(0);

        let is_null = value.encode(&mut self.buf);

        // backpatch exactly the four reserved length bytes
        let size: u32 = match is_null {
            IsNull::Yes => 0xffff_ffffu32,
            IsNull::No => (self.buf.len() - offset - 4) as u32,
        };
        self.buf.patch_u32_be(offset, size);
        self.num = self.num + 1;

        proof {
            assert(self.buf.bytes@ =~= old(self).buf.bytes@ + spec_field_bytes(
                value.spec_type_info(),
                value.spec_is_null(),
                value.spec_encoded(),
            ));
        }
    }

    /// Backpatches the field-count placeholder reserved at construction with
    /// the number of `encode` calls made so far.
    pub fn finish(&mut self)
        requires
            old(self).wf(),
        ensures
            final(self).wf(),
            final(self).off == old(self).off,
            final(self).num == old(self).num,
            final(self).buf.type_holes@ == old(self).buf.type_holes@,
            final(self).buf.bytes@ == old(self).buf.bytes@.subrange(0, old(self).off as int)
                + spec_be32(old(self).num) + old(self).buf.bytes@.subrange(
                old(self).off + 4,
                old(self).buf.bytes@.len() as int,
            ),
            final(self).buf.bytes@.len() == old(self).buf.bytes@.len(),
    {
        self.buf.patch_u32_be(self.off, self.num);
    }
}

/// Well-formedness of a binary sequence of encoded fields: empty, or a full
/// field slot (4-byte OID, 4-byte signed length, payload of that length when
/// non-negative) followed by a well-formed remainder.  Bytes that break this
/// shape cannot be stepped over without running off the payload.
pub open spec fn spec_wf_fields(b: Seq<u8>) -> bool
    decreases b.len(),
{
    b.len() == 0 || (b.len() >= 8 && {
        let len_word = spec_u32_from_be(b.subrange(4, 8));
        if len_word >= 0x8000_0000 {
            spec_wf_fields(b.skip(8))
        } else if 8 + len_word <= b.len() {
            spec_wf_fields(b.skip(8 + len_word as int))
        } else {
            false
        }
    })
}

/// The OID of the next binary field slot.
pub open spec fn spec_slot_oid(w: Seq<u8>) -> u32
    recommends
        w.len() >= 8,
{
    spec_u32_from_be(w.subrange(0, 4))
}

/// The signed length word of the next binary field slot.
pub open spec fn spec_slot_len(w: Seq<u8>) -> u32
    recommends
        w.len() >= 8,
{
    spec_u32_from_be(w.subrange(4, 8))
}

/// A negative length word marks a NULL field.
pub open spec fn spec_slot_is_null(w: Seq<u8>) -> bool {
    spec_slot_len(w) >= 0x8000_0000
}

/// The payload of the next binary field slot: absent for NULL, otherwise
/// exactly the declared number of bytes.
pub open spec fn spec_slot_payload(w: Seq<u8>) -> Option<Seq<u8>> {
    if spec_slot_is_null(w) {
        None
    } else {
        Some(w.subrange(8, 8 + spec_slot_len(w) as int))
    }
}

/// How many bytes the next binary field slot occupies.
pub open spec fn spec_slot_size(w: Seq<u8>) -> int {
    if spec_slot_is_null(w) {
        8
    } else {
        8 + spec_slot_len(w) as int
    }
}

/// What one binary decode step does, before the target's own decode runs.
pub ghost enum DecodeStep {
    /// The working slice is exhausted.
    Exhausted,
    /// The record's descriptor is neither the generic record nor a composite.
    KindError,
    /// A composite's declared OID disagrees with the one in the payload.
    OidMismatch { declared: u32, found: u32 },
    /// The target refuses the resolved type.
    NotAccepted { expected: PgTypeInfo },
    /// A field slot is handed to the target's decode.
    Field { ty: PgTypeInfo, payload: Option<Seq<u8>>, size: int },
}

/// One binary decode step over the working slice `w` at field index `ind`:
/// resolve the embedded OID against the record's own descriptor and the
/// catalog, check acceptance, and carve out the payload.
pub open spec fn spec_binary_step(
    typ: PgTypeInfo,
    catalog: PgTypeCatalog,
    w: Seq<u8>,
    ind: int,
    accepts: spec_fn(PgTypeInfo) -> bool,
) -> DecodeStep {
    if w.len() == 0 {
        DecodeStep::Exhausted
    } else {
        let oid = spec_slot_oid(w);
        if typ.spec_is_record() {
            match catalog.spec_resolve(oid) {
                Some(ty) => if !accepts(ty) {
                    DecodeStep::NotAccepted { expected: ty }
                } else {
                    DecodeStep::Field { ty, payload: spec_slot_payload(w), size: spec_slot_size(w) }
                },
                None => DecodeStep::Field {
                    ty: PgTypeInfo::spec_with_oid(oid),
                    payload: spec_slot_payload(w),
                    size: spec_slot_size(w),
                },
            }
        } else {
            match typ.kind {
                PgTypeKind::Composite(fields) => {
                    let dty = fields@[ind].ty;
                    if dty.spec_oid() != oid {
                        DecodeStep::OidMismatch { declared: dty.spec_oid(), found: oid }
                    } else if !accepts(dty) {
                        DecodeStep::NotAccepted { expected: dty }
                    } else {
                        DecodeStep::Field {
                            ty: dty,
                            payload: spec_slot_payload(w),
                            size: spec_slot_size(w),
                        }
                    }
                },
                _ => DecodeStep::KindError,
            }
        }
    }
}

/// The result of scanning one text-format field: the unescaped field text,
/// whether any quote appeared in it, how many working bytes the scan
/// consumed, and whether it stopped at a delimiting comma (which is consumed
/// but not part of the text, and promises one further field).
pub ghost struct TextScan {
    pub elem: Seq<u8>,
    pub quoted: bool,
    pub consumed: int,
    pub comma: bool,
}

/// The text-field state machine, one byte per step: a backslash escapes the
/// next byte; a quote toggles the quoted span and a doubled quote appends a
/// literal one; an unquoted comma ends the field.
pub open spec fn spec_text_scan(
    w: Seq<u8>,
    elem: Seq<u8>,
    quoted: bool,
    in_quotes: bool,
    in_escape: bool,
    prev: u8,
    done: int,
) -> TextScan
    decreases w.len(),
{
    if w.len() == 0 {
        TextScan { elem, quoted, consumed: done, comma: false }
    } else {
        let ch = w[0];
        let rest = w.skip(1);
        if in_escape {
            spec_text_scan(rest, elem.push(ch), quoted, in_quotes, false, ch, done + 1)
        } else if ch == 34 && in_quotes {
            spec_text_scan(rest, elem, quoted, false, false, ch, done + 1)
        } else if ch == 34 {
            spec_text_scan(
                rest,
                if prev == 34 {
                    elem.push(34)
                } else {
                    elem
                },
                true,
                true,
                false,
                ch,
                done + 1,
            )
        } else if ch == 92 {
            spec_text_scan(rest, elem, quoted, in_quotes, true, ch, done + 1)
        } else if ch == 44 && !in_quotes {
            TextScan { elem, quoted, consumed: done + 1, comma: true }
        } else {
            spec_text_scan(rest, elem.push(ch), quoted, in_quotes, false, ch, done + 1)
        }
    }
}

/// The scan of one whole text field from the start of the working slice.
pub open spec fn spec_scan_field(w: Seq<u8>) -> TextScan {
    spec_text_scan(w, Seq::<u8>::empty(), false, false, false, 0, 0)
}

/// Decodes successive typed fields out of one received composite value.
/// Strictly forward-only and single-pass: each call to `try_decode` steps the
/// cursor past exactly one field.
pub struct PgRecordDecoder {
    pub buf: Vec<u8>,
    pub typ: PgTypeInfo,
    pub fmt: PgValueFormat,
    pub ind: usize,
    pub pos: usize,
    pub end: usize,
    /// Text format only: the last field's scan stopped at a delimiting
    /// comma, so one further field is owed even if no byte remains (a
    /// trailing comma delimits a trailing NULL field).
    pub pending: bool,
}

impl PgRecordDecoder {
    /// The working slice: the bytes not yet consumed.
    pub open spec fn working(self) -> Seq<u8> {
        self.buf@.subrange(self.pos as int, self.end as int)
    }

    /// The cursor stays inside the buffer; in binary format the remaining
    /// bytes are a well-formed field sequence.  The field index never runs
    /// far ahead of the cursor, so it cannot overflow.
    pub open spec fn wf(self) -> bool {
        &&& self.pos <= self.end <= self.buf@.len()
        &&& self.ind <= self.pos
        &&& self.fmt is Binary ==> spec_wf_fields(self.working())
        &&& self.fmt is Text && self.pending ==> self.ind < self.pos
        &&& self.fmt is Text && !self.pending && self.ind == self.pos ==> self.working().len()
            == 0
    }

    /// Wraps one received composite value: strips the leading 4-byte field
    /// count in binary format, or the enclosing parentheses in text format.
    /// A value without backing bytes is a decode error.
    pub fn new(value: PgValueRef) -> (r: Result<Self, PgCodecError>)
        requires
            value.value matches Some(b) ==> {
                &&& value.format is Binary ==> b@.len() >= 4 && spec_wf_fields(b@.skip(4))
                &&& value.format is Text ==> b@.len() >= 2
            },
        ensures
            value.value is None ==> (r matches Err(e) && e == PgCodecError::UnexpectedNull),
            value.value matches Some(b) ==> (r matches Ok(d) && {
                &&& d.typ == value.type_info
                &&& d.fmt == value.format
                &&& d.ind == 0
                &&& d.pending == false
                &&& d.wf()
                &&& (value.format is Binary ==> d.working() == b@.skip(4))
                &&& (value.format is Text ==> d.working() == b@.subrange(1, b@.len() - 1))
            }),
    {
        let fmt = value.format;
        let typ = value.type_info;
        match value.value {
            None => Err(PgCodecError::UnexpectedNull),
            Some(b) => {
                let n = b.len();
                match fmt {
                    PgValueFormat::Binary => {
                        // step over the leading field count, which is not
                        // validated against the catalog
                        let d = PgRecordDecoder {
                            buf: b,
                            typ,
                            fmt,
                            ind: 0,
                            pos: 4,
                            end: n,
                            pending: false,
                        };
                        proof {
                            assert(d.working() =~= d.buf@.skip(4));
                        }
                        Ok(d)
                    },
                    PgValueFormat::Text => {
                        // remove the enclosing parentheses
                        let d = PgRecordDecoder {
                            buf: b,
                            typ,
                            fmt,
                            ind: 0,
                            pos: 1,
                            end: n - 1,
                            pending: false,
                        };
                        Ok(d)
                    },
                }
            },
        }
    }

    /// Decodes the next field as `T`.
    ///
    /// On the binary path the embedded OID is resolved against the record's
    /// own descriptor — directly through the catalog for the generic record
    /// type, positionally against the declared field list for a composite —
    /// acceptance is checked, and the payload is handed to `T`'s codec.  On
    /// the text path one field is scanned out of the working slice and handed
    /// to `T`'s codec untyped; acceptance is deliberately not checked.
    pub fn try_decode<T: PgDecode>(&mut self, catalog: &PgTypeCatalog) -> (r: Result<
        T,
        PgCodecError,
    >)
        requires
            old(self).wf(),
            old(self).fmt is Binary && old(self).working().len() > 0 ==> (old(
                self,
            ).typ.kind matches PgTypeKind::Composite(fields) ==> old(self).ind < fields@.len()),
        ensures
            final(self).buf@ == old(self).buf@,
            final(self).typ == old(self).typ,
            final(self).fmt == old(self).fmt,
            final(self).end == old(self).end,
            final(self).wf(),
            old(self).fmt is Binary ==> final(self).pending == old(self).pending,
            old(self).fmt is Binary ==> (match spec_binary_step(
                old(self).typ,
                *catalog,
                old(self).working(),
                old(self).ind as int,
                (|t: PgTypeInfo| T::spec_accepts(t)),
            ) {
                DecodeStep::Exhausted => r matches Err(e) && e == (PgCodecError::NoField {
                    index: old(self).ind,
                }) && final(self).pos == old(self).pos && final(self).ind == old(self).ind,
                DecodeStep::KindError => r matches Err(e) && e == PgCodecError::NotComposite
                    && final(self).pos == old(self).pos && final(self).ind == old(self).ind,
                DecodeStep::OidMismatch { declared, found } => r matches Err(e) && e == (
                PgCodecError::CompositeMismatch { declared, found }) && final(self).pos == old(
                    self,
                ).pos && final(self).ind == old(self).ind,
                DecodeStep::NotAccepted { expected } => r matches Err(e) && e == (
                PgCodecError::MismatchedTypes {
                    target: T::spec_natural_type().spec_oid(),
                    actual: expected.spec_oid(),
                }) && final(self).pos == old(self).pos && final(self).ind == old(self).ind,
                DecodeStep::Field { ty, payload, size } => final(self).pos == old(self).pos + size
                    && final(self).ind == old(self).ind + 1 && (match T::spec_decode(
                    ty,
                    PgValueFormat::Binary,
                    payload,
                ) {
                    Some(v) => r matches Ok(t) && t@ == v,
                    None => r matches Err(e) && e == PgCodecError::MalformedValue,
                }),
            }),
            old(self).fmt is Text ==> ({
                let w = old(self).working();
                if w.len() == 0 && !old(self).pending {
                    r matches Err(e) && e == (PgCodecError::NoField { index: old(self).ind })
                        && final(self).pos == old(self).pos && final(self).ind == old(self).ind
                        && final(self).pending == old(self).pending
                } else {
                    let scan = spec_scan_field(w);
                    let payload = if scan.elem.len() == 0 && !scan.quoted {
                        None
                    } else {
                        Some(scan.elem)
                    };
                    &&& final(self).pos == old(self).pos + scan.consumed
                    &&& final(self).ind == old(self).ind + 1
                    &&& final(self).pending == scan.comma
                    &&& match T::spec_decode(
                        PgTypeInfo::spec_with_oid(0),
                        PgValueFormat::Text,
                        payload,
                    ) {
                        Some(v) => r matches Ok(t) && t@ == v,
                        None => r matches Err(e) && e == PgCodecError::MalformedValue,
                    }
                }
            }),
    {
        let ghost w0 = self.working();
        let exhausted = match self.fmt {
            PgValueFormat::Binary => self.pos == self.end,
            PgValueFormat::Text => self.pos == self.end && !self.pending,
        };
        if exhausted {
            proof {
                assert(w0.len() == 0);
            }
            return Err(PgCodecError::NoField { index: self.ind });
        }

        match self.fmt {
            PgValueFormat::Binary => {
                proof {
                    assert(w0.len() > 0);
                    assert(spec_wf_fields(w0));
                    assert(w0.len() >= 8);
                }
                let oid = read_be_u32(&self.buf, self.pos);
                proof {
                    assert(self.buf@.subrange(self.pos as int, self.pos + 4) =~= w0.subrange(
                        0,
                        4,
                    ));
                }

                // resolve the expected type for this position
                let is_rec = self.typ.is_record();
                let resolved: Option<&PgTypeInfo> = if is_rec {
                    // the generic record is untyped: no positional check is
                    // possible, the embedded OID alone names the type
                    catalog.resolve(oid)
                } else {
                    match &self.typ.kind {
                        PgTypeKind::Composite(fields) => {
                            let dty = &fields[self.ind].ty;
                            if dty.oid() != oid {
                                return Err(PgCodecError::CompositeMismatch {
                                    declared: dty.oid(),
                                    found: oid,
                                });
                            }
                            Some(dty)
                        },
                        _ => {
                            return Err(PgCodecError::NotComposite);
                        },
                    }
                };

                if let Some(ty) = resolved {
                    if !T::accepts(ty) {
                        let own = T::natural_type();
                        return Err(PgCodecError::MismatchedTypes {
                            target: own.oid(),
                            actual: ty.oid(),
                        });
                    }
                }

                let len_word = read_be_u32(&self.buf, self.pos + 4);
                proof {
                    assert(self.buf@.subrange(self.pos + 4, self.pos + 8) =~= w0.subrange(4, 8));
                }

                let payload: Option<Vec<u8>>;
                let size: usize;
                if len_word >= 0x8000_0000 {
                    // a negative length: the field is NULL, no payload bytes
                    payload = None;
                    size = 8;
                } else {
                    let l = len_word as usize;
                    assert(8 + l <= w0.len());
                    let piece = copy_range(&self.buf, self.pos + 8, self.pos + 8 + l);
                    proof {
                        assert(piece@ =~= w0.subrange(8, 8 + l));
                    }
                    payload = Some(piece);
                    size = 8 + l;
                }
                self.pos = self.pos + size;
                self.ind = self.ind + 1;
                proof {
                    assert(self.working() =~= w0.skip(spec_slot_size(w0)));
                    if spec_slot_is_null(w0) {
                        assert(spec_wf_fields(w0.skip(8)));
                    } else {
                        assert(spec_wf_fields(w0.skip(8 + spec_slot_len(w0) as int)));
                    }
                    assert(self.wf());
                }

                match resolved {
                    Some(ty) => T::decode(ty, PgValueFormat::Binary, payload),
                    None => {
                        // an OID the catalog does not know: accept it
                        // unconditionally under a bare descriptor
                        let bare = PgTypeInfo::with_oid(oid);
                        T::decode(&bare, PgValueFormat::Binary, payload)
                    },
                }
            },
            PgValueFormat::Text => {
                let ghost pos0 = self.pos;
                let mut element: Vec<u8> = Vec::new();
                let mut quoted = false;
                let mut in_quotes = false;
                let mut in_escape = false;
                let mut prev: u8 = 0;
                let mut ended_comma = false;

                while self.pos < self.end
                    invariant_except_break
                        ended_comma == false,
                        spec_scan_field(w0) == spec_text_scan(
                            self.working(),
                            element@,
                            quoted,
                            in_quotes,
                            in_escape,
                            prev,
                            self.pos - pos0,
                        ),
                    invariant
                        pos0 <= self.pos <= self.end <= self.buf@.len(),
                        self.buf@ == old(self).buf@,
                        self.typ == old(self).typ,
                        self.fmt == old(self).fmt,
                        self.end == old(self).end,
                        self.ind == old(self).ind,
                        self.pending == old(self).pending,
                    ensures
                        pos0 < self.end ==> pos0 < self.pos,
                        !ended_comma ==> self.pos == self.end,
                        spec_scan_field(w0) == (TextScan {
                            elem: element@,
                            quoted,
                            consumed: self.pos - pos0,
                            comma: ended_comma,
                        }),
                    decreases self.end - self.pos,
                {
                    let ghost w_here = self.working();
                    let ch = self.buf[self.pos];
                    self.pos = self.pos + 1;
                    proof {
                        assert(ch == w_here[0]);
                        assert(self.working() =~= w_here.skip(1));
                    }
                    if in_escape {
                        element.push(ch);
                        in_escape = false;
                    } else if ch == 34 && in_quotes {
                        in_quotes = false;
                    } else if ch == 34 {
                        in_quotes = true;
                        quoted = true;
                        if prev == 34 {
                            element.push(34);
                        }
                    } else if ch == 92 {
                        in_escape = true;
                    } else if ch == 44 && !in_quotes {
                        // the delimiting comma: consumed, not part of the
                        // field, and it promises one further field
                        ended_comma = true;
                        proof {
                            assert(spec_scan_field(w0) == (TextScan {
                                elem: element@,
                                quoted,
                                consumed: self.pos - pos0,
                                comma: true,
                            }));
                        }
                        break;
                    } else {
                        element.push(ch);
                    }
                    prev = ch;
                }

                self.ind = self.ind + 1;
                self.pending = ended_comma;

                // an empty, never-quoted field is NULL
                let payload: Option<Vec<u8>> = if element.len() == 0 && !quoted {
                    None
                } else {
                    Some(element)
                };

                // text fields are untyped at this layer: no catalog lookup
                // and no acceptance check
                let bare = PgTypeInfo::with_oid(0);
                T::decode(&bare, PgValueFormat::Text, payload)
            },
        }
    }
}

} // verus!
