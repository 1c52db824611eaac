//! The laws this codec obeys, stated over the same specification functions
//! that the encoder's and decoder's contracts use and proved once for all
//! inputs.

use vstd::prelude::*;

use crate::bytes_be::{
    lemma_be32_round_trip, lemma_word_i32_round_trip, spec_be32, spec_i32_of_word,
    spec_u32_from_be,
};
use crate::record::{
    spec_binary_step, spec_field_bytes, spec_slot_is_null, spec_slot_len, spec_slot_oid,
    spec_slot_payload, spec_slot_size, spec_type_id_bytes, spec_wf_fields, DecodeStep,
};
use crate::type_info::{PgTypeCatalog, PgTypeInfo, PgTypeKind};
use crate::value::{spec_value_payload, spec_value_type_info, PgDecode, PgValue, PgValueFormat, PgValueV};

verus! {

/// A value this library can frame in one field slot: its payload length fits
/// a signed 32-bit length word.
pub open spec fn spec_value_wf(v: PgValueV) -> bool {
    spec_value_payload(v).len() <= 0x7fff_ffff
}

/// The wire bytes of one encoded field holding the given value.
pub open spec fn spec_value_field_bytes(v: PgValueV) -> Seq<u8> {
    spec_field_bytes(spec_value_type_info(v), v is Null, spec_value_payload(v))
}

/// The wire bytes of a sequence of encoded fields, in order.
pub open spec fn spec_fields_bytes(vs: Seq<PgValueV>) -> Seq<u8>
    decreases vs.len(),
{
    if vs.len() == 0 {
        Seq::<u8>::empty()
    } else {
        spec_value_field_bytes(vs[0]) + spec_fields_bytes(vs.skip(1))
    }
}

/// The complete binary record: the field count, then the fields.
pub open spec fn spec_record_bytes(vs: Seq<PgValueV>) -> Seq<u8> {
    spec_be32(vs.len() as u32) + spec_fields_bytes(vs)
}

/// The generic record type's descriptor.
pub open spec fn spec_record_type() -> PgTypeInfo {
    PgTypeInfo {
        ident: crate::type_info::PgTypeIdent::Oid(crate::type_info::RECORD_OID),
        kind: PgTypeKind::Simple,
    }
}

/// One dynamic-value decode step over a record-typed binary payload: what the
/// decoder's binary step hands to [`PgValue`]'s codec, and what comes back.
pub open spec fn spec_decode_step_value(catalog: PgTypeCatalog, w: Seq<u8>) -> Option<
    (PgValueV, int),
> {
    match spec_binary_step(
        spec_record_type(),
        catalog,
        w,
        0,
        (|t: PgTypeInfo| <PgValue as PgDecode>::spec_accepts(t)),
    ) {
        DecodeStep::Field { ty, payload, size } => match <PgValue as PgDecode>::spec_decode(
            ty,
            PgValueFormat::Binary,
            payload,
        ) {
            Some(v) => Some((v, size)),
            None => None,
        },
        _ => None,
    }
}

/// `n` successive dynamic-value decode steps: the values in order and the
/// bytes left over.
pub open spec fn spec_decode_values(catalog: PgTypeCatalog, w: Seq<u8>, n: nat) -> Option<
    (Seq<PgValueV>, Seq<u8>),
>
    decreases n,
{
    if n == 0 {
        Some((Seq::<PgValueV>::empty(), w))
    } else if w.len() == 0 {
        None
    } else {
        match spec_decode_step_value(catalog, w) {
            Some((v, size)) => match spec_decode_values(
                catalog,
                w.skip(size),
                (n - 1) as nat,
            ) {
                Some((tail, rest)) => Some((seq![v] + tail, rest)),
                None => None,
            },
            None => None,
        }
    }
}

/// The complete record's shape: its first four bytes read back as exactly
/// the field count, and what follows them is exactly the encoded fields —
/// the slice the decoder works on after it strips the count.
pub proof fn lemma_record_bytes(vs: Seq<PgValueV>)
    requires
        vs.len() <= u32::MAX,
    ensures
        spec_u32_from_be(spec_record_bytes(vs).subrange(0, 4)) == vs.len(),
        spec_record_bytes(vs).skip(4) == spec_fields_bytes(vs),
{
    lemma_be32_round_trip(vs.len() as u32);
    assert(spec_record_bytes(vs).subrange(0, 4) =~= spec_be32(vs.len() as u32));
    assert(spec_record_bytes(vs).skip(4) =~= spec_fields_bytes(vs));
}

/// One encoded field at the head of the working slice decodes back to the
/// value it was encoded from and consumes exactly its own bytes, whatever
/// follows it and whatever the (consistent) catalog resolves.
pub proof fn lemma_field_slot(v: PgValueV, rest: Seq<u8>, catalog: PgTypeCatalog)
    requires
        catalog.wf(),
        spec_value_wf(v),
    ensures
        spec_decode_step_value(catalog, spec_value_field_bytes(v) + rest) == Some(
            (v, spec_value_field_bytes(v).len() as int),
        ),
        spec_value_field_bytes(v).len() >= 8,
{
    let ti = spec_value_type_info(v);
    let o = ti.spec_oid();
    let null = v is Null;
    let pay = spec_value_payload(v);
    let fb = spec_value_field_bytes(v);
    let w = fb + rest;

    lemma_be32_round_trip(o);
    assert(spec_type_id_bytes(ti) == spec_be32(o));
    assert(w.subrange(0, 4) =~= spec_be32(o));
    assert(spec_slot_oid(w) == o);

    catalog.lemma_resolve_oid(o);

    if null {
        lemma_be32_round_trip(0xffff_ffffu32);
        assert(w.subrange(4, 8) =~= spec_be32(0xffff_ffffu32));
        assert(spec_slot_is_null(w));
        assert(spec_slot_size(w) == 8 == fb.len());
    } else {
        lemma_be32_round_trip(pay.len() as u32);
        assert(w.subrange(4, 8) =~= spec_be32(pay.len() as u32));
        assert(spec_slot_len(w) == pay.len());
        assert(!spec_slot_is_null(w));
        assert(w.subrange(8, 8 + pay.len() as int) =~= pay);
        assert(spec_slot_payload(w) == Some(pay));
        assert(spec_slot_size(w) == 8 + pay.len() == fb.len());
        if v is Int4 {
            lemma_word_i32_round_trip(v->Int4_0);
            lemma_be32_round_trip(crate::bytes_be::spec_word_of_i32(v->Int4_0));
        }
    }
}

/// Round-trip: encoding any sequence of supported values and then decoding
/// the resulting field bytes as dynamic values, against any consistent
/// catalog, yields exactly the original values in their original order and
/// consumes every byte.
pub proof fn lemma_record_round_trip(vs: Seq<PgValueV>, catalog: PgTypeCatalog)
    requires
        catalog.wf(),
        forall|i: int| 0 <= i < vs.len() ==> spec_value_wf(#[trigger] vs[i]),
    ensures
        spec_decode_values(catalog, spec_fields_bytes(vs), vs.len() as nat) == Some(
            (vs, Seq::<u8>::empty()),
        ),
    decreases vs.len(),
{
    if vs.len() == 0 {
        assert(vs =~= Seq::<PgValueV>::empty());
    } else {
        let v = vs[0];
        let fb = spec_value_field_bytes(v);
        let rest = spec_fields_bytes(vs.skip(1));
        let w = fb + rest;
        lemma_field_slot(v, rest, catalog);
        assert(w.skip(fb.len() as int) =~= rest);
        lemma_record_round_trip(vs.skip(1), catalog);
        assert(seq![v] + vs.skip(1) =~= vs);
    }
}

/// Exhaustion: a decode step on an exhausted working slice is the exhaustion
/// outcome, whatever the record's type, the catalog, the field index and the
/// target; together with the round trip above, decoding one more field than
/// was encoded fails at exactly the next index.
pub proof fn lemma_decode_exhausted(
    typ: PgTypeInfo,
    catalog: PgTypeCatalog,
    ind: int,
    accepts: spec_fn(PgTypeInfo) -> bool,
)
    ensures
        spec_binary_step(typ, catalog, Seq::<u8>::empty(), ind, accepts)
            == DecodeStep::Exhausted,
{
}

/// NULL sentinel: an encoded NULL field is its 4-byte type identifier and a
/// length word reading exactly -1, with no payload bytes at all.
pub proof fn lemma_null_sentinel(ti: PgTypeInfo, p: Seq<u8>)
    ensures
        spec_field_bytes(ti, true, p).len() == 8,
        spec_slot_is_null(spec_field_bytes(ti, true, p)),
        spec_i32_of_word(spec_slot_len(spec_field_bytes(ti, true, p))) == -1,
{
    let fb = spec_field_bytes(ti, true, p);
    lemma_be32_round_trip(0xffff_ffffu32);
    match ti.ident {
        crate::type_info::PgTypeIdent::Oid(o) => {
            lemma_be32_round_trip(o);
        },
        crate::type_info::PgTypeIdent::DeclareWithName(_) => {
            lemma_be32_round_trip(0);
        },
    }
    assert(fb.subrange(4, 8) =~= spec_be32(0xffff_ffffu32));
}

/// Field-count integrity: the 4-byte prefix backpatched by `finish` reads
/// back as exactly the number of fields encoded.
pub proof fn lemma_count_prefix(b: Seq<u8>, off: int, n: u32)
    requires
        0 <= off,
        off + 4 <= b.len(),
    ensures
        spec_u32_from_be(
            (b.subrange(0, off) + spec_be32(n) + b.subrange(off + 4, b.len() as int)).subrange(
                off,
                off + 4,
            ),
        ) == n,
{
    lemma_be32_round_trip(n);
    assert((b.subrange(0, off) + spec_be32(n) + b.subrange(off + 4, b.len() as int)).subrange(
        off,
        off + 4,
    ) =~= spec_be32(n));
}

/// Composite positional validation: where a composite's declared field type
/// at the current position disagrees with the OID embedded in the payload,
/// the decode step is the mismatch error — never a field handed to the
/// target's codec.
pub proof fn lemma_composite_mismatch(
    typ: PgTypeInfo,
    catalog: PgTypeCatalog,
    w: Seq<u8>,
    ind: int,
    accepts: spec_fn(PgTypeInfo) -> bool,
)
    requires
        w.len() > 0,
        typ.kind matches PgTypeKind::Composite(fields) && 0 <= ind < fields@.len()
            && fields@[ind].ty.spec_oid() != spec_slot_oid(w),
    ensures
        spec_binary_step(typ, catalog, w, ind, accepts) matches DecodeStep::OidMismatch {
            declared,
            found,
        } && found == spec_slot_oid(w) && declared == (match typ.kind {
            PgTypeKind::Composite(fields) => fields@[ind].ty.spec_oid(),
            _ => 0,
        }),
{
}

/// An encoded field sequence is a well-formed binary working slice: the
/// decoder can step over it slot by slot without running off the payload.
pub proof fn lemma_encoded_wf(vs: Seq<PgValueV>)
    requires
        forall|i: int| 0 <= i < vs.len() ==> spec_value_wf(#[trigger] vs[i]),
    ensures
        spec_wf_fields(spec_fields_bytes(vs)),
    decreases vs.len(),
{
    if vs.len() > 0 {
        let v = vs[0];
        let ti = spec_value_type_info(v);
        let pay = spec_value_payload(v);
        let fb = spec_value_field_bytes(v);
        let rest = spec_fields_bytes(vs.skip(1));
        let w = fb + rest;
        lemma_encoded_wf(vs.skip(1));
        match ti.ident {
            crate::type_info::PgTypeIdent::Oid(o) => {
                lemma_be32_round_trip(o);
            },
            crate::type_info::PgTypeIdent::DeclareWithName(_) => {
                lemma_be32_round_trip(0);
            },
        }
        if v is Null {
            lemma_be32_round_trip(0xffff_ffffu32);
            assert(w.subrange(4, 8) =~= spec_be32(0xffff_ffffu32));
            assert(w.skip(8) =~= rest);
        } else {
            lemma_be32_round_trip(pay.len() as u32);
            assert(w.subrange(4, 8) =~= spec_be32(pay.len() as u32));
            assert(w.skip(8 + pay.len() as int) =~= rest);
        }
    }
}

} // verus!
