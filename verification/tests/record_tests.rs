use pg_record::buffer::PgArgumentBuffer;
use pg_record::error::PgCodecError;
use pg_record::record::{PgRecordDecoder, PgRecordEncoder};
use pg_record::type_info::{
    PgCatalogEntry, PgField, PgTypeCatalog, PgTypeIdent, PgTypeInfo, PgTypeKind, BOOL_OID,
    INT4_OID, RECORD_OID, TEXT_OID,
};
use pg_record::value::{PgNamedValue, PgValue, PgValueFormat, PgValueRef};

fn record_type() -> PgTypeInfo {
    PgTypeInfo { ident: PgTypeIdent::Oid(RECORD_OID), kind: PgTypeKind::Simple }
}

fn empty_catalog() -> PgTypeCatalog {
    PgTypeCatalog { entries: Vec::new() }
}

fn push_be(out: &mut Vec<u8>, x: u32) {
    out.push(((x >> 24) & 0xff) as u8);
    out.push(((x >> 16) & 0xff) as u8);
    out.push(((x >> 8) & 0xff) as u8);
    out.push((x & 0xff) as u8);
}

fn binary_decoder(bytes: Vec<u8>, typ: PgTypeInfo) -> PgRecordDecoder {
    PgRecordDecoder::new(PgValueRef {
        type_info: typ,
        format: PgValueFormat::Binary,
        value: Some(bytes),
    })
    .unwrap()
}

fn text_decoder(bytes: &[u8]) -> PgRecordDecoder {
    PgRecordDecoder::new(PgValueRef {
        type_info: record_type(),
        format: PgValueFormat::Text,
        value: Some(bytes.to_vec()),
    })
    .unwrap()
}

#[test]
fn round_trip_binary_mixed_values() {
    let values = vec![
        PgValue::Int4(42),
        PgValue::Bool(true),
        PgValue::Text(b"hi there".to_vec()),
        PgValue::Null(BOOL_OID),
        PgValue::Int4(-7),
    ];
    let mut enc = PgRecordEncoder::new(PgArgumentBuffer::new());
    for v in &values {
        enc.encode(v);
    }
    enc.finish();
    let buf = enc.into_buffer();

    let catalog = empty_catalog();
    let mut dec = binary_decoder(buf.bytes, record_type());
    for v in &values {
        let got: PgValue = dec.try_decode(&catalog).unwrap();
        assert_eq!(&got, v);
    }
}

#[test]
fn round_trip_binary_empty_record() {
    let mut enc = PgRecordEncoder::new(PgArgumentBuffer::new());
    enc.finish();
    let buf = enc.into_buffer();
    assert_eq!(buf.bytes, vec![0u8, 0, 0, 0]);

    let catalog = empty_catalog();
    let mut dec = binary_decoder(buf.bytes, record_type());
    let got: Result<PgValue, PgCodecError> = dec.try_decode(&catalog);
    assert_eq!(got.unwrap_err(), PgCodecError::NoField { index: 0 });
}

#[test]
fn field_count_prefix_equals_number_of_encodes() {
    let mut enc = PgRecordEncoder::new(PgArgumentBuffer::new());
    enc.encode(&PgValue::Bool(false));
    enc.encode(&PgValue::Int4(5));
    enc.finish();
    let buf = enc.into_buffer();
    assert_eq!(&buf.bytes[0..4], &[0u8, 0, 0, 2]);
}

#[test]
fn field_count_prefix_left_zero_without_finish() {
    let mut enc = PgRecordEncoder::new(PgArgumentBuffer::new());
    enc.encode(&PgValue::Bool(false));
    let buf = enc.into_buffer();
    assert_eq!(&buf.bytes[0..4], &[0u8, 0, 0, 0]);
}

#[test]
fn null_sentinel_writes_minus_one_and_no_payload() {
    let mut enc = PgRecordEncoder::new(PgArgumentBuffer::new());
    enc.encode(&PgValue::Null(BOOL_OID));
    enc.finish();
    let buf = enc.into_buffer();

    let mut expected: Vec<u8> = Vec::new();
    push_be(&mut expected, 1);
    push_be(&mut expected, BOOL_OID);
    expected.extend_from_slice(&[0xff, 0xff, 0xff, 0xff]);
    assert_eq!(buf.bytes, expected);
}

#[test]
fn length_backpatch_does_not_corrupt_payload() {
    // a multi-byte field: the length patch must touch only its own 4 bytes
    let payload = b"0123456789abcdef".to_vec();
    let mut enc = PgRecordEncoder::new(PgArgumentBuffer::new());
    enc.encode(&PgValue::Text(payload.clone()));
    enc.finish();
    let buf = enc.into_buffer();

    let mut expected: Vec<u8> = Vec::new();
    push_be(&mut expected, 1);
    push_be(&mut expected, TEXT_OID);
    push_be(&mut expected, payload.len() as u32);
    expected.extend_from_slice(&payload);
    assert_eq!(buf.bytes, expected);
}

#[test]
fn exhaustion_reports_next_index() {
    let mut enc = PgRecordEncoder::new(PgArgumentBuffer::new());
    enc.encode(&PgValue::Int4(1));
    enc.encode(&PgValue::Int4(2));
    enc.finish();
    let buf = enc.into_buffer();

    let catalog = empty_catalog();
    let mut dec = binary_decoder(buf.bytes, record_type());
    let _: PgValue = dec.try_decode(&catalog).unwrap();
    let _: PgValue = dec.try_decode(&catalog).unwrap();
    let third: Result<PgValue, PgCodecError> = dec.try_decode(&catalog);
    assert_eq!(third.unwrap_err(), PgCodecError::NoField { index: 2 });
}

#[test]
fn text_three_plain_fields() {
    let catalog = empty_catalog();
    let mut dec = text_decoder(b"(1,2,3)");
    let a: PgValue = dec.try_decode(&catalog).unwrap();
    let b: PgValue = dec.try_decode(&catalog).unwrap();
    let c: PgValue = dec.try_decode(&catalog).unwrap();
    assert_eq!(a, PgValue::Text(b"1".to_vec()));
    assert_eq!(b, PgValue::Text(b"2".to_vec()));
    assert_eq!(c, PgValue::Text(b"3".to_vec()));
}

#[test]
fn text_two_empty_fields_are_null() {
    let catalog = empty_catalog();
    let mut dec = text_decoder(b"(,)");
    let a: PgValue = dec.try_decode(&catalog).unwrap();
    let b: PgValue = dec.try_decode(&catalog).unwrap();
    assert_eq!(a, PgValue::Null(0));
    assert_eq!(b, PgValue::Null(0));
}

#[test]
fn text_quoted_empty_is_not_null() {
    let catalog = empty_catalog();
    let mut dec = text_decoder(b"(\"\",)");
    let a: PgValue = dec.try_decode(&catalog).unwrap();
    let b: PgValue = dec.try_decode(&catalog).unwrap();
    assert_eq!(a, PgValue::Text(Vec::new()));
    assert_eq!(b, PgValue::Null(0));
}

#[test]
fn text_backslash_escapes_comma() {
    let catalog = empty_catalog();
    let mut dec = text_decoder(b"(a\\,b,c)");
    let a: PgValue = dec.try_decode(&catalog).unwrap();
    let b: PgValue = dec.try_decode(&catalog).unwrap();
    assert_eq!(a, PgValue::Text(b"a,b".to_vec()));
    assert_eq!(b, PgValue::Text(b"c".to_vec()));
}

#[test]
fn text_doubled_quote_escapes_quote() {
    let catalog = empty_catalog();
    let mut dec = text_decoder(b"(\"say \"\"hi\"\"\",x)");
    let a: PgValue = dec.try_decode(&catalog).unwrap();
    let b: PgValue = dec.try_decode(&catalog).unwrap();
    assert_eq!(a, PgValue::Text(b"say \"hi\"".to_vec()));
    assert_eq!(b, PgValue::Text(b"x".to_vec()));
}

fn composite_with_one_int4_field() -> PgTypeInfo {
    PgTypeInfo {
        ident: PgTypeIdent::Oid(30000),
        kind: PgTypeKind::Composite(vec![PgField {
            name: String::from("a"),
            ty: PgTypeInfo { ident: PgTypeIdent::Oid(INT4_OID), kind: PgTypeKind::Simple },
        }]),
    }
}

#[test]
fn composite_positional_mismatch_always_fails() {
    // the payload claims a bool where the declared field list says int4
    let mut bytes: Vec<u8> = Vec::new();
    push_be(&mut bytes, 1);
    push_be(&mut bytes, BOOL_OID);
    push_be(&mut bytes, 1);
    bytes.push(1);

    let catalog = empty_catalog();
    let mut dec = binary_decoder(bytes, composite_with_one_int4_field());
    let got: Result<PgValue, PgCodecError> = dec.try_decode(&catalog);
    assert_eq!(
        got.unwrap_err(),
        PgCodecError::CompositeMismatch { declared: INT4_OID, found: BOOL_OID }
    );
}

#[test]
fn composite_matching_position_decodes() {
    let mut bytes: Vec<u8> = Vec::new();
    push_be(&mut bytes, 1);
    push_be(&mut bytes, INT4_OID);
    push_be(&mut bytes, 4);
    push_be(&mut bytes, 42);

    let catalog = empty_catalog();
    let mut dec = binary_decoder(bytes, composite_with_one_int4_field());
    let got: i32 = dec.try_decode(&catalog).unwrap();
    assert_eq!(got, 42);
}

#[test]
fn non_composite_type_is_rejected() {
    let mut bytes: Vec<u8> = Vec::new();
    push_be(&mut bytes, 1);
    push_be(&mut bytes, INT4_OID);
    push_be(&mut bytes, 4);
    push_be(&mut bytes, 42);

    let plain = PgTypeInfo { ident: PgTypeIdent::Oid(INT4_OID), kind: PgTypeKind::Simple };
    let catalog = empty_catalog();
    let mut dec = binary_decoder(bytes, plain);
    let got: Result<PgValue, PgCodecError> = dec.try_decode(&catalog);
    assert_eq!(got.unwrap_err(), PgCodecError::NotComposite);
}

#[test]
fn acceptance_failure_names_both_types() {
    // the catalog resolves the embedded OID to bool, which i32 refuses
    let mut bytes: Vec<u8> = Vec::new();
    push_be(&mut bytes, 1);
    push_be(&mut bytes, BOOL_OID);
    push_be(&mut bytes, 1);
    bytes.push(1);

    let catalog = PgTypeCatalog {
        entries: vec![PgCatalogEntry {
            oid: BOOL_OID,
            ty: PgTypeInfo { ident: PgTypeIdent::Oid(BOOL_OID), kind: PgTypeKind::Simple },
        }],
    };
    let mut dec = binary_decoder(bytes, record_type());
    let got: Result<i32, PgCodecError> = dec.try_decode(&catalog);
    assert_eq!(
        got.unwrap_err(),
        PgCodecError::MismatchedTypes { target: INT4_OID, actual: BOOL_OID }
    );
}

#[test]
fn value_without_bytes_is_unexpected_null() {
    let got = PgRecordDecoder::new(PgValueRef {
        type_info: record_type(),
        format: PgValueFormat::Binary,
        value: None,
    });
    assert_eq!(got.err().unwrap(), PgCodecError::UnexpectedNull);
}

#[test]
fn short_int4_payload_is_malformed() {
    let mut bytes: Vec<u8> = Vec::new();
    push_be(&mut bytes, 1);
    push_be(&mut bytes, INT4_OID);
    push_be(&mut bytes, 3);
    bytes.extend_from_slice(&[9, 9, 9]);

    let catalog = empty_catalog();
    let mut dec = binary_decoder(bytes, record_type());
    let got: Result<PgValue, PgCodecError> = dec.try_decode(&catalog);
    assert_eq!(got.unwrap_err(), PgCodecError::MalformedValue);
}

#[test]
fn unknown_oid_decodes_under_bare_descriptor() {
    // a NULL of an OID the catalog does not know keeps that OID
    let mut bytes: Vec<u8> = Vec::new();
    push_be(&mut bytes, 1);
    push_be(&mut bytes, 60000);
    bytes.extend_from_slice(&[0xff, 0xff, 0xff, 0xff]);

    let catalog = empty_catalog();
    let mut dec = binary_decoder(bytes, record_type());
    let got: PgValue = dec.try_decode(&catalog).unwrap();
    assert_eq!(got, PgValue::Null(60000));
}

#[test]
fn type_hole_recorded_for_named_type() {
    let named = PgNamedValue { name: String::from("my_enum"), payload: vec![1, 2, 3] };
    let mut enc = PgRecordEncoder::new(PgArgumentBuffer::new());
    enc.encode(&named);
    enc.finish();
    let buf = enc.into_buffer();

    // the hole sits where the OID would have gone, right after the count
    assert_eq!(buf.type_holes.len(), 1);
    assert_eq!(buf.type_holes[0].offset, 4);
    assert_eq!(buf.type_holes[0].name, "my_enum");

    let mut expected: Vec<u8> = Vec::new();
    push_be(&mut expected, 1);
    push_be(&mut expected, 0);
    push_be(&mut expected, 3);
    expected.extend_from_slice(&[1, 2, 3]);
    assert_eq!(buf.bytes, expected);
}

#[test]
fn encoder_appends_after_existing_bytes() {
    let mut buf = PgArgumentBuffer::new();
    buf.push(0xaa);
    buf.push(0xbb);
    let mut enc = PgRecordEncoder::new(buf);
    enc.encode(&PgValue::Bool(true));
    enc.finish();
    let out = enc.into_buffer();

    assert_eq!(&out.bytes[0..2], &[0xaa, 0xbb]);
    assert_eq!(&out.bytes[2..6], &[0, 0, 0, 1]);
}

#[test]
fn i32_refuses_text_format() {
    let catalog = empty_catalog();
    let mut dec = text_decoder(b"(41)");
    let got: Result<i32, PgCodecError> = dec.try_decode(&catalog);
    assert_eq!(got.unwrap_err(), PgCodecError::MalformedValue);
}

#[test]
fn round_trip_with_catalog_resolution() {
    // every embedded OID resolves through the catalog on the way back
    let simple = |oid: u32| PgTypeInfo { ident: PgTypeIdent::Oid(oid), kind: PgTypeKind::Simple };
    let catalog = PgTypeCatalog {
        entries: vec![
            PgCatalogEntry { oid: BOOL_OID, ty: simple(BOOL_OID) },
            PgCatalogEntry { oid: INT4_OID, ty: simple(INT4_OID) },
            PgCatalogEntry { oid: TEXT_OID, ty: simple(TEXT_OID) },
        ],
    };

    let values = vec![
        PgValue::Bool(false),
        PgValue::Int4(123456),
        PgValue::Text(b"abc".to_vec()),
    ];
    let mut enc = PgRecordEncoder::new(PgArgumentBuffer::new());
    for v in &values {
        enc.encode(v);
    }
    enc.finish();

    let mut dec = binary_decoder(enc.into_buffer().bytes, record_type());
    for v in &values {
        let got: PgValue = dec.try_decode(&catalog).unwrap();
        assert_eq!(&got, v);
    }
}

#[test]
fn catalog_resolves_first_matching_entry() {
    let bool_ty = PgTypeInfo { ident: PgTypeIdent::Oid(BOOL_OID), kind: PgTypeKind::Simple };
    let catalog = PgTypeCatalog {
        entries: vec![PgCatalogEntry { oid: BOOL_OID, ty: bool_ty }],
    };
    assert_eq!(catalog.resolve(BOOL_OID).unwrap().oid(), BOOL_OID);
    assert!(catalog.resolve(TEXT_OID).is_none());
}
