use ferro_core::decode::{
    decode_cell, decode_row, row_key, structured_value, RawCell, RawFloat, RustValue,
};
use ferro_core::json::Json;
use ferro_core::schema::SchemaDocument;

fn empty() -> RawCell {
    RawCell { integer: None, float: None, text: None, bytes: None, boolean: None }
}

fn integer(i: i64) -> RawCell {
    RawCell { integer: Some(i), ..empty() }
}

fn text(t: &str) -> RawCell {
    RawCell { text: Some(t.to_string()), ..empty() }
}

fn float(f: f64) -> RawCell {
    RawCell { float: Some(RawFloat { bits: f.to_bits(), text: f.to_string() }), ..empty() }
}

fn schema() -> SchemaDocument {
    SchemaDocument::from_json(
        &Json::parse(
            r#"{"properties": {
                "active": {"type": "boolean"},
                "maybe": {"anyOf": [{"type": "boolean"}, {"type": "null"}]},
                "price": {"anyOf": [{"type": "number"}, {"type": "string", "pattern": "^[0-9.]+$"}]},
                "photo": {"type": "string", "format": "binary"},
                "seen": {"type": "string", "format": "date-time"},
                "born": {"type": "string", "format": "date"},
                "uid": {"type": "string", "format": "uuid"},
                "meta": {"type": "object"},
                "tags": {"anyOf": [{"type": "null"}, {"type": "array"}]},
                "age": {"type": "integer"},
                "name": {"type": "string"}
            }}"#,
        )
        .unwrap(),
    )
    .unwrap()
}

#[test]
fn integer_on_boolean_column_is_a_boolean() {
    let s = schema();
    assert_eq!(decode_cell(s.column("active"), &integer(0)), RustValue::Bool(false));
    assert_eq!(decode_cell(s.column("active"), &integer(1)), RustValue::Bool(true));
    assert_eq!(decode_cell(s.column("active"), &integer(-7)), RustValue::Bool(true));
    assert_eq!(decode_cell(s.column("maybe"), &integer(1)), RustValue::Bool(true));
    assert_eq!(decode_cell(s.column("age"), &integer(1)), RustValue::BigInt(1));
}

#[test]
fn decimal_column_keeps_its_text() {
    let s = schema();
    assert_eq!(decode_cell(s.column("price"), &text("12.50")), RustValue::Decimal("12.50".to_string()));
    assert_eq!(decode_cell(s.column("price"), &float(12.5)), RustValue::Decimal("12.5".to_string()));
    let both = RawCell { text: Some("0.10".to_string()), ..float(0.1) };
    assert_eq!(decode_cell(s.column("price"), &both), RustValue::Decimal("0.10".to_string()));
    assert_eq!(decode_cell(s.column("price"), &integer(3)), RustValue::Null);
    assert_eq!(decode_cell(s.column("price"), &empty()), RustValue::Null);
}

#[test]
fn binary_column_is_always_a_blob() {
    let s = schema();
    let bytes = RawCell { bytes: Some(vec![0, 255, 7]), ..empty() };
    assert_eq!(decode_cell(s.column("photo"), &bytes), RustValue::Blob(vec![0, 255, 7]));
    assert_eq!(decode_cell(s.column("photo"), &text("hé")), RustValue::Blob(vec![0x68, 0xc3, 0xa9]));
    assert_eq!(decode_cell(s.column("photo"), &integer(5)), RustValue::Null);
}

#[test]
fn formats_tag_text_values() {
    let s = schema();
    assert_eq!(
        decode_cell(s.column("seen"), &text("2024-01-02T03:04:05Z")),
        RustValue::DateTime("2024-01-02T03:04:05Z".to_string())
    );
    assert_eq!(decode_cell(s.column("born"), &text("2024-01-02")), RustValue::Date("2024-01-02".to_string()));
    assert_eq!(
        decode_cell(s.column("uid"), &text("6f9619ff-8b86-d011-b42d-00cf4fc964ff")),
        RustValue::Uuid("6f9619ff-8b86-d011-b42d-00cf4fc964ff".to_string())
    );
    assert_eq!(decode_cell(s.column("name"), &text("2024-01-02")), RustValue::String("2024-01-02".to_string()));
}

#[test]
fn object_and_array_columns_parse_their_text() {
    let s = schema();
    assert_eq!(
        decode_cell(s.column("meta"), &text(r#"{"a": 1}"#)),
        RustValue::Json(Json::Object(vec![("a".to_string(), Json::integer(1))]))
    );
    assert_eq!(
        decode_cell(s.column("tags"), &text("[true, null]")),
        RustValue::Json(Json::Array(vec![Json::Bool(true), Json::Null]))
    );
    assert_eq!(decode_cell(s.column("meta"), &text("{oops")), RustValue::String("{oops".to_string()));
    assert_eq!(decode_cell(s.column("name"), &text("[1]")), RustValue::String("[1]".to_string()));
}

#[test]
fn cells_without_hints_go_through_the_cascade() {
    assert_eq!(decode_cell(None, &integer(4)), RustValue::BigInt(4));
    assert_eq!(decode_cell(None, &float(1.25)), RustValue::Double(1.25f64.to_bits()));
    assert_eq!(decode_cell(None, &text("x")), RustValue::String("x".to_string()));
    let bytes = RawCell { bytes: Some(vec![1]), ..empty() };
    assert_eq!(decode_cell(None, &bytes), RustValue::Blob(vec![1]));
    let boolean = RawCell { boolean: Some(true), ..empty() };
    assert_eq!(decode_cell(None, &boolean), RustValue::Bool(true));
    assert_eq!(decode_cell(None, &empty()), RustValue::Null);
}

#[test]
fn cascade_prefers_integer_then_float_then_text_then_blob_then_boolean() {
    let all = RawCell {
        integer: Some(1),
        float: Some(RawFloat { bits: 2.0f64.to_bits(), text: "2".to_string() }),
        text: Some("3".to_string()),
        bytes: Some(vec![4]),
        boolean: Some(false),
    };
    assert_eq!(decode_cell(None, &all), RustValue::BigInt(1));
    let rest = RawCell { integer: None, ..all.clone() };
    assert_eq!(decode_cell(None, &rest), RustValue::Double(2.0f64.to_bits()));
    let rest = RawCell { float: None, ..rest };
    assert_eq!(decode_cell(None, &rest), RustValue::String("3".to_string()));
    let rest = RawCell { text: None, ..rest };
    assert_eq!(decode_cell(None, &rest), RustValue::Blob(vec![4]));
    let rest = RawCell { bytes: None, ..rest };
    assert_eq!(decode_cell(None, &rest), RustValue::Bool(false));
}

#[test]
fn rows_keep_their_column_order() {
    let s = schema();
    let row = vec![
        ("name".to_string(), text("ann")),
        ("active".to_string(), integer(1)),
        ("unknown".to_string(), integer(1)),
        ("price".to_string(), text("1.00")),
    ];
    assert_eq!(
        decode_row(Some(&s), &row),
        vec![
            ("name".to_string(), RustValue::String("ann".to_string())),
            ("active".to_string(), RustValue::Bool(true)),
            ("unknown".to_string(), RustValue::BigInt(1)),
            ("price".to_string(), RustValue::Decimal("1.00".to_string())),
        ]
    );
    assert_eq!(
        decode_row(None, &row)[1],
        ("active".to_string(), RustValue::BigInt(1))
    );
    assert!(decode_row(Some(&s), &Vec::new()).is_empty());
}

#[test]
fn row_key_is_canonical_text() {
    assert_eq!(row_key(&integer(42)), Some("42".to_string()));
    assert_eq!(row_key(&integer(-1)), Some("-1".to_string()));
    assert_eq!(row_key(&text("abc")), Some("abc".to_string()));
    assert_eq!(row_key(&float(1.0)), None);
    assert_eq!(row_key(&empty()), None);
}

#[test]
fn structured_text_keeps_the_document_or_the_text() {
    assert_eq!(structured_value(&"[1]".to_string(), Some(Json::Null)), RustValue::Json(Json::Null));
    assert_eq!(structured_value(&"oops".to_string(), None), RustValue::String("oops".to_string()));
}
