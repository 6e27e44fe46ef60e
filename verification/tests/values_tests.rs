use strkt::values::{normalize_record, normalize_value, FieldValue, Record};

#[test]
fn test_normalize_string_passes_through_verbatim() {
    assert_eq!(
        normalize_value(&FieldValue::Str("  \"quoted\", spaced  ".to_string())),
        "  \"quoted\", spaced  "
    );
}

#[test]
fn test_normalize_scalars() {
    assert_eq!(normalize_value(&FieldValue::Num("30".to_string())), "30");
    assert_eq!(normalize_value(&FieldValue::Bool(true)), "true");
    assert_eq!(normalize_value(&FieldValue::Bool(false)), "false");
    assert_eq!(normalize_value(&FieldValue::Null), "null");
}

#[test]
fn test_normalize_composite_keeps_compact_json_text() {
    assert_eq!(
        normalize_value(&FieldValue::Composite("[1,2]".to_string())),
        "[1,2]"
    );
}

#[test]
fn test_normalize_record_keeps_keys_and_order() {
    let rec = Record {
        fields: vec![
            ("name".to_string(), FieldValue::Str("Alice".to_string())),
            ("age".to_string(), FieldValue::Num("30".to_string())),
            ("admin".to_string(), FieldValue::Bool(false)),
        ],
    };
    let n = normalize_record(&rec);
    assert_eq!(n.fields.len(), 3);
    assert_eq!(n.fields[0], ("name".to_string(), "Alice".to_string()));
    assert_eq!(n.fields[1], ("age".to_string(), "30".to_string()));
    assert_eq!(n.fields[2], ("admin".to_string(), "false".to_string()));
}

#[test]
fn test_normalize_empty_record() {
    let rec = Record { fields: vec![] };
    let n = normalize_record(&rec);
    assert_eq!(n.fields.len(), 0);
}
