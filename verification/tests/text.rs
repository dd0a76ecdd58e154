use once_decode::errors::ErrorKind;
use once_decode::formats::{decode_json, decode_toml, decode_yaml};
use once_decode::record::Inner;

const UUID_TEXT: &str = "c9959315-53eb-4f64-965a-957b4c1ef579";

fn uuid_value() -> u128 {
    uuid::Uuid::parse_str(UUID_TEXT).unwrap().as_u128()
}

#[test]
fn json_null_inner_gives_empty_cell() {
    let o = decode_json(r#"{"inner": null}"#).unwrap();
    assert!(!o.inner.is_filled());
}

#[test]
fn json_record_fills_cell() {
    let input = format!(r#"{{"inner": {{"f": 42.0, "u": "{}"}}}}"#, UUID_TEXT);
    let o = decode_json(&input).unwrap();
    assert_eq!(
        o.inner.read(),
        Some(&Inner { f_bits: 42.0f64.to_bits(), u: uuid_value() })
    );
}

#[test]
fn json_only_u_fails_missing_f() {
    let input = format!(r#"{{"inner": {{"u": "{}"}}}}"#, UUID_TEXT);
    let e = decode_json(&input).unwrap_err();
    assert_eq!(e.kind, ErrorKind::MissingField);
    assert_eq!(e.path, vec!["inner".to_string(), "f".to_string()]);
}

#[test]
fn json_only_f_fails_missing_u() {
    let e = decode_json(r#"{"inner": {"f": 1.5}}"#).unwrap_err();
    assert_eq!(e.kind, ErrorKind::MissingField);
    assert_eq!(e.path, vec!["inner".to_string(), "u".to_string()]);
}

#[test]
fn json_unknown_first_key_wins_over_valid_rest() {
    let input = format!(
        r#"{{"inner": {{"some": "field", "f": 3.14, "u": "{}"}}}}"#,
        UUID_TEXT
    );
    let e = decode_json(&input).unwrap_err();
    assert_eq!(e.kind, ErrorKind::UnknownField);
    assert_eq!(e.path, vec!["inner".to_string(), "some".to_string()]);
}

#[test]
fn json_repeated_f_key_takes_last_value() {
    let input = format!(
        r#"{{"inner": {{"f": 1.0, "f": 2.5, "u": "{}"}}}}"#,
        UUID_TEXT
    );
    let o = decode_json(&input).unwrap();
    assert_eq!(o.inner.read().unwrap().f_bits, 2.5f64.to_bits());
}

#[test]
fn json_text_under_f_is_type_mismatch() {
    let input = format!(r#"{{"inner": {{"f": "3.14", "u": "{}"}}}}"#, UUID_TEXT);
    let e = decode_json(&input).unwrap_err();
    assert_eq!(e.kind, ErrorKind::TypeMismatch);
    assert_eq!(e.path, vec!["inner".to_string(), "f".to_string()]);
}

#[test]
fn json_scalar_inner_is_type_mismatch() {
    let e = decode_json(r#"{"inner": "oops"}"#).unwrap_err();
    assert_eq!(e.kind, ErrorKind::TypeMismatch);
    assert_eq!(e.path, vec!["inner".to_string()]);
}

#[test]
fn json_malformed_identifier_is_syntax_error() {
    let e = decode_json(r#"{"inner": {"f": 1.0, "u": "not-an-identifier"}}"#).unwrap_err();
    assert_eq!(e.kind, ErrorKind::Syntax);
    assert_eq!(e.path, vec!["inner".to_string(), "u".to_string()]);
}

#[test]
fn json_malformed_document_is_syntax_error() {
    let e = decode_json("{").unwrap_err();
    assert_eq!(e.kind, ErrorKind::Syntax);
    assert!(e.path.is_empty());
}

#[test]
fn json_non_map_document_is_type_mismatch() {
    let e = decode_json("5").unwrap_err();
    assert_eq!(e.kind, ErrorKind::TypeMismatch);
    assert!(e.path.is_empty());
}

#[test]
fn json_missing_inner_key_is_refused() {
    let e = decode_json("{}").unwrap_err();
    assert_eq!(e.kind, ErrorKind::MissingField);
    assert_eq!(e.path, vec!["inner".to_string()]);
}

#[test]
fn json_round_trip_through_encoder() {
    let mut rec = serde_json::Map::new();
    rec.insert("f".to_string(), serde_json::Value::from(42.25f64));
    rec.insert(
        "u".to_string(),
        serde_json::Value::String(UUID_TEXT.to_string()),
    );
    let mut doc = serde_json::Map::new();
    doc.insert("inner".to_string(), serde_json::Value::Object(rec));
    let text = serde_json::to_string(&serde_json::Value::Object(doc)).unwrap();
    let o = decode_json(&text).unwrap();
    assert_eq!(
        o.inner.read(),
        Some(&Inner { f_bits: 42.25f64.to_bits(), u: uuid_value() })
    );

    let mut absent = serde_json::Map::new();
    absent.insert("inner".to_string(), serde_json::Value::Null);
    let text = serde_json::to_string(&serde_json::Value::Object(absent)).unwrap();
    assert!(!decode_json(&text).unwrap().inner.is_filled());
}

#[test]
fn json_round_trip_fresh_identifier() {
    let u = uuid::Uuid::new_v4();
    let input = format!(r#"{{"inner": {{"f": -7.5, "u": "{}"}}}}"#, u);
    let o = decode_json(&input).unwrap();
    assert_eq!(
        o.inner.read(),
        Some(&Inner { f_bits: (-7.5f64).to_bits(), u: u.as_u128() })
    );
}

#[test]
fn yaml_record_fills_cell() {
    let input = format!("inner:\n  f: 42.0\n  u: {}\n", UUID_TEXT);
    let o = decode_yaml(&input).unwrap();
    assert_eq!(
        o.inner.read(),
        Some(&Inner { f_bits: 42.0f64.to_bits(), u: uuid_value() })
    );
}

#[test]
fn yaml_null_inner_gives_empty_cell() {
    let o = decode_yaml("inner: null\n").unwrap();
    assert!(!o.inner.is_filled());
    let o = decode_yaml("inner:\n").unwrap();
    assert!(!o.inner.is_filled());
}

#[test]
fn yaml_unknown_first_key_is_reported() {
    let input = format!("inner:\n  some: field\n  f: 3.14\n  u: {}\n", UUID_TEXT);
    let e = decode_yaml(&input).unwrap_err();
    assert_eq!(e.kind, ErrorKind::UnknownField);
    assert_eq!(e.path, vec!["inner".to_string(), "some".to_string()]);
}

#[test]
fn yaml_integer_is_read_as_float() {
    let input = format!("inner:\n  f: 42\n  u: {}\n", UUID_TEXT);
    let o = decode_yaml(&input).unwrap();
    assert_eq!(o.inner.read().unwrap().f_bits, 42.0f64.to_bits());
}

#[test]
fn yaml_round_trip_through_encoder() {
    let mut rec = serde_yaml::Mapping::new();
    rec.insert(
        serde_yaml::Value::String("f".to_string()),
        serde_yaml::Value::from(42.25f64),
    );
    rec.insert(
        serde_yaml::Value::String("u".to_string()),
        serde_yaml::Value::String(UUID_TEXT.to_string()),
    );
    let mut doc = serde_yaml::Mapping::new();
    doc.insert(
        serde_yaml::Value::String("inner".to_string()),
        serde_yaml::Value::Mapping(rec),
    );
    let text = serde_yaml::to_string(&serde_yaml::Value::Mapping(doc)).unwrap();
    let o = decode_yaml(&text).unwrap();
    assert_eq!(
        o.inner.read(),
        Some(&Inner { f_bits: 42.25f64.to_bits(), u: uuid_value() })
    );
}

#[test]
fn toml_record_fills_cell() {
    let input = format!("[inner]\nf = 42.0\nu = \"{}\"\n", UUID_TEXT);
    let o = decode_toml(&input).unwrap();
    assert_eq!(
        o.inner.read(),
        Some(&Inner { f_bits: 42.0f64.to_bits(), u: uuid_value() })
    );
}

#[test]
fn toml_integer_is_read_as_float() {
    let input = format!("[inner]\nf = 42\nu = \"{}\"\n", UUID_TEXT);
    let o = decode_toml(&input).unwrap();
    assert_eq!(o.inner.read().unwrap().f_bits, 42.0f64.to_bits());
}

#[test]
fn toml_cannot_write_absence() {
    let e = decode_toml("").unwrap_err();
    assert_eq!(e.kind, ErrorKind::MissingField);
    assert_eq!(e.path, vec!["inner".to_string()]);
}

#[test]
fn toml_date_under_f_is_type_mismatch() {
    let input = format!("[inner]\nf = 1979-05-27\nu = \"{}\"\n", UUID_TEXT);
    let e = decode_toml(&input).unwrap_err();
    assert_eq!(e.kind, ErrorKind::TypeMismatch);
    assert_eq!(e.path, vec!["inner".to_string(), "f".to_string()]);
}

#[test]
fn toml_round_trip_through_encoder() {
    let mut rec = toml::map::Map::new();
    rec.insert("f".to_string(), toml::Value::Float(42.25));
    rec.insert("u".to_string(), toml::Value::String(UUID_TEXT.to_string()));
    let mut doc = toml::map::Map::new();
    doc.insert("inner".to_string(), toml::Value::Table(rec));
    let text = toml::to_string(&toml::Value::Table(doc)).unwrap();
    let o = decode_toml(&text).unwrap();
    assert_eq!(
        o.inner.read(),
        Some(&Inner { f_bits: 42.25f64.to_bits(), u: uuid_value() })
    );
}

#[test]
fn formats_agree_on_one_record() {
    let json = format!(r#"{{"inner": {{"f": 1.25, "u": "{}"}}}}"#, UUID_TEXT);
    let yaml = format!("inner:\n  f: 1.25\n  u: {}\n", UUID_TEXT);
    let toml_text = format!("[inner]\nf = 1.25\nu = \"{}\"\n", UUID_TEXT);
    let a = decode_json(&json).unwrap();
    let b = decode_yaml(&yaml).unwrap();
    let c = decode_toml(&toml_text).unwrap();
    assert_eq!(a, b);
    assert_eq!(b, c);
}
