use vstd::prelude::*;
use crate::adapter::{container_spec, decode_container, outer_models};
use crate::errors::{err_root, DecodeError, ErrModel, ErrorKind};
use crate::record::Outer;
use crate::value::WireValue;

verus! {

#[verifier::external_type_specification]
#[verifier::external_body]
pub struct ExJsonValue(serde_json::Value);

#[verifier::external_type_specification]
#[verifier::external_body]
pub struct ExYamlValue(serde_yaml::Value);

#[verifier::external_type_specification]
#[verifier::external_body]
pub struct ExTomlValue(toml::Value);

/// The wire value that the JSON reader yields for a given text, or
/// nothing where the text is not a well-formed document. The result
/// depends on the text alone.
pub uninterp spec fn json_value_of(s: Seq<char>) -> Option<WireValue>;

/// The wire value that the YAML reader yields for a given text, or
/// nothing where the text is not a well-formed document.
pub uninterp spec fn yaml_value_of(s: Seq<char>) -> Option<WireValue>;

/// The wire value that the TOML reader yields for a given text, or
/// nothing where the text is not a well-formed document.
pub uninterp spec fn toml_value_of(s: Seq<char>) -> Option<WireValue>;

/// The 128-bit identifier a text denotes in one of the accepted
/// encodings (canonical hyphenated form among them), or nothing where
/// the text is malformed. The result depends on the text alone.
pub uninterp spec fn uuid_of(s: Seq<char>) -> Option<u128>;

/// Relies on the shape of serde_json::Value: each node is carried over
/// variant by variant, a number as the bits of the 64-bit float it
/// denotes, object entries in document order.
#[verifier::external_body]
fn value_from_json(v: serde_json::Value) -> WireValue {
    match v {
        serde_json::Value::Null => WireValue::Null,
        serde_json::Value::Bool(b) => WireValue::Bool(b),
        serde_json::Value::Number(n) => n.as_f64().map_or(WireValue::Other, |x| WireValue::Num(x.to_bits())),
        serde_json::Value::String(t) => WireValue::Text(t),
        serde_json::Value::Array(a) => WireValue::List(a.into_iter().map(value_from_json).collect()),
        serde_json::Value::Object(m) => WireValue::Mapping(
            m.into_iter().map(|(k, w)| (WireValue::Text(k), value_from_json(w))).collect(),
        ),
    }
}

/// Relies on serde_json::from_str: whether a text parses, and to what
/// tree, depends on the text alone.
#[verifier::external_body]
fn parse_json_text(s: &str) -> (r: Option<WireValue>)
    ensures
        r == json_value_of(s@),
{
    serde_json::from_str::<serde_json::Value>(s).ok().map(value_from_json)
}

/// Relies on the shape of serde_yaml::Value: each node is carried over
/// variant by variant, mapping keys as whole values (a non-text key is
/// rejected later, by the walker), a tagged node as a value outside the
/// schema.
#[verifier::external_body]
fn value_from_yaml(v: serde_yaml::Value) -> WireValue {
    match v {
        serde_yaml::Value::Null => WireValue::Null,
        serde_yaml::Value::Bool(b) => WireValue::Bool(b),
        serde_yaml::Value::Number(n) => n.as_f64().map_or(WireValue::Other, |x| WireValue::Num(x.to_bits())),
        serde_yaml::Value::String(t) => WireValue::Text(t),
        serde_yaml::Value::Sequence(a) => WireValue::List(a.into_iter().map(value_from_yaml).collect()),
        serde_yaml::Value::Mapping(m) => WireValue::Mapping(
            m.into_iter().map(|(k, w)| (value_from_yaml(k), value_from_yaml(w))).collect(),
        ),
        serde_yaml::Value::Tagged(_) => WireValue::Other,
    }
}

/// Relies on serde_yaml::from_str: whether a text parses, and to what
/// tree, depends on the text alone.
#[verifier::external_body]
fn parse_yaml_text(s: &str) -> (r: Option<WireValue>)
    ensures
        r == yaml_value_of(s@),
{
    serde_yaml::from_str::<serde_yaml::Value>(s).ok().map(value_from_yaml)
}

/// Relies on the shape of toml::Value: each node is carried over
/// variant by variant. An integer is widened to the bits of the 64-bit
/// float it denotes (what a float field reads from it on this format);
/// serde_json::Number does the widening, as no float may be written
/// here. A date-time is a value outside the schema.
#[verifier::external_body]
fn value_from_toml(v: toml::Value) -> WireValue {
    match v {
        toml::Value::String(t) => WireValue::Text(t),
        toml::Value::Integer(i) => serde_json::Number::from(i).as_f64().map_or(
            WireValue::Other,
            |x| WireValue::Num(x.to_bits()),
        ),
        toml::Value::Float(x) => WireValue::Num(x.to_bits()),
        toml::Value::Boolean(b) => WireValue::Bool(b),
        toml::Value::Datetime(_) => WireValue::Other,
        toml::Value::Array(a) => WireValue::List(a.into_iter().map(value_from_toml).collect()),
        toml::Value::Table(m) => WireValue::Mapping(
            m.into_iter().map(|(k, w)| (WireValue::Text(k), value_from_toml(w))).collect(),
        ),
    }
}

/// Relies on toml::from_str: whether a text parses, and to what tree,
/// depends on the text alone. A well-formed TOML document is always a
/// table at the top; the format has no null scalar, so absence of the
/// optional field cannot be written in it — only a present record can.
#[verifier::external_body]
fn parse_toml_text(s: &str) -> (r: Option<WireValue>)
    ensures
        r == toml_value_of(s@),
{
    toml::from_str::<toml::Value>(s).ok().map(value_from_toml)
}

/// Relies on uuid::Uuid::try_parse (and as_u128): whether a text is a
/// well-formed identifier, and which 128-bit value it denotes, depend
/// on the text alone.
#[verifier::external_body]
pub(crate) fn parse_identifier(s: &str) -> (r: Option<u128>)
    ensures
        r == uuid_of(s@),
{
    uuid::Uuid::try_parse(s).ok().map(|u| u.as_u128())
}

/// Relies on uuid::Uuid::hyphenated (via from_u128): the canonical text
/// of an identifier, which uuid::Uuid::try_parse reads back to the same
/// 128-bit value.
#[verifier::external_body]
pub(crate) fn identifier_text(u: u128) -> (r: String)
    ensures
        uuid_of(r@) == Some(u),
{
    uuid::Uuid::from_u128(u).hyphenated().to_string()
}

/// What a text-level decode yields: the document's outcome where the
/// text parses under `parsed`, a syntax error of the whole document
/// where it does not.
pub open spec fn text_decode_models(
    parsed: Option<WireValue>,
    r: Result<Outer, DecodeError>,
) -> bool {
    match parsed {
        Some(v) => outer_models(r, container_spec(v)),
        None => r matches Err(e) && e@ == (ErrModel {
            kind: ErrorKind::Syntax,
            path: Seq::empty(),
        }),
    }
}

/// Decode a JSON document into a fresh container.
pub fn decode_json(s: &str) -> (r: Result<Outer, DecodeError>)
    ensures
        text_decode_models(json_value_of(s@), r),
{
    match parse_json_text(s) {
        Some(v) => decode_container(&v),
        None => Err(err_root(ErrorKind::Syntax)),
    }
}

/// Decode a YAML document into a fresh container.
pub fn decode_yaml(s: &str) -> (r: Result<Outer, DecodeError>)
    ensures
        text_decode_models(yaml_value_of(s@), r),
{
    match parse_yaml_text(s) {
        Some(v) => decode_container(&v),
        None => Err(err_root(ErrorKind::Syntax)),
    }
}

/// Decode a TOML document into a fresh container.
pub fn decode_toml(s: &str) -> (r: Result<Outer, DecodeError>)
    ensures
        text_decode_models(toml_value_of(s@), r),
{
    match parse_toml_text(s) {
        Some(v) => decode_container(&v),
        None => Err(err_root(ErrorKind::Syntax)),
    }
}

} // verus!
