//! TOML documents as the `toml` crate parses them, seen through the fields
//! this library reads: integers, strings, and anything else.

use vstd::prelude::*;

verus! {

#[verifier::external_type_specification]
#[verifier::external_body]
#[verifier::reject_recursive_types(K)]
#[verifier::reject_recursive_types(V)]
pub struct ExTomlMap<K, V>(toml::map::Map<K, V>);

#[verifier::external_type_specification]
#[verifier::external_body]
pub struct ExTomlValue(toml::Value);

#[verifier::external_type_specification]
#[verifier::external_body]
pub struct ExTomlDeError(toml::de::Error);

/// What a top-level value of a document is, as far as this library reads it.
pub enum FieldModel {
    Integer(int),
    Text(Seq<char>),
    Other,
}

/// A top-level value read out of a parsed document.
#[derive(Debug)]
pub enum FieldValue {
    Absent,
    Integer(i64),
    Text(String),
    Other,
}

/// The model of a looked-up value; `None` when the key is absent.
pub open spec fn field_model(v: FieldValue) -> Option<FieldModel> {
    match v {
        FieldValue::Absent => None,
        FieldValue::Integer(i) => Some(FieldModel::Integer(i as int)),
        FieldValue::Text(s) => Some(FieldModel::Text(s@)),
        FieldValue::Other => Some(FieldModel::Other),
    }
}

/// The top-level entries that `toml` parses out of a text, or `None` where it
/// rejects the text.
pub uninterp spec fn toml_parse_of(text: Seq<char>) -> Option<Map<Seq<char>, FieldModel>>;

/// The top-level entries of a parsed table.
pub uninterp spec fn table_fields(t: toml::Table) -> Map<Seq<char>, FieldModel>;

/// Looks up a key of a table of entries: `None` when it is absent.
pub open spec fn entry(fields: Map<Seq<char>, FieldModel>, key: Seq<char>) -> Option<FieldModel> {
    if fields.contains_key(key) {
        Some(fields[key])
    } else {
        None
    }
}

/// Relies on toml's `Table: FromStr`: the text parsed as one TOML document,
/// succeeding or failing on the text alone, with the entries it holds.
#[verifier::external_body]
pub(crate) fn parse_toml_table(text: &str) -> (r: Result<toml::Table, toml::de::Error>)
    ensures
        r is Ok <==> toml_parse_of(text@) is Some,
        r is Ok ==> toml_parse_of(text@) == Some(table_fields(r->Ok_0)),
{
    text.parse::<toml::Table>()
}

/// Relies on toml's `Map::get`: the value stored under `key`, if any, told
/// apart by its kind.
#[verifier::external_body]
pub(crate) fn table_field(t: &toml::Table, key: &str) -> (r: FieldValue)
    ensures
        field_model(r) == entry(table_fields(*t), key@),
{
    match t.get(key) {
        None => FieldValue::Absent,
        Some(toml::Value::Integer(i)) => FieldValue::Integer(*i),
        Some(toml::Value::String(s)) => FieldValue::Text(s.clone()),
        Some(_) => FieldValue::Other,
    }
}

} // verus!
