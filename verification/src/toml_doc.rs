//! A TOML document as the configuration files hold it, and reading one from
//! text with the `toml` crate.
use vstd::prelude::*;

verus! {

/// A TOML value. A table keeps its keys in the order the parser hands them
/// out: sorted by key.
#[derive(Debug)]
pub enum TomlValue {
    Str(String),
    Integer(i64),
    /// A float, as written by the parser.
    Float(String),
    Bool(bool),
    /// A date or time, as written.
    Datetime(String),
    Array(Vec<TomlValue>),
    Table(Vec<(String, TomlValue)>),
}

pub open spec fn tstr(v: TomlValue) -> Option<Seq<char>> {
    match v {
        TomlValue::Str(s) => Some(s@),
        _ => None,
    }
}

pub open spec fn tbool(v: TomlValue) -> Option<bool> {
    match v {
        TomlValue::Bool(b) => Some(b),
        _ => None,
    }
}

impl TomlValue {
    pub fn as_str(&self) -> (r: Option<&str>)
        ensures
            match r {
                Some(s) => tstr(*self) == Some(s@),
                None => tstr(*self) is None,
            },
    {
        match self {
            TomlValue::Str(s) => Some(s.as_str()),
            _ => None,
        }
    }

    pub fn as_bool(&self) -> (r: Option<bool>)
        ensures
            r == tbool(*self),
    {
        match self {
            TomlValue::Bool(b) => Some(*b),
            _ => None,
        }
    }

    pub fn as_table(&self) -> (r: Option<&Vec<(String, TomlValue)>>)
        ensures
            match r {
                Some(t) => *self == TomlValue::Table(*t),
                None => !(*self is Table),
            },
    {
        match self {
            TomlValue::Table(t) => Some(t),
            _ => None,
        }
    }
}

#[verifier::external_type_specification]
#[verifier::external_body]
#[verifier::reject_recursive_types(K)]
#[verifier::reject_recursive_types(V)]
pub struct ExTomlMap<K, V>(toml::map::Map<K, V>);

#[verifier::external_type_specification]
#[verifier::external_body]
pub struct ExTomlValue(toml::Value);

/// The table that `toml::from_str` reads from a document's text; nothing
/// when the text is not TOML.
pub uninterp spec fn toml_table_of(content: Seq<char>) -> Option<TomlValue>;

/// `toml::from_str::<toml::Table>`: the document's root table, converted
/// value by value, or the parser's error text.
#[verifier::external_body]
fn toml_document(content: &str) -> (r: Result<TomlValue, String>)
    ensures
        match r {
            Ok(doc) => toml_table_of(content@) == Some(doc) && doc is Table,
            Err(_) => toml_table_of(content@) is None,
        },
{
    match toml::from_str::<toml::Table>(content) {
        Ok(table) => Ok(table_from_toml(&table)),
        Err(e) => Err(e.to_string()),
    }
}

/// Converts a parsed `toml::Table` value by value into a document table,
/// in the order the table iterates its keys (sorted).
#[verifier::external_body]
fn table_from_toml(table: &toml::Table) -> (r: TomlValue)
    ensures
        r is Table,
{
    TomlValue::Table(table.iter().map(|(k, v)| (k.clone(), value_from_toml(v))).collect())
}

/// Converts one parsed `toml::Value` into a document value.
#[verifier::external_body]
fn value_from_toml(v: &toml::Value) -> (r: TomlValue) {
    match v {
        toml::Value::String(s) => TomlValue::Str(s.clone()),
        toml::Value::Integer(n) => TomlValue::Integer(*n),
        toml::Value::Float(f) => TomlValue::Float(f.to_string()),
        toml::Value::Boolean(b) => TomlValue::Bool(*b),
        toml::Value::Datetime(d) => TomlValue::Datetime(d.to_string()),
        toml::Value::Array(items) => TomlValue::Array(items.iter().map(value_from_toml).collect()),
        toml::Value::Table(t) => table_from_toml(t),
    }
}

/// Reads a TOML document: its root table, or the parser's error text.
pub fn parse_toml_document(content: &str) -> (r: Result<TomlValue, String>)
    ensures
        match r {
            Ok(doc) => toml_table_of(content@) == Some(doc) && doc is Table,
            Err(_) => toml_table_of(content@) is None,
        },
{
    toml_document(content)
}

} // verus!
