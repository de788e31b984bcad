//! The bridge to the TOML parser.
//!
//! A configuration document is parsed by the `toml` crate into a table of
//! values. Verified code sees that table through a small set of trusted
//! wrappers whose contracts speak about `TomlNode`, a mathematical model of a
//! TOML value: strings, integers, booleans and nested tables are modelled
//! exactly, and every other TOML shape (floats, arrays, datetimes) is folded
//! into `TomlNode::Other`, which no schema in this crate accepts.

use vstd::prelude::*;

verus! {

/// The mathematical model of one TOML value.
pub enum TomlNode {
    /// A TOML string.
    Str(Seq<char>),
    /// A TOML integer.
    Int(i64),
    /// A TOML boolean.
    Bool(bool),
    /// A TOML table, keyed by its entry names.
    Table(Map<Seq<char>, TomlNode>),
    /// Any other TOML shape: float, array or datetime.
    Other,
}

/// A TOML document model: the top-level table, or `None` where the text is
/// not well-formed TOML.
pub type DocModel = Option<Map<Seq<char>, TomlNode>>;

/// What `toml::from_str` yields on a given text: the model of the top-level
/// table where the text is a well-formed TOML document, `None` otherwise.
pub uninterp spec fn doc_model(s: Seq<char>) -> DocModel;

/// What a `toml::Table` holds, as a map from entry name to value model.
pub uninterp spec fn table_model(t: toml::Table) -> Map<Seq<char>, TomlNode>;

/// The model of one `toml::Value`.
pub uninterp spec fn value_model(v: toml::Value) -> TomlNode;

#[verifier::external_type_specification]
#[verifier::external_body]
#[verifier::reject_recursive_types(K)]
#[verifier::reject_recursive_types(V)]
pub struct ExTomlMap<K, V>(toml::map::Map<K, V>);

#[verifier::external_type_specification]
#[verifier::external_body]
pub struct ExTomlValue(toml::Value);

/// Relies on `toml::from_str::<toml::Table>`: it parses TOML text into the
/// top-level table, and fails exactly on text that is not well-formed TOML.
#[verifier::external_body]
pub fn parse_document(s: &str) -> (r: Option<toml::Table>)
    ensures
        r is Some <==> doc_model(s@) is Some,
        r is Some ==> table_model(r->Some_0) == doc_model(s@)->Some_0,
{
    toml::from_str::<toml::Table>(s).ok()
}

/// Relies on `toml::map::Map::get`: it looks an entry up by name.
#[verifier::external_body]
pub fn table_get(t: &toml::Table, key: &str) -> (r: Option<toml::Value>)
    ensures
        r is Some <==> table_model(*t).dom().contains(key@),
        r is Some ==> value_model(r->Some_0) == table_model(*t)[key@],
{
    t.get(key).cloned()
}

/// Relies on `toml::Value::as_str`: it yields the string of a string value
/// and nothing of any other value.
#[verifier::external_body]
pub fn value_as_str(v: &toml::Value) -> (r: Option<String>)
    ensures
        r is Some <==> value_model(*v) is Str,
        r is Some ==> r->Some_0@ == value_model(*v)->Str_0,
{
    v.as_str().map(|s| s.to_owned())
}

/// Relies on `toml::Value::as_integer`: it yields the integer of an integer
/// value and nothing of any other value.
#[verifier::external_body]
pub fn value_as_integer(v: &toml::Value) -> (r: Option<i64>)
    ensures
        r is Some <==> value_model(*v) is Int,
        r is Some ==> r->Some_0 == value_model(*v)->Int_0,
{
    v.as_integer()
}

/// Relies on `toml::Value::as_bool`: it yields the boolean of a boolean
/// value and nothing of any other value.
#[verifier::external_body]
pub fn value_as_bool(v: &toml::Value) -> (r: Option<bool>)
    ensures
        r is Some <==> value_model(*v) is Bool,
        r is Some ==> r->Some_0 == value_model(*v)->Bool_0,
{
    v.as_bool()
}

/// Relies on `toml::Value::as_table`: it yields the table of a table value
/// and nothing of any other value.
#[verifier::external_body]
pub fn value_as_table(v: &toml::Value) -> (r: Option<toml::Table>)
    ensures
        r is Some <==> value_model(*v) is Table,
        r is Some ==> table_model(r->Some_0) == value_model(*v)->Table_0,
{
    v.as_table().cloned()
}

/// Looks a string entry up: yields it exactly where the table has an entry
/// of that name and the entry is a string.
pub fn get_str_entry(t: &toml::Table, key: &str) -> (r: Option<String>)
    ensures
        r is Some <==> str_entry(table_model(*t), key@) is Some,
        r is Some ==> Some(r->Some_0@) == str_entry(table_model(*t), key@),
{
    match table_get(t, key) {
        Some(v) => value_as_str(&v),
        None => None,
    }
}

/// The string entry named `key` of table model `m`, where there is one.
pub open spec fn str_entry(m: Map<Seq<char>, TomlNode>, key: Seq<char>) -> Option<Seq<char>> {
    if m.dom().contains(key) && m[key] is Str {
        Some(m[key]->Str_0)
    } else {
        None
    }
}

/// Looks an integer entry up: yields it exactly where the table has an entry
/// of that name and the entry is an integer.
pub fn get_int_entry(t: &toml::Table, key: &str) -> (r: Option<i64>)
    ensures
        r is Some <==> int_entry(table_model(*t), key@) is Some,
        r is Some ==> Some(r->Some_0) == int_entry(table_model(*t), key@),
{
    match table_get(t, key) {
        Some(v) => value_as_integer(&v),
        None => None,
    }
}

/// The integer entry named `key` of table model `m`, where there is one.
pub open spec fn int_entry(m: Map<Seq<char>, TomlNode>, key: Seq<char>) -> Option<i64> {
    if m.dom().contains(key) && m[key] is Int {
        Some(m[key]->Int_0)
    } else {
        None
    }
}

/// Looks a boolean entry up: yields it exactly where the table has an entry
/// of that name and the entry is a boolean.
pub fn get_bool_entry(t: &toml::Table, key: &str) -> (r: Option<bool>)
    ensures
        r is Some <==> bool_entry(table_model(*t), key@) is Some,
        r is Some ==> Some(r->Some_0) == bool_entry(table_model(*t), key@),
{
    match table_get(t, key) {
        Some(v) => value_as_bool(&v),
        None => None,
    }
}

/// The boolean entry named `key` of table model `m`, where there is one.
pub open spec fn bool_entry(m: Map<Seq<char>, TomlNode>, key: Seq<char>) -> Option<bool> {
    if m.dom().contains(key) && m[key] is Bool {
        Some(m[key]->Bool_0)
    } else {
        None
    }
}

/// Looks a sub-table entry up: yields it exactly where the table has an
/// entry of that name and the entry is a table.
pub fn get_table_entry(t: &toml::Table, key: &str) -> (r: Option<toml::Table>)
    ensures
        r is Some <==> table_entry(table_model(*t), key@) is Some,
        r is Some ==> Some(table_model(r->Some_0)) == table_entry(table_model(*t), key@),
{
    match table_get(t, key) {
        Some(v) => value_as_table(&v),
        None => None,
    }
}

/// The table entry named `key` of table model `m`, where there is one.
pub open spec fn table_entry(m: Map<Seq<char>, TomlNode>, key: Seq<char>) -> Option<
    Map<Seq<char>, TomlNode>,
> {
    if m.dom().contains(key) && m[key] is Table {
        Some(m[key]->Table_0)
    } else {
        None
    }
}

} // verus!
