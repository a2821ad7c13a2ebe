//! TOML documents as plain values, and reading and writing TOML text with `toml_edit`.
use vstd::prelude::*;

verus! {

#[verifier::external_type_specification]
#[verifier::external_body]
pub struct ExTomlItem(toml_edit::Item);

#[verifier::external_type_specification]
#[verifier::external_body]
pub struct ExTomlValue(toml_edit::Value);

/// A TOML value as plain data. A float keeps its TOML text (such as `1.0`, `2.5`, `1e3` or
/// `nan`) and a date-time its text; a table says whether it is implicit (written without a header of its own).
#[derive(Debug)]
pub enum TomlValue {
    Integer(i64),
    Boolean(bool),
    Str(String),
    Float(String),
    Datetime(String),
    Array(Vec<TomlValue>),
    InlineTable(Vec<(String, TomlValue)>),
    Table(bool, Vec<(String, TomlValue)>),
    ArrayOfTables(Vec<Vec<(String, TomlValue)>>),
}

/// The mathematical form of a TOML value.
pub enum TomlData {
    Integer(i64),
    Boolean(bool),
    Str(Seq<char>),
    Float(Seq<char>),
    Datetime(Seq<char>),
    Array(Seq<TomlData>),
    InlineTable(Seq<(Seq<char>, TomlData)>),
    Table(bool, Seq<(Seq<char>, TomlData)>),
    ArrayOfTables(Seq<Seq<(Seq<char>, TomlData)>>),
}

/// The entries of a table, as key and value.
pub open spec fn toml_entries_view(s: Seq<(String, TomlValue)>) -> Seq<(Seq<char>, TomlData)>
    decreases s,
{
    if s.len() == 0 {
        Seq::empty()
    } else {
        toml_entries_view(s.drop_last()).push((s.last().0@, toml_view(s.last().1)))
    }
}

/// The values of an array.
pub open spec fn toml_values_view(s: Seq<TomlValue>) -> Seq<TomlData>
    decreases s,
{
    if s.len() == 0 {
        Seq::empty()
    } else {
        toml_values_view(s.drop_last()).push(toml_view(s.last()))
    }
}

/// The tables of an array of tables.
pub open spec fn toml_tables_view(s: Seq<Vec<(String, TomlValue)>>) -> Seq<
    Seq<(Seq<char>, TomlData)>,
>
    decreases s,
{
    if s.len() == 0 {
        Seq::empty()
    } else {
        toml_tables_view(s.drop_last()).push(toml_entries_view(s.last()@))
    }
}

/// The mathematical form of a value.
pub open spec fn toml_view(v: TomlValue) -> TomlData
    decreases v,
{
    match v {
        TomlValue::Integer(i) => TomlData::Integer(i),
        TomlValue::Boolean(b) => TomlData::Boolean(b),
        TomlValue::Str(s) => TomlData::Str(s@),
        TomlValue::Float(s) => TomlData::Float(s@),
        TomlValue::Datetime(s) => TomlData::Datetime(s@),
        TomlValue::Array(a) => TomlData::Array(toml_values_view(a@)),
        TomlValue::InlineTable(t) => TomlData::InlineTable(toml_entries_view(t@)),
        TomlValue::Table(implicit, t) => TomlData::Table(implicit, toml_entries_view(t@)),
        TomlValue::ArrayOfTables(a) => TomlData::ArrayOfTables(toml_tables_view(a@)),
    }
}

impl View for TomlValue {
    type V = TomlData;

    open spec fn view(&self) -> TomlData {
        toml_view(*self)
    }
}

pub proof fn lemma_entries_view(s: Seq<(String, TomlValue)>)
    ensures
        toml_entries_view(s).len() == s.len(),
        forall|i: int|
            0 <= i < s.len() ==> #[trigger] toml_entries_view(s)[i] == (s[i].0@, toml_view(s[i].1)),
    decreases s.len(),
{
    if s.len() > 0 {
        lemma_entries_view(s.drop_last());
    }
}

pub proof fn lemma_values_view(s: Seq<TomlValue>)
    ensures
        toml_values_view(s).len() == s.len(),
        forall|i: int| 0 <= i < s.len() ==> #[trigger] toml_values_view(s)[i] == toml_view(s[i]),
    decreases s.len(),
{
    if s.len() > 0 {
        lemma_values_view(s.drop_last());
    }
}

/// The root table that `toml_edit` reads from a text, or `None` when the text is not a
/// TOML document.
pub uninterp spec fn toml_parse(text: Seq<char>) -> Option<Seq<(Seq<char>, TomlData)>>;

/// The text `toml_edit` writes for a document with the given root table.
pub uninterp spec fn toml_print(doc: Seq<(Seq<char>, TomlData)>) -> Seq<char>;

/// Converts one `toml_edit::Value` to a plain value, field for field.
#[verifier::external_body]
fn value_to_toml(v: &toml_edit::Value) -> TomlValue {
    match v {
        toml_edit::Value::String(s) => TomlValue::Str(s.value().clone()),
        toml_edit::Value::Integer(i) => TomlValue::Integer(*i.value()),
        toml_edit::Value::Float(f) => TomlValue::Float(f.display_repr().to_string()),
        toml_edit::Value::Boolean(b) => TomlValue::Boolean(*b.value()),
        toml_edit::Value::Datetime(d) => TomlValue::Datetime(d.value().to_string()),
        toml_edit::Value::Array(a) => TomlValue::Array(a.iter().map(value_to_toml).collect()),
        toml_edit::Value::InlineTable(t) => TomlValue::InlineTable(
            t.iter().map(|(k, v)| (k.to_string(), value_to_toml(v))).collect(),
        ),
    }
}

/// Converts one `toml_edit::Item` to a plain value, field for field; an empty item (which
/// the iterators of `toml_edit` never hand out) becomes an empty inline table.
#[verifier::external_body]
fn item_to_toml(item: &toml_edit::Item) -> TomlValue {
    match item {
        toml_edit::Item::Value(v) => value_to_toml(v),
        toml_edit::Item::Table(t) => TomlValue::Table(
            t.is_implicit(),
            t.iter().map(|(k, i)| (k.to_string(), item_to_toml(i))).collect(),
        ),
        toml_edit::Item::ArrayOfTables(a) => TomlValue::ArrayOfTables(
            a.iter().map(|t| t.iter().map(|(k, i)| (k.to_string(), item_to_toml(i))).collect()).collect(),
        ),
        toml_edit::Item::None => TomlValue::InlineTable(Vec::new()),
    }
}

/// Reads `text` with `toml_edit` (`DocumentMut::from_str`) and hands out its root table as
/// plain values. The contract names the result: it is `toml_parse` of the text, a
/// function of the text alone.
#[verifier::external_body]
pub(crate) fn parse_toml(text: &str) -> (r: Option<Vec<(String, TomlValue)>>)
    ensures
        match r {
            Some(t) => toml_parse(text@) == Some(toml_entries_view(t@)),
            None => toml_parse(text@) is None,
        },
{
    match text.parse::<toml_edit::DocumentMut>() {
        Ok(doc) => Some(doc.iter().map(|(k, i)| (k.to_string(), item_to_toml(i))).collect()),
        Err(_) => None,
    }
}

/// Converts a plain value to a `toml_edit::Value`; tables become inline tables. A float or
/// date-time is read back from its text as a TOML value; a text that does not read back is
/// written as a string.
#[verifier::external_body]
fn toml_to_value(v: &TomlValue) -> toml_edit::Value {
    match v {
        TomlValue::Integer(i) => toml_edit::Value::from(*i),
        TomlValue::Boolean(b) => toml_edit::Value::from(*b),
        TomlValue::Str(s) => toml_edit::Value::from(s.as_str()),
        TomlValue::Float(s) | TomlValue::Datetime(s) => {
            s.parse::<toml_edit::Value>().unwrap_or_else(|_| toml_edit::Value::from(s.as_str()))
        },
        TomlValue::Array(a) => array_to_value(a),
        TomlValue::InlineTable(t) | TomlValue::Table(_, t) => inline_to_value(t),
        TomlValue::ArrayOfTables(a) => a.iter().map(inline_to_value).collect::<toml_edit::Array>().into(),
    }
}

/// Converts plain values to a `toml_edit::Array` with `toml_edit`'s default layout
/// (`Array::fmt`).
#[verifier::external_body]
fn array_to_value(a: &Vec<TomlValue>) -> toml_edit::Value {
    let mut arr: toml_edit::Array = a.iter().map(toml_to_value).collect();
    arr.fmt();
    toml_edit::Value::Array(arr)
}

/// Converts table entries to a `toml_edit::InlineTable`.
#[verifier::external_body]
fn inline_to_value(t: &Vec<(String, TomlValue)>) -> toml_edit::Value {
    toml_edit::Value::InlineTable(t.iter().map(|(k, v)| (k.clone(), toml_to_value(v))).collect())
}

/// Converts a plain value to a `toml_edit::Item`: a table becomes a table (implicit when
/// it says so), an array of tables an array of tables, anything else a value.
#[verifier::external_body]
fn toml_to_item(v: &TomlValue) -> toml_edit::Item {
    match v {
        TomlValue::Table(implicit, t) => {
            let mut table: toml_edit::Table = t.iter().map(|(k, v)| (k.clone(), toml_to_item(v))).collect();
            table.set_implicit(*implicit);
            toml_edit::Item::Table(table)
        },
        TomlValue::ArrayOfTables(a) => toml_edit::Item::ArrayOfTables(
            a.iter().map(|t| t.iter().map(|(k, v)| (k.clone(), toml_to_item(v))).collect()).collect(),
        ),
        _ => toml_edit::Item::Value(toml_to_value(v)),
    }
}

/// Writes a document with the root table `doc` as text with `toml_edit`
/// (`DocumentMut::to_string`). The contract names the result: it is `toml_print` of the
/// table, a function of the table alone.
#[verifier::external_body]
pub(crate) fn print_toml(doc: &Vec<(String, TomlValue)>) -> (s: String)
    ensures
        s@ == toml_print(toml_entries_view(doc@)),
{
    let mut d = toml_edit::DocumentMut::new();
    doc.iter().for_each(|(k, v)| { d.insert(k, toml_to_item(v)); });
    d.to_string()
}

} // verus!
