//! The TOML documents this library reads and writes, as the `toml` crate holds them.

use vstd::prelude::*;

verus! {

/// What a TOML value amounts to for this library: text, an integer, a table of
/// further values, or anything else (a float, a boolean, a date, an array).
pub enum TomlNode {
    Text(Seq<char>),
    Integer(int),
    Table(Map<Seq<char>, TomlNode>),
    Other,
}

/// `toml::map::Map`, of which `toml::Table` is the instance with `String`
/// keys and `toml::Value` values. Nothing of its inside is known here.
#[verifier::external_type_specification]
#[verifier::external_body]
#[verifier::reject_recursive_types(K)]
#[verifier::reject_recursive_types(V)]
pub struct ExTomlMap<K, V>(toml::map::Map<K, V>);

/// `toml::Value`. Nothing of its inside is known here.
#[verifier::external_type_specification]
#[verifier::external_body]
pub struct ExTomlValue(toml::Value);

/// `toml::de::Error`, the parser's error.
#[verifier::external_type_specification]
#[verifier::external_body]
pub struct ExTomlDeError(toml::de::Error);

/// `toml::ser::Error`, the serializer's error.
#[verifier::external_type_specification]
#[verifier::external_body]
pub struct ExTomlSerError(toml::ser::Error);

/// The entries of a table, each value reduced to a `TomlNode`.
pub uninterp spec fn table_entries(table: toml::Table) -> Map<Seq<char>, TomlNode>;

/// A value, reduced to a `TomlNode`.
pub uninterp spec fn value_node(value: toml::Value) -> TomlNode;

/// The message a parse error displays.
pub uninterp spec fn parse_fault(error: toml::de::Error) -> Seq<char>;

/// What parsing a text as a TOML document gives: the root table's entries, or
/// the parser's message.
pub uninterp spec fn toml_parse(text: Seq<char>) -> Result<Map<Seq<char>, TomlNode>, Seq<char>>;

/// `toml::from_str` at type `toml::Table`: parses a whole document. The result
/// depends on the text alone.
#[verifier::external_body]
pub(crate) fn parse_table(text: &str) -> (r: Result<toml::Table, toml::de::Error>)
    ensures
        match r {
            Ok(table) => toml_parse(text@) == Ok::<Map<Seq<char>, TomlNode>, Seq<char>>(
                table_entries(table),
            ),
            Err(error) => toml_parse(text@) == Err::<Map<Seq<char>, TomlNode>, Seq<char>>(
                parse_fault(error),
            ),
        },
{
    toml::from_str::<toml::Table>(text)
}

/// `Display` of `toml::de::Error`, through `to_string`.
#[verifier::external_body]
pub(crate) fn parse_fault_text(error: &toml::de::Error) -> (text: String)
    ensures
        text@ == parse_fault(*error),
{
    error.to_string()
}

/// `toml::map::Map::get` with a `str` key: the value under the key, if the
/// table has that key.
#[verifier::external_body]
pub(crate) fn table_get<'a>(table: &'a toml::Table, key: &str) -> (r: Option<&'a toml::Value>)
    ensures
        match r {
            Some(value) => table_entries(*table).contains_key(key@)
                && table_entries(*table)[key@] == value_node(*value),
            None => !table_entries(*table).contains_key(key@),
        },
{
    table.get(key)
}

/// `toml::Value::as_str`: the text of a string value, `None` for any other.
pub assume_specification<'a>[ toml::Value::as_str ](value: &'a toml::Value) -> (r: Option<&'a str>)
    ensures
        match r {
            Some(text) => value_node(*value) == TomlNode::Text(text@),
            None => !(value_node(*value) is Text),
        },
;

/// `toml::Value::as_integer`: the number of an integer value, `None` for any other.
pub assume_specification[ toml::Value::as_integer ](value: &toml::Value) -> (r: Option<i64>)
    ensures
        match r {
            Some(number) => value_node(*value) == TomlNode::Integer(number as int),
            None => !(value_node(*value) is Integer),
        },
;

/// `toml::Value::as_table`: the table of a table value, `None` for any other.
pub assume_specification<'a>[ toml::Value::as_table ](value: &'a toml::Value) -> (r: Option<
    &'a toml::Table,
>)
    ensures
        match r {
            Some(table) => value_node(*value) == TomlNode::Table(table_entries(*table)),
            None => !(value_node(*value) is Table),
        },
;

/// The message a serialization error displays.
pub uninterp spec fn render_fault(error: toml::ser::Error) -> Seq<char>;

/// What writing a table out as a TOML document gives: the text, or the
/// serializer's message.
pub uninterp spec fn toml_text(entries: Map<Seq<char>, TomlNode>) -> Result<Seq<char>, Seq<char>>;

/// A value of which a `TomlNode` keeps everything: text or an integer.
pub open spec fn is_scalar(node: TomlNode) -> bool {
    node is Text || node is Integer
}

/// A table whose values are all text or integers.
pub open spec fn is_flat_table(node: TomlNode) -> bool {
    node matches TomlNode::Table(entries) && forall|key: Seq<char>| #[trigger]
        entries.contains_key(key) ==> is_scalar(entries[key])
}

/// A root table that holds nothing but tables of text and integers. Such a
/// table is known whole by its entries.
pub open spec fn is_sectioned(entries: Map<Seq<char>, TomlNode>) -> bool {
    forall|key: Seq<char>| #[trigger] entries.contains_key(key) ==> is_flat_table(entries[key])
}

/// `toml::map::Map::new`: a table without entries.
pub assume_specification[ toml::map::Map::<String, toml::Value>::new ]() -> (table: toml::Table)
    ensures
        table_entries(table) == (Map::<Seq<char>, TomlNode>::empty()),
;

/// `toml::map::Map::insert`: the value stands under the key afterwards, in
/// place of any value that stood there, which is handed back.
pub assume_specification[ toml::map::Map::<String, toml::Value>::insert ](
    table: &mut toml::Table,
    k: String,
    v: toml::Value,
) -> (previous: Option<toml::Value>)
    ensures
        table_entries(*final(table)) == table_entries(*old(table)).insert(k@, value_node(v)),
        match previous {
            Some(value) => table_entries(*old(table)).contains_key(k@) && table_entries(
                *old(table),
            )[k@] == value_node(value),
            None => !table_entries(*old(table)).contains_key(k@),
        },
;

/// `From<String>` of `toml::Value`: a string value with that text.
#[verifier::external_body]
pub(crate) fn text_value(text: String) -> (value: toml::Value)
    ensures
        value_node(value) == TomlNode::Text(text@),
{
    toml::Value::from(text)
}

/// `From<i64>` of `toml::Value`: an integer value with that number.
#[verifier::external_body]
pub(crate) fn integer_value(number: i64) -> (value: toml::Value)
    ensures
        value_node(value) == TomlNode::Integer(number as int),
{
    toml::Value::from(number)
}

/// `From<Table>` of `toml::Value`: a table value with that table's entries.
#[verifier::external_body]
pub(crate) fn table_value(table: toml::Table) -> (value: toml::Value)
    ensures
        value_node(value) == TomlNode::Table(table_entries(table)),
{
    toml::Value::from(table)
}

/// `toml::to_string` on a table: the document's text. Asked only of tables of
/// tables of text and integers, for which the text depends on the entries
/// alone.
#[verifier::external_body]
pub(crate) fn table_text(table: &toml::Table) -> (r: Result<String, toml::ser::Error>)
    requires
        is_sectioned(table_entries(*table)),
    ensures
        match r {
            Ok(text) => toml_text(table_entries(*table)) == Ok::<Seq<char>, Seq<char>>(text@),
            Err(error) => toml_text(table_entries(*table)) == Err::<Seq<char>, Seq<char>>(
                render_fault(error),
            ),
        },
{
    toml::to_string(table)
}

/// `Display` of `toml::ser::Error`, through `to_string`.
#[verifier::external_body]
pub(crate) fn render_fault_text(error: &toml::ser::Error) -> (text: String)
    ensures
        text@ == render_fault(*error),
{
    error.to_string()
}

} // verus!
