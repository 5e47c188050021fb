//! Reading marker files. A marker file's text is a TOML table; the library
//! reads its top-level string, boolean, string-list and string-to-string
//! table fields through the toml crate. The parse itself is trusted: each
//! field is named as an unknown but fixed function of the text, and
//! everything built on top of the fields is verified against those names.
//!
//! The toml crate backs its tables with an ordered map (a B-tree keyed by the
//! entry names), so every result below — table entries included, in key
//! order — is a function of the text and the key alone.

use vstd::prelude::*;

verus! {

/// Whether a text parses as a TOML table.
pub uninterp spec fn toml_accepts(text: Seq<char>) -> bool;

/// The string at a top-level key of a TOML text: `None` when the text does
/// not parse, the key is absent, or its value is not a string.
pub uninterp spec fn str_field(text: Seq<char>, key: Seq<char>) -> Option<Seq<char>>;

/// The boolean at a top-level key of a TOML text: `None` when the text does
/// not parse, the key is absent, or its value is not a boolean.
pub uninterp spec fn bool_field(text: Seq<char>, key: Seq<char>) -> Option<bool>;

/// The list of strings at a top-level key of a TOML text, in list order:
/// `None` when the text does not parse, the key is absent, or its value is
/// not an array of strings.
pub uninterp spec fn str_list_field(text: Seq<char>, key: Seq<char>) -> Option<Seq<Seq<char>>>;

/// The string-valued entries of the table at a top-level key of a TOML text,
/// as (entry name, string) pairs in the table's key order: `None` when the
/// text does not parse, the key is absent, its value is not a table, or some
/// entry of that table is not a string.
pub uninterp spec fn str_map_field(text: Seq<char>, key: Seq<char>) -> Option<
    Seq<(Seq<char>, Seq<char>)>,
>;

/// Relies on toml::from_str::<toml::Table>: whether a text parses as a TOML
/// table depends on the text alone.
#[verifier::external_body]
pub(crate) fn toml_text_accepted(text: &str) -> (r: bool)
    ensures
        r == toml_accepts(text@),
{
    toml::from_str::<toml::Table>(text).is_ok()
}

/// Relies on toml::from_str::<toml::Table>, toml::map::Map::get and
/// toml::Value::as_str: the string at a top-level key depends on the text
/// and the key alone.
#[verifier::external_body]
pub(crate) fn toml_str_field(text: &str, key: &str) -> (r: Option<String>)
    ensures
        r.deep_view() == str_field(text@, key@),
{
    let table: toml::Table = match toml::from_str(text) {
        Ok(t) => t,
        Err(_) => return None,
    };
    table.get(key).and_then(|v| v.as_str()).map(|s| s.to_string())
}

/// Relies on toml::from_str::<toml::Table>, toml::map::Map::get and
/// toml::Value::as_bool: the boolean at a top-level key depends on the text
/// and the key alone.
#[verifier::external_body]
pub(crate) fn toml_bool_field(text: &str, key: &str) -> (r: Option<bool>)
    ensures
        r == bool_field(text@, key@),
{
    let table: toml::Table = match toml::from_str(text) {
        Ok(t) => t,
        Err(_) => return None,
    };
    table.get(key).and_then(|v| v.as_bool())
}

/// Relies on toml::from_str::<toml::Table>, toml::map::Map::get,
/// toml::Value::as_array and toml::Value::as_str: the list of strings at a
/// top-level key, in list order, depends on the text and the key alone.
#[verifier::external_body]
pub(crate) fn toml_str_list_field(text: &str, key: &str) -> (r: Option<Vec<String>>)
    ensures
        r.deep_view() == str_list_field(text@, key@),
{
    let table: toml::Table = match toml::from_str(text) {
        Ok(t) => t,
        Err(_) => return None,
    };
    let items = table.get(key)?.as_array()?;
    items.iter().map(|v| v.as_str().map(|s| s.to_string())).collect()
}

/// Relies on toml::from_str::<toml::Table>, toml::map::Map::get,
/// toml::Value::as_table, toml::map::Map::iter and toml::Value::as_str: the
/// string-valued entries of the table at a top-level key, in the backing
/// B-tree's key order, depend on the text and the key alone.
#[verifier::external_body]
pub(crate) fn toml_str_map_field(text: &str, key: &str) -> (r: Option<Vec<(String, String)>>)
    ensures
        r.deep_view() == str_map_field(text@, key@),
{
    let table: toml::Table = match toml::from_str(text) {
        Ok(t) => t,
        Err(_) => return None,
    };
    let entries = table.get(key)?.as_table()?;
    entries.iter().map(|(k, v)| v.as_str().map(|s| (k.clone(), s.to_string()))).collect()
}

} // verus!
