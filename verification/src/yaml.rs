//! YAML documents, built and written by the `serde_yaml` crate.

use crate::text::views;
use vstd::prelude::*;

verus! {

/// A YAML document as contracts see it.
pub enum YamlDoc {
    /// A string.
    Text(Seq<char>),
    /// A whole number.
    Number(int),
    /// A sequence of documents.
    List(Seq<YamlDoc>),
    /// A mapping, as its entries in the order in which they were inserted.
    Table(Seq<(YamlDoc, YamlDoc)>),
}

/// A YAML value of `serde_yaml`.
#[verifier::external_type_specification]
#[verifier::external_body]
pub struct ExYamlValue(serde_yaml::Value);

/// A YAML mapping of `serde_yaml`.
#[verifier::external_type_specification]
#[verifier::external_body]
pub struct ExYamlMapping(serde_yaml::Mapping);

/// The error of `serde_yaml`.
#[verifier::external_type_specification]
#[verifier::external_body]
pub struct ExYamlError(serde_yaml::Error);

/// The document that a value holds.
pub uninterp spec fn yaml_doc(value: serde_yaml::Value) -> YamlDoc;

/// The entries that a mapping holds, in the order in which they were
/// inserted.
pub uninterp spec fn yaml_entries(mapping: serde_yaml::Mapping) -> Seq<(YamlDoc, YamlDoc)>;

/// The text that `serde_yaml` writes for a mapping with these entries, if it
/// writes one.
pub uninterp spec fn yaml_written(entries: Seq<(YamlDoc, YamlDoc)>) -> Option<Seq<char>>;

/// Some entry has the string `key` as its key.
pub open spec fn has_text_key(entries: Seq<(YamlDoc, YamlDoc)>, key: Seq<char>) -> bool {
    exists|i: int| 0 <= i < entries.len() && (#[trigger] entries[i]).0 == YamlDoc::Text(key)
}

/// Calls `Value::from` on a string slice: the string as a value.
#[verifier::external_body]
pub(crate) fn yaml_text(text: &str) -> (value: serde_yaml::Value)
    ensures
        yaml_doc(value) == YamlDoc::Text(text@),
{
    serde_yaml::Value::from(text)
}

/// Calls `Value::from` on an integer: the number as a value.
#[verifier::external_body]
pub(crate) fn yaml_number(number: i64) -> (value: serde_yaml::Value)
    ensures
        yaml_doc(value) == YamlDoc::Number(number as int),
{
    serde_yaml::Value::from(number)
}

/// Calls `Value::from` on a vector of values: the sequence of them.
#[verifier::external_body]
pub(crate) fn yaml_list(items: Vec<serde_yaml::Value>) -> (value: serde_yaml::Value)
    ensures
        yaml_doc(value) == YamlDoc::List(Seq::new(items@.len(), |i: int| yaml_doc(items@[i]))),
{
    serde_yaml::Value::from(items)
}

/// Calls `Mapping::new`: a mapping without entries.
#[verifier::external_body]
pub(crate) fn yaml_mapping() -> (mapping: serde_yaml::Mapping)
    ensures
        yaml_entries(mapping) == Seq::<(YamlDoc, YamlDoc)>::empty(),
{
    serde_yaml::Mapping::new()
}

/// Calls `Mapping::insert` with a string as the key. A key that the mapping
/// does not hold yet is put behind the other entries with its value.
#[verifier::external_body]
pub(crate) fn yaml_insert(mapping: &mut serde_yaml::Mapping, key: &str, value: serde_yaml::Value)
    ensures
        !has_text_key(yaml_entries(*old(mapping)), key@) ==> yaml_entries(*final(mapping))
            == yaml_entries(*old(mapping)).push((YamlDoc::Text(key@), yaml_doc(value))),
{
    mapping.insert(serde_yaml::Value::from(key), value);
}

/// Calls `Value::from` on a mapping: the mapping as a value.
#[verifier::external_body]
pub(crate) fn yaml_table(mapping: serde_yaml::Mapping) -> (value: serde_yaml::Value)
    ensures
        yaml_doc(value) == YamlDoc::Table(yaml_entries(mapping)),
{
    serde_yaml::Value::from(mapping)
}

/// Calls `serde_yaml::to_string` on a mapping: the text that the crate
/// writes for the mapping's entries, or its error.
#[verifier::external_body]
pub(crate) fn yaml_to_string(mapping: &serde_yaml::Mapping) -> (r: Result<
    String,
    serde_yaml::Error,
>)
    ensures
        match r {
            Ok(text) => yaml_written(yaml_entries(*mapping)) == Some(text@),
            Err(_) => yaml_written(yaml_entries(*mapping)) is None,
        },
{
    serde_yaml::to_string(mapping)
}

/// The sequence of strings as a document.
pub open spec fn text_list(items: Seq<Seq<char>>) -> YamlDoc {
    YamlDoc::List(Seq::new(items.len(), |i: int| YamlDoc::Text(items[i])))
}

/// The sequence of the strings as a value.
pub(crate) fn text_list_value(items: &Vec<String>) -> (value: serde_yaml::Value)
    ensures
        yaml_doc(value) == text_list(views(items@)),
{
    let mut values: Vec<serde_yaml::Value> = Vec::new();
    let mut i: usize = 0;
    while i < items.len()
        invariant
            i <= items@.len(),
            values@.len() == i,
            forall|k: int| 0 <= k < i ==> yaml_doc(#[trigger] values@[k]) == YamlDoc::Text(items@[k]@),
        decreases items@.len() - i,
    {
        values.push(yaml_text(items[i].as_str()));
        i = i + 1;
    }
    let value = yaml_list(values);
    assert(Seq::new(values@.len(), |i: int| yaml_doc(values@[i])) =~= Seq::new(
        items@.len(),
        |i: int| YamlDoc::Text(views(items@)[i]),
    ));
    value
}

/// A mapping with one entry under a string key.
pub(crate) fn single_entry(key: &str, value: serde_yaml::Value) -> (mapping: serde_yaml::Mapping)
    ensures
        yaml_entries(mapping) == seq![(YamlDoc::Text(key@), yaml_doc(value))],
{
    let mut mapping = yaml_mapping();
    yaml_insert(&mut mapping, key, value);
    assert(yaml_entries(mapping) =~= seq![(YamlDoc::Text(key@), yaml_doc(value))]);
    mapping
}

} // verus!
