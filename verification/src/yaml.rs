//! YAML documents as `serde_yaml` holds them, and what this library takes
//! from that crate without proof.
//!
//! A value of `serde_yaml` is opaque to the verifier. Its contents are named
//! by `yaml_tree` and `yaml_entries`, as a tree of mathematical values, and
//! each function below says over those names what the crate's function does.

use std::collections::BTreeMap;
use vstd::prelude::*;

verus! {

/// `serde_yaml::Value`, of which the verifier sees nothing.
#[verifier::external_type_specification]
#[verifier::external_body]
pub struct ExYamlValue(serde_yaml::Value);

/// `serde_yaml::Mapping`, of which the verifier sees nothing.
#[verifier::external_type_specification]
#[verifier::external_body]
pub struct ExYamlMapping(serde_yaml::Mapping);

/// A YAML value, as far as this library reads and writes one.
pub enum Yaml {
    /// A string.
    Text(Seq<char>),
    /// A mapping: its entries, key and value, in the order it keeps them.
    Table(Seq<(Yaml, Yaml)>),
    /// A value under a `!tag`.
    Tagged(Box<Yaml>),
    /// Null, a boolean, a number or a sequence.
    Other,
}

/// The value under every tag that is wrapped around it.
pub open spec fn untagged(t: Yaml) -> Yaml
    decreases t,
{
    match t {
        Yaml::Tagged(inner) => untagged(*inner),
        _ => t,
    }
}

/// The position of the first entry whose key is `key`.
pub open spec fn position(entries: Seq<(Yaml, Yaml)>, key: Yaml) -> Option<int>
    decreases entries.len(),
{
    if entries.len() == 0 {
        None
    } else if entries.first().0 == key {
        Some(0)
    } else {
        match position(entries.drop_first(), key) {
            Some(i) => Some(i + 1),
            None => None,
        }
    }
}

/// The value of the entry whose key is the string `key`.
pub open spec fn lookup(entries: Seq<(Yaml, Yaml)>, key: Seq<char>) -> Option<Yaml> {
    match position(entries, Yaml::Text(key)) {
        Some(i) => Some(entries[i].1),
        None => None,
    }
}

/// The entries once `value` stands under `key`: in the place of the entry
/// that had this key, else at the end.
pub open spec fn with_entry(entries: Seq<(Yaml, Yaml)>, key: Yaml, value: Yaml) -> Seq<
    (Yaml, Yaml),
> {
    match position(entries, key) {
        Some(i) => entries.update(i, (key, value)),
        None => entries.push((key, value)),
    }
}

/// Under a key that no entry has, a value goes to the end.
pub proof fn lemma_fresh_key(entries: Seq<(Yaml, Yaml)>, key: Yaml, value: Yaml)
    requires
        forall|i: int| 0 <= i < entries.len() ==> (#[trigger] entries[i]).0 != key,
    ensures
        position(entries, key) is None,
        with_entry(entries, key, value) == entries.push((key, value)),
    decreases entries.len(),
{
    if entries.len() > 0 {
        assert(entries.first() == entries[0]);
        assert forall|i: int| 0 <= i < entries.drop_first().len() implies (
        #[trigger] entries.drop_first()[i]).0 != key by {
            assert(entries.drop_first()[i] == entries[i + 1]);
        }
        lemma_fresh_key(entries.drop_first(), key, value);
    }
}

/// A tree of strings and mappings only, tags nowhere.
pub open spec fn is_plain(t: Yaml) -> bool
    decreases t,
{
    match t {
        Yaml::Text(_) => true,
        Yaml::Table(entries) => forall|i: int|
            0 <= i < entries.len() ==> is_plain((#[trigger] entries[i]).0) && is_plain(
                entries[i].1,
            ),
        _ => false,
    }
}

/// What a `serde_yaml::Value` holds.
pub uninterp spec fn yaml_tree(v: serde_yaml::Value) -> Yaml;

/// The entries that a `serde_yaml::Mapping` holds, in its order.
pub uninterp spec fn yaml_entries(m: serde_yaml::Mapping) -> Seq<(Yaml, Yaml)>;

/// The entries that `serde_yaml::from_str` reads from a text as a map from
/// strings to values, ordered by key; nothing where it reports an error.
pub uninterp spec fn yaml_read(text: Seq<char>) -> Option<Seq<(Yaml, Yaml)>>;

/// The text that `serde_yaml::to_string` writes for a mapping with the given
/// entries, of strings and mappings only.
pub uninterp spec fn yaml_text(entries: Seq<(Yaml, Yaml)>) -> Seq<char>;

/// `serde_yaml::from_str`, reading a map from strings to values. The result
/// depends on the text alone. The map is handed on as a `Mapping` with the
/// same entries.
#[verifier::external_body]
pub(crate) fn yaml_from_str(text: &str) -> (r: Option<serde_yaml::Mapping>)
    ensures
        match r {
            Some(top) => yaml_read(text@) == Some(yaml_entries(top)),
            None => yaml_read(text@) is None,
        },
{
    match serde_yaml::from_str::<BTreeMap<String, serde_yaml::Value>>(text) {
        Ok(top) => Some(top.into_iter().map(|(k, v)| (serde_yaml::Value::String(k), v)).collect()),
        Err(_) => None,
    }
}

/// `Mapping::get` with a string: the value of the entry whose key is that
/// string, where there is one. Keys are unique in a mapping.
#[verifier::external_body]
pub(crate) fn yaml_get<'a>(m: &'a serde_yaml::Mapping, key: &str) -> (r: Option<
    &'a serde_yaml::Value,
>)
    ensures
        match r {
            Some(v) => lookup(yaml_entries(*m), key@) == Some(yaml_tree(*v)),
            None => lookup(yaml_entries(*m), key@) is None,
        },
{
    m.get(key)
}

/// `Value::as_mapping`: the mapping that the value is, once its tags are
/// taken off.
#[verifier::external_body]
pub(crate) fn yaml_as_mapping(v: &serde_yaml::Value) -> (r: Option<&serde_yaml::Mapping>)
    ensures
        match r {
            Some(m) => untagged(yaml_tree(*v)) == Yaml::Table(yaml_entries(*m)),
            None => !(untagged(yaml_tree(*v)) is Table),
        },
{
    v.as_mapping()
}

/// `Value::as_str`: the string that the value is, once its tags are taken
/// off.
#[verifier::external_body]
pub(crate) fn yaml_as_str(v: &serde_yaml::Value) -> (r: Option<&str>)
    ensures
        match r {
            Some(s) => untagged(yaml_tree(*v)) == Yaml::Text(s@),
            None => !(untagged(yaml_tree(*v)) is Text),
        },
{
    v.as_str()
}

/// The variant `Value::String`.
#[verifier::external_body]
pub(crate) fn yaml_string(s: String) -> (v: serde_yaml::Value)
    ensures
        yaml_tree(v) == Yaml::Text(s@),
{
    serde_yaml::Value::String(s)
}

/// The variant `Value::Mapping`.
#[verifier::external_body]
pub(crate) fn yaml_mapping(m: serde_yaml::Mapping) -> (v: serde_yaml::Value)
    ensures
        yaml_tree(v) == Yaml::Table(yaml_entries(m)),
{
    serde_yaml::Value::Mapping(m)
}

/// `Mapping::with_capacity`: a mapping without entries.
#[verifier::external_body]
pub(crate) fn yaml_with_capacity(capacity: usize) -> (m: serde_yaml::Mapping)
    ensures
        yaml_entries(m) == Seq::<(Yaml, Yaml)>::empty(),
{
    serde_yaml::Mapping::with_capacity(capacity)
}

/// `Mapping::insert` with a string as the key: the value takes the place of
/// the one that stood under this key, else the entry goes to the end.
#[verifier::external_body]
pub(crate) fn yaml_insert(m: &mut serde_yaml::Mapping, k: serde_yaml::Value, v: serde_yaml::Value)
    requires
        yaml_tree(k) is Text,
    ensures
        yaml_entries(*final(m)) == with_entry(yaml_entries(*old(m)), yaml_tree(k), yaml_tree(v)),
{
    m.insert(k, v);
}

/// `serde_yaml::to_string` on a mapping. For one of strings and mappings
/// only the crate's serialiser reports no error, and the text depends on
/// the entries and their order alone.
#[verifier::external_body]
pub(crate) fn yaml_to_string(m: &serde_yaml::Mapping) -> (r: String)
    requires
        is_plain(Yaml::Table(yaml_entries(*m))),
    ensures
        r@ == yaml_text(yaml_entries(*m)),
{
    serde_yaml::to_string(m).unwrap_or_default()
}

} // verus!
