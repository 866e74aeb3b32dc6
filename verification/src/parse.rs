//! Parsing of a raw declaration string into the library's tree value,
//! and extraction of its top-level `declaration` mapping.
use vstd::prelude::*;

use crate::yaml::Yaml;

verus! {

#[verifier::external_type_specification]
#[verifier::external_body]
pub struct ExYamlValue(serde_yaml_ng::Value);

/// What the YAML parser returns for a declaration string, as the
/// library's tree value: absent when the text does not parse. A pure
/// function of the text.
pub uninterp spec fn yaml_tree_of(s: Seq<char>) -> Option<Yaml>;

/// Converts the parser's generic tree into the library's tree value,
/// one variant each: numeric content is dropped with the kind kept,
/// tagged nodes are unwrapped as every accessor of the parser does.
#[verifier::external_body]
fn yaml_from_value(v: serde_yaml_ng::Value) -> Yaml {
    match v {
        serde_yaml_ng::Value::Null => Yaml::Null,
        serde_yaml_ng::Value::Bool(b) => Yaml::Bool(b),
        serde_yaml_ng::Value::Number(_) => Yaml::Number,
        serde_yaml_ng::Value::String(s) => Yaml::Str(s),
        serde_yaml_ng::Value::Sequence(items) => Yaml::Sequence(
            items.into_iter().map(yaml_from_value).collect(),
        ),
        serde_yaml_ng::Value::Mapping(entries) => Yaml::Mapping(
            entries.into_iter().map(|e| (yaml_from_value(e.0), yaml_from_value(e.1))).collect(),
        ),
        serde_yaml_ng::Value::Tagged(t) => yaml_from_value(t.value),
    }
}

/// Relies on serde_yaml_ng::from_str: parses YAML text into a generic
/// tree value, or fails without panicking; the outcome depends on the
/// text alone.
#[verifier::external_body]
pub fn parse_yaml(s: &str) -> (r: Option<Yaml>)
    ensures
        r == yaml_tree_of(s@),
{
    match serde_yaml_ng::from_str::<serde_yaml_ng::Value>(s) {
        Ok(v) => Some(yaml_from_value(v)),
        Err(_) => None,
    }
}

/// The `declaration` mapping of a parsed declaration document, when the
/// document is a mapping that carries one.
pub open spec fn declaration_of(tree: Yaml) -> Option<Yaml> {
    match tree.get_spec("declaration"@) {
        Some(d) => if d is Mapping {
            Some(d)
        } else {
            None
        },
        None => None,
    }
}

/// Extracts the `declaration` mapping from a parsed document. Either
/// the whole mapping is available or nothing is.
pub fn get_declaration<'a>(tree: &'a Yaml) -> (r: Option<&'a Yaml>)
    ensures
        match r {
            Some(d) => declaration_of(*tree) == Some(*d),
            None => declaration_of(*tree) is None,
        },
{
    match tree.get("declaration") {
        Some(d) => match d {
            Yaml::Mapping(_) => Some(d),
            _ => None,
        },
        None => None,
    }
}

} // verus!
