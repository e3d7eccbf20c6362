//! Reading YAML text into a [`YamlValue`], through the `serde_yaml` parser.

use vstd::prelude::*;

use crate::yaml::value::{YamlNumber, YamlParseError, YamlValue};

verus! {

/// The YAML parser's value type; its contents are read only when it is
/// converted into a [`YamlValue`].
#[verifier::external_type_specification]
#[verifier::external_body]
pub struct ExSerdeYamlValue(serde_yaml::Value);

/// The YAML parser's number type.
#[verifier::external_type_specification]
#[verifier::external_body]
pub struct ExSerdeYamlNumber(serde_yaml::Number);

/// What `serde_yaml` makes of a document: the value it parses, or the
/// explanation of its failure.
pub uninterp spec fn parsed_yaml_document(text: Seq<char>) -> Result<YamlValue, YamlParseError>;

/// Classifies a parsed number: non-negative integer, negative integer, or
/// fractional.
#[verifier::external_body]
fn from_serde_number(n: &serde_yaml::Number) -> YamlNumber {
    match (n.as_u64(), n.as_i64()) {
        (Some(u), _) => YamlNumber::PosInt(u),
        (None, Some(i)) => YamlNumber::NegInt(i),
        (None, None) => YamlNumber::Fractional,
    }
}

/// Rebuilds a parsed document in the library's own value type, node for node:
/// mappings keep their entries in document order, tags keep their text.
#[verifier::external_body]
fn from_serde_value(value: &serde_yaml::Value) -> YamlValue {
    match value {
        serde_yaml::Value::Null => YamlValue::Null,
        serde_yaml::Value::Bool(b) => YamlValue::Bool(*b),
        serde_yaml::Value::Number(n) => YamlValue::Number(from_serde_number(n)),
        serde_yaml::Value::String(s) => YamlValue::String(s.clone()),
        serde_yaml::Value::Sequence(items) => YamlValue::Sequence(items.iter().map(from_serde_value).collect()),
        serde_yaml::Value::Mapping(m) => YamlValue::Mapping(m.iter().map(|(k, v)| (from_serde_value(k), from_serde_value(v))).collect()),
        serde_yaml::Value::Tagged(t) => YamlValue::Tagged(t.tag.to_string(), Box::new(from_serde_value(&t.value))),
    }
}

/// Calls `serde_yaml::from_str::<serde_yaml::Value>`. The claim: the result
/// depends on the text alone (it is named [`parsed_yaml_document`]); a failure
/// carries the parser's error message.
#[verifier::external_body]
pub(crate) fn parse_yaml_document(text: &str) -> (r: Result<YamlValue, YamlParseError>)
    ensures
        r == parsed_yaml_document(text@),
{
    match serde_yaml::from_str::<serde_yaml::Value>(text) {
        Ok(v) => Ok(from_serde_value(&v)),
        Err(e) => Err(YamlParseError { message: e.to_string() }),
    }
}

} // verus!
