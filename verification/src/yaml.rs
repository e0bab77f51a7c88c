//! Reading and writing YAML, done by `serde_yaml` on the document type of `serde_json`.

use vstd::prelude::*;

verus! {

/// `serde_yaml::Error`, which says why a text is no YAML or a document cannot
/// be written. It is only passed on.
#[verifier::external_type_specification]
#[verifier::external_body]
pub struct ExYamlError(serde_yaml::Error);

/// The document that `serde_yaml::from_str` reads from a text, if it reads one.
pub uninterp spec fn yaml_document(text: Seq<char>) -> Option<serde_json::Value>;

/// The text that `serde_yaml::to_string` writes for a document, if it writes one.
pub uninterp spec fn yaml_text(value: serde_json::Value) -> Option<Seq<char>>;

/// Calls `serde_yaml::from_str` for a `serde_json::Value`. The parser is a
/// function of the text alone, so the outcome is named by `yaml_document`:
/// `Ok` with that document where the text is YAML that such a value can
/// hold, `Err` where it is not.
#[verifier::external_body]
pub(crate) fn parse_yaml(text: &str) -> (res: Result<serde_json::Value, serde_yaml::Error>)
    ensures
        res is Ok <==> yaml_document(text@) is Some,
        res matches Ok(v) ==> yaml_document(text@) == Some(v),
{
    serde_yaml::from_str(text)
}

/// Calls `serde_yaml::to_string` on a `serde_json::Value`. The writer is a
/// function of the document alone, so the outcome is named by `yaml_text`.
#[verifier::external_body]
pub(crate) fn write_yaml(value: &serde_json::Value) -> (res: Result<String, serde_yaml::Error>)
    ensures
        res is Ok <==> yaml_text(*value) is Some,
        res matches Ok(text) ==> yaml_text(*value) == Some(text@),
{
    serde_yaml::to_string(value)
}

} // verus!
