//! Structural validation of a rendered spell before submission: the text
//! must parse as a structured document (a mapping) and carry a top-level
//! `version` field. Validation is local and advisory; the remote prover
//! stays the authority on full semantic correctness.

use vstd::prelude::*;

verus! {

/// Why a spell failed local validation.
#[derive(Debug)]
pub enum ValidationError {
    /// The text is not a structured document; holds the parser's message.
    MalformedDocument(String),
    /// A required top-level field is absent; holds the field's name.
    MissingField(String),
}

/// What parsing the text as a structured document yields: `None` when the
/// text is not a well-formed mapping, else whether the mapping holds `key`
/// at top level. Parsing a fixed text always yields the same answer.
pub uninterp spec fn yaml_mapping_has_key(doc: Seq<char>, key: Seq<char>) -> Option<bool>;

/// Relies on serde_yaml::from_str and serde_yaml::Value::get: parsing is a
/// pure function of the text, and `get` on a mapping value finds a
/// top-level key.
#[verifier::external_body]
fn yaml_mapping_probe(doc: &str, key: &str) -> (r: Result<bool, String>)
    ensures
        r is Ok <==> yaml_mapping_has_key(doc@, key@) is Some,
        r is Ok ==> Some(r->Ok_0) == yaml_mapping_has_key(doc@, key@),
{
    match serde_yaml::from_str::<serde_yaml::Value>(doc) {
        Ok(value) => {
            if value.is_mapping() {
                Ok(value.get(key).is_some())
            } else {
                Err("document is not a mapping".to_string())
            }
        },
        Err(e) => Err(e.to_string()),
    }
}

/// The spell is structurally valid: a mapping with a top-level `version`.
pub open spec fn spell_valid(doc: Seq<char>) -> bool {
    yaml_mapping_has_key(doc, "version"@) == Some(true)
}

/// Validates a rendered spell: rejects text that is not a structured
/// mapping as `MalformedDocument`, a mapping without a top-level `version`
/// field as `MissingField("version")`, and accepts the rest.
pub fn validate_spell(spell: &str) -> (r: Result<(), ValidationError>)
    ensures
        r is Ok <==> spell_valid(spell@),
        (r is Err && r->Err_0 is MalformedDocument) <==> yaml_mapping_has_key(
            spell@,
            "version"@,
        ) is None,
        (r is Err && r->Err_0 is MissingField) <==> yaml_mapping_has_key(spell@, "version"@)
            == Some(false),
        r is Err && r->Err_0 is MissingField ==> r->Err_0->MissingField_0@ == "version"@,
{
    match yaml_mapping_probe(spell, "version") {
        Ok(true) => Ok(()),
        Ok(false) => Err(ValidationError::MissingField("version".to_owned())),
        Err(message) => Err(ValidationError::MalformedDocument(message)),
    }
}

} // verus!
